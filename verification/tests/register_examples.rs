use nrf24l01_commands::fields::{
    AddressWidth, AutoRetransmitDelay, Crco, RfDrHigh, RfPower, RxPipeNo,
};
use nrf24l01_commands::registers::{
    Config, Dynpd, EnAa, EnRxaddr, Feature, FifoStatus, ObserveTx, RfCh, RfSetup, Rpd, RxAddrP0,
    RxAddrP1, RxAddrP2, RxAddrP3, RxAddrP4, RxAddrP5, RxPwP1, RxPwP2, RxPwP3, RxPwP4, RxPwP5,
    SetupAw, SetupRetr, Status, TxAddr,
};

#[test]
fn config_reads_and_writes_fields() {
    let reg = Config::new();
    assert_eq!(reg.into_bits(), 0b0000_1000);

    let reg = Config::from_bits(0b0000_0110);
    assert!(!reg.mask_rx_dr());
    assert!(!reg.mask_tx_ds());
    assert!(!reg.mask_max_rt());
    assert!(!reg.en_crc());
    assert_eq!(reg.crco(), Crco::TwoByte);
    assert!(reg.pwr_up());
    assert!(!reg.prim_rx());

    let reg = Config::new()
        .with_mask_rx_dr(true)
        .with_mask_tx_ds(false)
        .with_mask_max_rt(false)
        .with_en_crc(false)
        .with_crco(Crco::TwoByte)
        .with_pwr_up(true)
        .with_prim_rx(false);
    assert_eq!(reg.into_bits(), 0b0100_0110);
    assert_eq!(reg.as_write_bytes(), [0b0010_0000, 0b0100_0110]);
    assert_eq!(reg.address(), 0x00);
}

#[test]
fn en_aa_defaults_to_all_pipes() {
    let reg = EnAa::new();
    assert_eq!(reg.into_bits(), 0b0011_1111);
    let reg = EnAa::new()
        .with_enaa_p5(true)
        .with_enaa_p4(true)
        .with_enaa_p3(false)
        .with_enaa_p2(false)
        .with_enaa_p1(false)
        .with_enaa_p0(false);
    assert_eq!(reg.into_bits(), 0b0011_0000);
}

#[test]
fn en_rxaddr_defaults_to_pipes_0_and_1() {
    let reg = EnRxaddr::new();
    assert_eq!(reg.into_bits(), 0b0000_0011);
    let reg = EnRxaddr::new()
        .with_erx_p5(true)
        .with_erx_p4(false)
        .with_erx_p3(false)
        .with_erx_p2(false)
        .with_erx_p1(true)
        .with_erx_p0(false);
    assert_eq!(reg.into_bits(), 0b0010_0010);
}

#[test]
fn setup_aw_defaults_to_five_bytes() {
    let reg = SetupAw::new();
    assert_eq!(reg.into_bits(), 0b0000_0011);
    assert_eq!(reg.aw(), AddressWidth::FiveByte);
    let reg = SetupAw::new().with_aw(AddressWidth::FourByte);
    assert_eq!(reg.into_bits(), 0b0000_0010);
}

#[test]
fn setup_retr_writes_delay_and_count() {
    let reg = SetupRetr::new();
    assert_eq!(reg.into_bits(), 0b0000_0011);
    assert_eq!(reg.arc(), 3);
    let reg = SetupRetr::new()
        .with_ard(AutoRetransmitDelay::US750)
        .with_arc(0b1111);
    assert_eq!(reg.into_bits(), 0b0010_1111);
    assert_eq!(reg.ard(), AutoRetransmitDelay::US750);
}

#[test]
fn rf_ch_writes_channel() {
    let reg = RfCh::new();
    assert_eq!(reg.into_bits(), 0b0000_0010);
    let reg = RfCh::new().with_rf_ch(89);
    assert_eq!(reg.into_bits(), 89);
    assert_eq!(reg.rf_ch(), 89);
}

#[test]
fn rf_setup_reads_and_writes_fields() {
    let reg = RfSetup::new();
    assert_eq!(reg.into_bits(), 0b0000_1110);
    let reg = RfSetup::new()
        .with_pll_lock(false)
        .with_rf_dr_low(true)
        .with_rf_dr_high(RfDrHigh::Mbps1)
        .with_rf_pwr(RfPower::Neg6Dbm);
    assert_eq!(reg.into_bits(), 0b0010_0100);
    assert_eq!(reg.rf_pwr(), RfPower::Neg6Dbm);

    let reg = RfSetup::from_bits(0b0010_0010);
    assert!(!reg.cont_wave());
    assert!(reg.rf_dr_low());
    assert!(!reg.pll_lock());
    assert_eq!(reg.rf_dr_high(), RfDrHigh::Mbps1);
    assert_eq!(reg.rf_pwr(), RfPower::Neg12Dbm);
}

#[test]
fn status_reads_and_writes_fields() {
    let reg = Status::new();
    assert_eq!(reg.into_bits(), 0);
    let reg = Status::from_bits(0b0011_0101);
    assert!(!reg.rx_dr());
    assert!(reg.tx_ds());
    assert!(reg.max_rt());
    assert_eq!(reg.rx_p_no(), RxPipeNo::Pipe2);
    assert!(reg.tx_full());
    let reg = Status::new()
        .with_rx_dr(false)
        .with_tx_ds(true)
        .with_max_rt(false);
    assert_eq!(reg.into_bits(), 0b0010_0000);
}

#[test]
fn observe_tx_reads_counters() {
    let reg = ObserveTx::new();
    assert_eq!(reg.into_bits(), 0);
    let reg = ObserveTx::from_bits(0b1010_1100);
    assert_eq!(reg.plos_cnt(), 10);
    assert_eq!(reg.arc_cnt(), 12);
}

#[test]
fn rpd_reads_power_detector() {
    let reg = Rpd::from_bits(1);
    assert!(reg.rpd());
    assert!(!Rpd::from_bits(0b1111_1110).rpd());
}

#[test]
fn rx_addr_p0_example() {
    let reg = RxAddrP0::<4>::new();
    assert_eq!(reg.rx_addr_p0(), 0xE7E7E7E7E7);
    let reg = RxAddrP0::<5>::new().with_rx_addr_p0(0xC2840DF659);
    assert_eq!(reg.rx_addr_p0(), 0xC2840DF659);
    assert_eq!(reg.as_write_bytes(), [0x0A | 0b0010_0000, 0x59, 0xF6, 0x0D, 0x84, 0xC2]);
    let reg = RxAddrP0::<3>::new().with_rx_addr_p0(0xC2840DF659);
    assert_eq!(reg.as_write_bytes(), [0x0A | 0b0010_0000, 0x59, 0xF6, 0x0D]);
}

#[test]
fn rx_addr_p1_example() {
    let reg = RxAddrP1::<4>::new();
    assert_eq!(reg.rx_addr_p1(), 0xC2C2C2C2C2);
    let reg = RxAddrP1::<5>::new().with_rx_addr_p1(0xC2840DF659);
    assert_eq!(reg.rx_addr_p1(), 0xC2840DF659);
    assert_eq!(reg.as_write_bytes(), [0x0B | 0b0010_0000, 0x59, 0xF6, 0x0D, 0x84, 0xC2]);
    let reg = RxAddrP1::<3>::new().with_rx_addr_p1(0xC2840DF659);
    assert_eq!(reg.as_write_bytes(), [0x0B | 0b0010_0000, 0x59, 0xF6, 0x0D]);
}

#[test]
fn tx_addr_example() {
    let reg = TxAddr::<4>::new();
    assert_eq!(reg.tx_addr(), 0xE7E7E7E7E7);
    let reg = TxAddr::<5>::new().with_tx_addr(0xC2840DF659);
    assert_eq!(reg.tx_addr(), 0xC2840DF659);
    assert_eq!(reg.as_write_bytes(), [0x10 | 0b0010_0000, 0x59, 0xF6, 0x0D, 0x84, 0xC2]);
    let reg = TxAddr::<3>::new().with_tx_addr(0xC2840DF659);
    assert_eq!(reg.as_write_bytes(), [0x10 | 0b0010_0000, 0x59, 0xF6, 0x0D]);
    assert_eq!(TxAddr::<4>::as_read_bytes(), [0x10, 0, 0, 0, 0]);
    assert_eq!(TxAddr::<3>::as_read_bytes(), [0x10, 0, 0, 0]);
    let reg: TxAddr<5> = TxAddr::from_bits(0x170F431EDC);
    assert_eq!(reg.as_write_bytes(), [0b0010_0000 | 0x10, 0xDC, 0x1E, 0x43, 0x0F, 0x17]);
    let reg: TxAddr<4> = TxAddr::from_bits(0x170F431EDC);
    assert_eq!(reg.as_write_bytes(), [0b0010_0000 | 0x10, 0xDC, 0x1E, 0x43, 0x0F]);
}

#[test]
fn rx_addr_p2_to_p5_hold_one_byte() {
    assert_eq!(RxAddrP2::new().into_bits(), 0xC3);
    assert_eq!(RxAddrP2::new().with_rx_addr_p2(172).into_bits(), 172);
    assert_eq!(RxAddrP3::new().into_bits(), 0xC4);
    assert_eq!(RxAddrP3::new().with_rx_addr_p3(172).into_bits(), 172);
    assert_eq!(RxAddrP4::new().into_bits(), 0xC5);
    assert_eq!(RxAddrP4::new().with_rx_addr_p4(172).into_bits(), 172);
    assert_eq!(RxAddrP5::new().into_bits(), 0xC6);
    assert_eq!(RxAddrP5::new().with_rx_addr_p5(172).into_bits(), 172);
    assert_eq!(RxAddrP5::new().rx_addr_p5(), 0xC6);
    assert_eq!(RxAddrP2::as_read_bytes(), [0x0C, 0]);
    assert_eq!(RxAddrP5::new().as_write_bytes(), [0x2F, 0xC6]);
}

#[test]
fn rx_pw_p1_to_p5_write_width() {
    assert_eq!(RxPwP1::new().into_bits(), 0);
    assert_eq!(RxPwP1::new().with_rx_pw_p1(31).into_bits(), 31);
    assert_eq!(RxPwP2::new().into_bits(), 0);
    assert_eq!(RxPwP2::new().with_rx_pw_p2(31).into_bits(), 31);
    assert_eq!(RxPwP3::new().into_bits(), 0);
    assert_eq!(RxPwP3::new().with_rx_pw_p3(31).into_bits(), 31);
    assert_eq!(RxPwP4::new().into_bits(), 0);
    assert_eq!(RxPwP4::new().with_rx_pw_p4(31).into_bits(), 31);
    assert_eq!(RxPwP5::new().into_bits(), 0);
    assert_eq!(RxPwP5::new().with_rx_pw_p5(31).into_bits(), 31);
    assert_eq!(RxPwP5::as_read_bytes(), [0x16, 0]);
}

#[test]
fn fifo_status_reads_flags() {
    let reg = FifoStatus::new();
    assert_eq!(reg.into_bits(), 0);
    let reg = FifoStatus::from_bits(0b0010_0010);
    assert!(!reg.tx_reuse());
    assert!(reg.tx_full());
    assert!(!reg.tx_empty());
    assert!(reg.rx_full());
    assert!(!reg.rx_empty());
}

#[test]
fn dynpd_writes_pipes() {
    let reg = Dynpd::new();
    assert_eq!(reg.into_bits(), 0);
    let reg = Dynpd::new()
        .with_dpl_p5(true)
        .with_dpl_p4(false)
        .with_dpl_p3(false)
        .with_dpl_p2(false)
        .with_dpl_p1(true)
        .with_dpl_p0(false);
    assert_eq!(reg.into_bits(), 0b0010_0010);
    assert_eq!(Dynpd::as_read_bytes(), [0x1C, 0]);
}

#[test]
fn feature_writes_flags() {
    let reg = Feature::new();
    assert_eq!(reg.into_bits(), 0);
    let reg = Feature::new()
        .with_en_dpl(false)
        .with_en_ack_pay(true)
        .with_en_dyn_ack(true);
    assert_eq!(reg.into_bits(), 0b0000_0011);
}
