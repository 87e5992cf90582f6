use nrf24l01_commands::fields::RxPipeNo;
use nrf24l01_commands::fields::Crco;
use nrf24l01_commands::registers::{
    Config, Feature, FifoStatus, RfCh, Rpd, RxAddrP0, RxAddrP1, RxPwP0, Status, TxAddr,
};

#[test]
fn test_reg_config() {
    // Check default
    let reg = Config::new();
    assert_eq!(reg.into_bits(), 0b0000_1000);
    // Check fields
    let reg = reg
        .with_crco(Crco::TwoByte)
        .with_en_crc(false)
        .with_mask_max_rt(true)
        .with_mask_tx_ds(true)
        .with_mask_rx_dr(true);
    assert_eq!(reg.into_bits(), 0b0111_0100);
    // Check read command
    let read_reg_bytes = Config::as_read_bytes();
    assert_eq!(read_reg_bytes, [0x00, 0]);
    // Check write command
    let write_reg_bytes = reg.as_write_bytes();
    assert_eq!(write_reg_bytes, [0b0010_0000 | 0x00, 0b0111_0100]);
}

#[test]
fn test_reg_rf_ch() {
    // Check default
    let reg = RfCh::new();
    assert_eq!(reg.into_bits(), 0b0000_0010);
    // Check fields
    let reg = reg.with_rf_ch(48);
    assert_eq!(reg.into_bits(), 48);
    // Check read command
    let read_reg_bytes = RfCh::as_read_bytes();
    assert_eq!(read_reg_bytes, [0x05, 0]);
    // Check write command
    let write_reg_bytes = reg.as_write_bytes();
    assert_eq!(write_reg_bytes, [0b0010_0000 | 0x05, 48]);
}

#[test]
fn test_reg_status() {
    // Check default
    let reg = Status::new();
    assert_eq!(reg.into_bits(), 0);
    // Check fields
    let mut reg = Status::from_bits(0b0010_0110);
    assert!(!reg.tx_full());
    assert_eq!(reg.rx_p_no(), RxPipeNo::Pipe3);
    assert!(!reg.max_rt());
    assert!(reg.tx_ds());
    assert!(!reg.rx_dr());
    // Set field
    reg.set_max_rt(true);
    assert_eq!(reg.into_bits(), 0b0011_0110);
    // Check read command
    let read_reg_bytes = Status::as_read_bytes();
    assert_eq!(read_reg_bytes, [0x07, 0]);
    // Check write command
    let write_reg_bytes = reg.as_write_bytes();
    assert_eq!(write_reg_bytes, [0b0010_0000 | 0x07, 0b0011_0110]);
}

#[test]
fn test_reg_cd() {
    // Check default
    let reg = Rpd::new();
    assert_eq!(reg.into_bits(), 0);
    // Check fields
    let reg = Rpd::from_bits(1);
    assert_eq!(reg.into_bits(), 1);
    // Check read command
    let read_reg_bytes = Rpd::as_read_bytes();
    assert_eq!(read_reg_bytes, [0x09, 0]);
}

#[test]
fn test_reg_rx_addr_p0() {
    // Check default
    let rx_addr_p0_width3: RxAddrP0<3> = RxAddrP0::<3>::new();
    assert_eq!(rx_addr_p0_width3.rx_addr_p0(), 0xE7E7E7E7E7);

    // Check write reg bytes
    let rx_addr_p0_width3_copy: RxAddrP0<3> = rx_addr_p0_width3.with_rx_addr_p0(0x8106310AC0);
    assert_eq!(
        rx_addr_p0_width3_copy.as_write_bytes(),
        [0b0010_0000 | 0x0A, 0xC0, 0x0A, 0x31]
    );

    // Check field
    assert_eq!(rx_addr_p0_width3_copy.rx_addr_p0(), 0x8106310AC0);
    // Check as_read_bytes
    assert_eq!(RxAddrP0::<4>::as_read_bytes(), [0x0A, 0, 0, 0, 0]);

    // Check 5 byte width
    let rx_addr_p0_width5: RxAddrP0<5> = RxAddrP0::from_bits(0x605F4459BF);
    let write_reg_bytes = rx_addr_p0_width5.as_write_bytes();
    assert_eq!(
        write_reg_bytes,
        [0b0010_0000 | 0x0A, 0xBF, 0x59, 0x44, 0x5F, 0x60]
    );
}

#[test]
fn test_reg_rx_addr_p1() {
    // Check default
    let rx_addr_p1_width3: RxAddrP1<3> = RxAddrP1::<3>::new();
    assert_eq!(rx_addr_p1_width3.rx_addr_p1(), 0xC2C2C2C2C2);

    // Check write reg bytes
    let rx_addr_p1_width3_copy: RxAddrP1<3> = rx_addr_p1_width3.with_rx_addr_p1(0x0144DF0AEC);
    assert_eq!(
        rx_addr_p1_width3_copy.as_write_bytes(),
        [0b0010_0000 | 0x0B, 0xEC, 0x0A, 0xDF]
    );

    // Check field
    assert_eq!(rx_addr_p1_width3_copy.rx_addr_p1(), 0x0144DF0AEC);
    // Check as_read_bytes
    assert_eq!(RxAddrP1::<4>::as_read_bytes(), [0x0B, 0, 0, 0, 0]);

    // Check 5 byte width
    let rx_addr_p1_width5: RxAddrP1<5> = RxAddrP1::from_bits(0xFF32C8ED07);
    let write_reg_bytes = rx_addr_p1_width5.as_write_bytes();
    assert_eq!(
        write_reg_bytes,
        [0b0010_0000 | 0x0B, 0x07, 0xED, 0xC8, 0x32, 0xFF]
    );
}

#[test]
fn test_reg_tx_addr() {
    // Check default
    let tx_addr_width4: TxAddr<4> = TxAddr::new();
    assert_eq!(tx_addr_width4.tx_addr(), 0xE7E7E7E7E7);

    // Check write reg bytes
    let tx_addr_width4_copy: TxAddr<4> = tx_addr_width4.with_tx_addr(0x17E73A6C58);
    assert_eq!(
        tx_addr_width4_copy.as_write_bytes(),
        [0b0010_0000 | 0x10, 0x58, 0x6C, 0x3A, 0xE7]
    );

    // Check field
    assert_eq!(tx_addr_width4_copy.tx_addr(), 0x17E73A6C58);
    // Check as_read_bytes
    assert_eq!(TxAddr::<4>::as_read_bytes(), [0x10, 0, 0, 0, 0]);

    // Check 5 byte width
    let tx_addr_width5: TxAddr<5> = TxAddr::from_bits(0x170F431EDC);
    let write_reg_bytes = tx_addr_width5.as_write_bytes();
    assert_eq!(
        write_reg_bytes,
        [0b0010_0000 | 0x10, 0xDC, 0x1E, 0x43, 0x0F, 0x17]
    );
}

#[test]
fn test_reg_rx_pw_p0() {
    // Check default
    let reg = RxPwP0::new();
    assert_eq!(reg.into_bits(), 0);
    // Check fields
    let reg = reg.with_rx_pw_p0(32);
    assert_eq!(reg.into_bits(), 32);
    // Check read command
    let read_reg_bytes = RxPwP0::as_read_bytes();
    assert_eq!(read_reg_bytes, [0x11, 0]);
    // Check write command
    let write_reg_bytes = reg.as_write_bytes();
    assert_eq!(write_reg_bytes, [0b0010_0000 | 0x11, 32]);
}

#[test]
fn test_reg_fifo_status() {
    // Check default
    let reg = FifoStatus::new();
    assert_eq!(reg.into_bits(), 0);
    // Check fields
    let reg = FifoStatus::from_bits(0b0100_0001);
    assert!(reg.rx_empty());
    assert!(!reg.rx_full());
    assert!(!reg.tx_empty());
    assert!(!reg.tx_full());
    assert!(reg.tx_reuse());
    // Check read command
    let read_reg_bytes = FifoStatus::as_read_bytes();
    assert_eq!(read_reg_bytes, [0x17, 0]);
}

#[test]
fn test_reg_feature() {
    // Check default
    let reg = Feature::new();
    assert_eq!(reg.into_bits(), 0);
    // Check fields
    let reg = reg
        .with_en_dyn_ack(true)
        .with_en_ack_pay(true)
        .with_en_dpl(false);
    assert_eq!(reg.into_bits(), 0b0000_0011);
    // Check read command
    let read_reg_bytes = Feature::as_read_bytes();
    assert_eq!(read_reg_bytes, [0x1D, 0]);
    // Check write command
    let write_reg_bytes = reg.as_write_bytes();
    assert_eq!(write_reg_bytes, [0b0010_0000 | 0x1D, 0b0000_0011]);
}
