use nrf24l01_commands::fields::{Crco, RxPipeNo};
use nrf24l01_commands::registers::{
    address_into_bytes, Config, RfCh, RxAddrP0, RxPwP0, SetupRetr, Status, TxAddr,
};

#[test]
fn field_reads_back_what_was_written() {
    let reg = Config::from_bits(0b1010_1010).with_crco(Crco::OneByte);
    assert_eq!(reg.crco(), Crco::OneByte);
    let reg = RfCh::from_bits(0xFF).with_rf_ch(17);
    assert_eq!(reg.rf_ch(), 17);
    let reg = TxAddr::<5>::from_bits(u64::MAX).with_tx_addr(0x12_3456_789A);
    assert_eq!(reg.tx_addr(), 0x12_3456_789A);
}

#[test]
fn writing_a_field_keeps_the_other_bits() {
    // The padding bit and every other field of RF_CH survive a write of rf_ch.
    let reg = RfCh::from_bits(0b1000_0000).with_rf_ch(5);
    assert_eq!(reg.into_bits(), 0b1000_0101);
    // Read-only fields of STATUS survive a write of max_rt.
    let mut reg = Status::from_bits(0b0000_1111);
    reg.set_max_rt(true);
    assert_eq!(reg.rx_p_no(), RxPipeNo::RxFifoEmpty);
    assert!(reg.tx_full());
    assert_eq!(reg.into_bits(), 0b0001_1111);
    // The high bits of an address register survive a write of the address.
    let reg = RxAddrP0::<5>::from_bits(0xFFFF_FF00_0000_0000).with_rx_addr_p0(0x01_0203_0405);
    assert_eq!(reg.rx_addr_p0(), 0x01_0203_0405);
}

#[test]
fn writing_a_field_twice_keeps_the_second_value() {
    let once = SetupRetr::new().with_arc(9);
    let twice = SetupRetr::new().with_arc(2).with_arc(9);
    assert_eq!(once.into_bits(), twice.into_bits());
}

#[test]
fn writing_back_a_field_changes_nothing() {
    let reg = Config::from_bits(0b1101_0110);
    assert_eq!(reg.with_crco(reg.crco()).into_bits(), 0b1101_0110);
    let reg = SetupRetr::from_bits(0b1001_0110);
    assert_eq!(reg.with_arc(reg.arc()).into_bits(), 0b1001_0110);
}

#[test]
fn checked_writes_refuse_values_that_do_not_fit() {
    assert!(RfCh::new().with_rf_ch_checked(128).is_err());
    assert_eq!(RfCh::new().with_rf_ch_checked(127).unwrap().into_bits(), 127);
    let mut reg = RxPwP0::from_bits(0b1100_0001);
    assert!(reg.set_rx_pw_p0_checked(64).is_err());
    assert_eq!(reg.into_bits(), 0b1100_0001);
    assert!(reg.set_rx_pw_p0_checked(63).is_ok());
    assert_eq!(reg.into_bits(), 0b1111_1111);
    assert!(Config::new().with_crco_checked(Crco::TwoByte).is_ok());
}

#[test]
fn conversions_and_default() {
    let reg: Config = Config::from(0x5A);
    assert_eq!(u8::from(reg), 0x5A);
    assert_eq!(Config::default().into_bits(), Config::new().into_bits());
    assert_eq!(RxAddrP0::<5>::default().rx_addr_p0(), 0xE7E7E7E7E7);
}

#[test]
fn address_bytes_are_little_endian() {
    let addr: u64 = 0x0807_0605_0403_0201;
    assert_eq!(address_into_bytes::<8>(addr), [1, 2, 3, 4, 5, 6, 7, 8]);
    assert_eq!(address_into_bytes::<3>(addr), [1, 2, 3]);
    assert_eq!(address_into_bytes::<0>(addr), []);
    let bytes = address_into_bytes::<5>(0xC2840DF659);
    let value = bytes
        .iter()
        .rev()
        .fold(0u64, |acc, b| (acc << 8) | (*b as u64));
    assert_eq!(value, 0xC2840DF659);
}
