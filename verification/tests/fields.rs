use nrf24l01_commands::fields::{
    AddressWidth, AutoRetransmitDelay, Crco, RfDrHigh, RfPower, RxPipeNo,
};

#[test]
fn crco_round_trips() {
    assert_eq!(Crco::from_bits(0), Crco::OneByte);
    assert_eq!(Crco::from_bits(1), Crco::TwoByte);
    assert_eq!(Crco::from_bits(0b1111_1110), Crco::OneByte);
    assert_eq!(Crco::TwoByte.into_bits(), 1);
    assert_eq!(Crco::from_bits(Crco::TwoByte.into_bits()), Crco::TwoByte);
}

#[test]
fn address_width_keeps_low_two_bits() {
    assert_eq!(AddressWidth::from_bits(0b11), AddressWidth::FiveByte);
    assert_eq!(AddressWidth::from_bits(0b1111_1110), AddressWidth::FourByte);
    assert_eq!(AddressWidth::from_bits(0b0000_0100), AddressWidth::Illegal);
    assert_eq!(AddressWidth::ThreeByte.into_bits(), 1);
}

#[test]
fn retransmit_delay_covers_sixteen_values() {
    let all = [
        AutoRetransmitDelay::US250,
        AutoRetransmitDelay::US500,
        AutoRetransmitDelay::US750,
        AutoRetransmitDelay::US1000,
        AutoRetransmitDelay::US1250,
        AutoRetransmitDelay::US1500,
        AutoRetransmitDelay::US1750,
        AutoRetransmitDelay::US2000,
        AutoRetransmitDelay::US2250,
        AutoRetransmitDelay::US2500,
        AutoRetransmitDelay::US2750,
        AutoRetransmitDelay::US3000,
        AutoRetransmitDelay::US3250,
        AutoRetransmitDelay::US3500,
        AutoRetransmitDelay::US3750,
        AutoRetransmitDelay::US4000,
    ];
    for (i, delay) in all.iter().enumerate() {
        assert_eq!(delay.into_bits() as usize, i);
        assert_eq!(AutoRetransmitDelay::from_bits(i as u8), *delay);
        assert_eq!(AutoRetransmitDelay::from_bits(i as u8 | 0xF0), *delay);
    }
}

#[test]
fn rf_enums_round_trip() {
    assert_eq!(RfDrHigh::from_bits(1), RfDrHigh::Mbps2);
    assert_eq!(RfDrHigh::Mbps1.into_bits(), 0);
    assert_eq!(RfPower::from_bits(0b10), RfPower::Neg6Dbm);
    assert_eq!(RfPower::from_bits(0b111), RfPower::Dbm0);
    assert_eq!(RfPower::Neg18Dbm.into_bits(), 0);
}

#[test]
fn rx_pipe_no_covers_eight_values() {
    assert_eq!(RxPipeNo::from_bits(5), RxPipeNo::Pipe5);
    assert_eq!(RxPipeNo::from_bits(6), RxPipeNo::NotUsed);
    assert_eq!(RxPipeNo::from_bits(7), RxPipeNo::RxFifoEmpty);
    assert_eq!(RxPipeNo::from_bits(0b1111_1000), RxPipeNo::Pipe0);
    assert_eq!(RxPipeNo::RxFifoEmpty.into_bits(), 0b111);
}
