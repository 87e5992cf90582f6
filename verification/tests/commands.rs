use nrf24l01_commands::registers::{Config, FifoStatus, RfSetup, TxAddr};
use nrf24l01_commands::fields::{Crco, RfDrHigh, RfPower};
use nrf24l01_commands::{
    FlushRx, FlushTx, Nop, RRxPayload, RRxPlWid, ReuseTxPl, WAckPayload, WRegister, WTxPayload,
    WTxPayloadNoAck,
};

#[test]
fn write_config_register_bytes() {
    let config = Config::new()
        .with_mask_rx_dr(true)
        .with_mask_tx_ds(false)
        .with_mask_max_rt(false)
        .with_en_crc(false)
        .with_crco(Crco::TwoByte)
        .with_pwr_up(true)
        .with_prim_rx(false);
    assert_eq!(config.as_write_bytes(), [0b0010_0000, 0b0100_0110]);
}

#[test]
fn read_fifo_status_bytes() {
    assert_eq!(FifoStatus::as_read_bytes(), [0x17, 0]);
}

#[test]
fn write_tx_payload_buffer() {
    let payload: [u8; 9] = [1, 2, 3, 4, 5, 6, 7, 8, 9];
    let spi_bytes: [u8; 10] = [
        WTxPayload::WORD, payload[0], payload[1], payload[2], payload[3], payload[4], payload[5],
        payload[6], payload[7], payload[8],
    ];
    assert_eq!(spi_bytes, [0b1010_0000, 1, 2, 3, 4, 5, 6, 7, 8, 9]);
    assert_eq!(WTxPayloadNoAck::WORD, 0b1011_0000);
}

#[test]
fn read_rx_payload_bytes() {
    assert_eq!(RRxPayload::as_bytes::<6>(), [0b0110_0001, 0, 0, 0, 0, 0]);
    assert_eq!(RRxPayload::as_bytes::<4>(), [0b0110_0001, 0, 0, 0]);
    assert_eq!(RRxPayload::as_bytes::<2>(), [0b0110_0001, 0]);
    let longest = RRxPayload::as_bytes::<33>();
    assert_eq!(longest[0], RRxPayload::WORD);
    assert!(longest[1..].iter().all(|b| *b == 0));
}

#[test]
fn address_register_bytes() {
    let tx_addr: TxAddr<4> = TxAddr::from_bits(0x170F431EDC);
    assert_eq!(tx_addr.as_write_bytes(), [0b0010_0000 | 0x10, 0xDC, 0x1E, 0x43, 0x0F]);
    assert_eq!(TxAddr::<3>::as_read_bytes(), [0x10, 0, 0, 0]);
}

#[test]
fn inspect_rf_setup_fields() {
    let rf_setup = RfSetup::from_bits(0b0010_0010);
    assert!(!rf_setup.cont_wave());
    assert!(rf_setup.rf_dr_low());
    assert!(!rf_setup.pll_lock());
    assert_eq!(rf_setup.rf_dr_high(), RfDrHigh::Mbps1);
    assert_eq!(rf_setup.rf_pwr(), RfPower::Neg12Dbm);
}

#[test]
fn single_byte_commands() {
    assert_eq!(FlushTx::as_bytes(), [0b1110_0001]);
    assert_eq!(FlushRx::as_bytes(), [0b1110_0010]);
    assert_eq!(ReuseTxPl::as_bytes(), [0b1110_0011]);
    assert_eq!(RRxPlWid::as_bytes(), [0b0110_0000, 0]);
    assert_eq!(Nop::WORD, 0b1111_1111);
    assert_eq!(WRegister::WORD, 0b0010_0000);
}

#[test]
fn ack_payload_word_selects_pipe() {
    let buffer: [u8; 5] = [WAckPayload::word(4), 1, 2, 3, 4];
    assert_eq!(buffer, [0b1010_1100, 1, 2, 3, 4]);
    assert_eq!(WAckPayload::word(0), WAckPayload::WORD);
    assert_eq!(WAckPayload::word(5), 0b1010_1101);
    // Bits beyond the pipe field are or-ed in as they are.
    assert_eq!(WAckPayload::word(0b1000_0001), 0b1010_1001);
}
