//! SPI byte sequences for the commands of the nRF24L01+ 2.4 GHz transceiver,
//! and bitfields for its registers.
//!
//! The commands are the structs of this module: each holds its command word,
//! and those that take no data build their whole SPI byte sequence.
//! [`registers`] holds one type per register, [`fields`] the enums of some of
//! their fields, and [`bitfield`] the arithmetic model of a field that every
//! register's contract is stated in.
pub mod bitfield;
pub mod fields;
pub mod registers;

use vstd::prelude::*;

verus! {

/// Write command and status registers.
pub struct WRegister;

impl WRegister {
    pub const WORD: u8 = 0b0010_0000;
}

/// Read RX payload.
///
/// #### Const Parameter `N`
/// `N - 1` is the number of payload bytes to read. `N` must be 2 to 33.
pub struct RRxPayload;

impl RRxPayload {
    pub const WORD: u8 = 0b0110_0001;

    /// The command word followed by `N - 1` zero bytes, which clock the
    /// payload out of the chip.
    pub fn as_bytes<const N: usize>() -> (r: [u8; N])
        requires
            2 <= N <= 33,
        ensures
            r@.len() == N,
            r@[0] == Self::WORD,
            forall|i: int| 1 <= i < N ==> r@[i] == 0,
    {
        let mut bytes = [0u8; N];
        bytes[0] = Self::WORD;
        bytes
    }
}

/// Write TX payload.
pub struct WTxPayload;

impl WTxPayload {
    pub const WORD: u8 = 0b1010_0000;
}

/// Flush TX FIFO. Used in TX mode.
pub struct FlushTx;

impl FlushTx {
    pub const WORD: u8 = 0b1110_0001;

    pub fn as_bytes() -> (r: [u8; 1])
        ensures
            r@ == seq![Self::WORD],
    {
        [Self::WORD]
    }
}

/// Flush RX FIFO. Used in RX mode.
pub struct FlushRx;

impl FlushRx {
    pub const WORD: u8 = 0b1110_0010;

    pub fn as_bytes() -> (r: [u8; 1])
        ensures
            r@ == seq![Self::WORD],
    {
        [Self::WORD]
    }
}

/// Reuse last transmitted payload. Packets are repeatedly transmitted as long
/// as CE is high. TX payload reuse is active until [`WTxPayload`] or [`FlushTx`]
/// is executed.
pub struct ReuseTxPl;

impl ReuseTxPl {
    pub const WORD: u8 = 0b1110_0011;

    pub fn as_bytes() -> (r: [u8; 1])
        ensures
            r@ == seq![Self::WORD],
    {
        [Self::WORD]
    }
}

/// Read RX payload width for the top payload in RX FIFO.
pub struct RRxPlWid;

impl RRxPlWid {
    pub const WORD: u8 = 0b0110_0000;

    /// The command word and one zero byte, which clocks the width out.
    pub fn as_bytes() -> (r: [u8; 2])
        ensures
            r@ == seq![Self::WORD, 0u8],
    {
        [Self::WORD, 0]
    }
}

/// Write payload to be transmitted with ACK packet on a data pipe. Used in RX mode.
/// Maximum three ACK packet payloads can be pending. Payloads with the same pipe
/// are handled first-in-first-out.
pub struct WAckPayload;

impl WAckPayload {
    pub const WORD: u8 = 0b1010_1000;

    /// The command word for `pipe`: the pipe number goes into the low three bits.
    pub fn word(pipe: u8) -> (r: u8)
        ensures
            r == Self::WORD | pipe,
            pipe < 8 ==> r == Self::WORD + pipe,
    {
        assert(pipe < 8 ==> 0b1010_1000u8 | pipe == 0b1010_1000u8 + pipe) by (bit_vector);
        Self::WORD | pipe
    }
}

/// Write TX payload with AUTOACK disabled.
pub struct WTxPayloadNoAck;

impl WTxPayloadNoAck {
    pub const WORD: u8 = 0b1011_0000;
}

/// No operation. Used to read the status register.
pub struct Nop;

impl Nop {
    pub const WORD: u8 = 0b1111_1111;
}

} // verus!
