//! Enums for certain nRF24L01+ register fields.
//!
//! Each enum has a variant for every value its field can hold, in the order
//! of those values, so `from_bits` accepts any byte: it keeps the field's
//! bits and drops the rest.
use vstd::prelude::*;

verus! {
/// CRC encoding scheme.
#[derive(Copy, Clone, Debug, PartialEq, Eq, Structural)]
pub enum Crco {
    /// 1 byte CRC
    OneByte,
    /// 2 byte CRC
    TwoByte,
}

impl Crco {
    /// The value of the register field that stands for this variant.
    pub open spec fn bits(self) -> u8 {
        match self {
            Crco::OneByte => 0,
            Crco::TwoByte => 1,
        }
    }

    /// The number of CRC bytes.
    pub open spec fn crc_bytes(self) -> nat {
        match self {
            Crco::OneByte => 1,
            Crco::TwoByte => 2,
        }
    }

    /// The field value of this variant.
    pub fn into_bits(self) -> (r: u8)
        ensures
            r == self.bits(),
            self.crc_bytes() == r + 1,
    {
        proof {
            self.lemma_meaning();
        }
        match self {
            Crco::OneByte => 0,
            Crco::TwoByte => 1,
        }
    }

    /// The variant for the low 1 bit of `bits`; the other bits are ignored.
    pub fn from_bits(bits: u8) -> (r: Self)
        ensures
            r.bits() == bits % 2,
            r.crc_bytes() == (bits % 2) + 1,
    {
        let v = bits & 0x1;
        assert(v == bits % 2) by (bit_vector)
            requires
                v == bits & 0x1,
        ;
        if v == 0 {
            Crco::OneByte
        } else {
            Crco::TwoByte
        }
    }

    /// Every variant has its own field value, and it fits in 1 bit.
    pub proof fn lemma_bits(self, other: Self)
        ensures
            self.bits() < 2,
            self.bits() == other.bits() ==> self == other,
    {
    }

    /// What a field value means: the number of CRC bytes.
    pub proof fn lemma_meaning(self)
        ensures
            self.crc_bytes() == self.bits() + 1,
    {
    }

    /// The field value of each variant, as the register documentation gives it.
    pub proof fn lemma_values()
        ensures
            Crco::OneByte.bits() == 0,
            Crco::TwoByte.bits() == 1,
    {
    }
}

/// RX/TX address field width in bytes.
/// LSByte is used if address width is below 5 bytes.
#[derive(Copy, Clone, Debug, PartialEq, Eq, Structural)]
pub enum AddressWidth {
    Illegal,
    ThreeByte,
    FourByte,
    FiveByte,
}

impl AddressWidth {
    /// The value of the register field that stands for this variant.
    pub open spec fn bits(self) -> u8 {
        match self {
            AddressWidth::Illegal => 0,
            AddressWidth::ThreeByte => 1,
            AddressWidth::FourByte => 2,
            AddressWidth::FiveByte => 3,
        }
    }

    /// The address width in bytes; `None` for the illegal setting.
    pub open spec fn address_bytes(self) -> Option<nat> {
        match self {
            AddressWidth::Illegal => None,
            AddressWidth::ThreeByte => Some(3),
            AddressWidth::FourByte => Some(4),
            AddressWidth::FiveByte => Some(5),
        }
    }

    /// The field value of this variant.
    pub fn into_bits(self) -> (r: u8)
        ensures
            r == self.bits(),
            self.address_bytes() == (if r == 0 { None } else { Some((r + 2) as nat) }),
    {
        proof {
            self.lemma_meaning();
        }
        match self {
            AddressWidth::Illegal => 0,
            AddressWidth::ThreeByte => 1,
            AddressWidth::FourByte => 2,
            AddressWidth::FiveByte => 3,
        }
    }

    /// The variant for the low 2 bits of `bits`; the other bits are ignored.
    pub fn from_bits(bits: u8) -> (r: Self)
        ensures
            r.bits() == bits % 4,
            r.address_bytes() == (if (bits % 4) == 0 { None } else { Some(((bits % 4) + 2) as nat) }),
    {
        let v = bits & 0x3;
        assert(v == bits % 4) by (bit_vector)
            requires
                v == bits & 0x3,
        ;
        match v {
            0 => AddressWidth::Illegal,
            1 => AddressWidth::ThreeByte,
            2 => AddressWidth::FourByte,
            _ => AddressWidth::FiveByte,
        }
    }

    /// Every variant has its own field value, and it fits in 2 bits.
    pub proof fn lemma_bits(self, other: Self)
        ensures
            self.bits() < 4,
            self.bits() == other.bits() ==> self == other,
    {
    }

    /// What a field value means: the address width in bytes; `None` for the illegal setting.
    pub proof fn lemma_meaning(self)
        ensures
            self.address_bytes() == (if self.bits() == 0 { None } else { Some((self.bits() + 2) as nat) }),
    {
    }

    /// The field value of each variant, as the register documentation gives it.
    pub proof fn lemma_values()
        ensures
            AddressWidth::Illegal.bits() == 0,
            AddressWidth::ThreeByte.bits() == 1,
            AddressWidth::FourByte.bits() == 2,
            AddressWidth::FiveByte.bits() == 3,
    {
    }
}

/// Auto retransmit delay.
///
/// `0000`: Wait 250µS
///
/// `0001`: Wait 500µS
///
/// `0010`: Wait 750µS
///
/// ……
///
/// `1111`: Wait 4000µS
#[derive(Copy, Clone, Debug, PartialEq, Eq, Structural)]
pub enum AutoRetransmitDelay {
    US250,
    US500,
    US750,
    US1000,
    US1250,
    US1500,
    US1750,
    US2000,
    US2250,
    US2500,
    US2750,
    US3000,
    US3250,
    US3500,
    US3750,
    US4000,
}

impl AutoRetransmitDelay {
    /// The value of the register field that stands for this variant.
    pub open spec fn bits(self) -> u8 {
        match self {
            AutoRetransmitDelay::US250 => 0,
            AutoRetransmitDelay::US500 => 1,
            AutoRetransmitDelay::US750 => 2,
            AutoRetransmitDelay::US1000 => 3,
            AutoRetransmitDelay::US1250 => 4,
            AutoRetransmitDelay::US1500 => 5,
            AutoRetransmitDelay::US1750 => 6,
            AutoRetransmitDelay::US2000 => 7,
            AutoRetransmitDelay::US2250 => 8,
            AutoRetransmitDelay::US2500 => 9,
            AutoRetransmitDelay::US2750 => 10,
            AutoRetransmitDelay::US3000 => 11,
            AutoRetransmitDelay::US3250 => 12,
            AutoRetransmitDelay::US3500 => 13,
            AutoRetransmitDelay::US3750 => 14,
            AutoRetransmitDelay::US4000 => 15,
        }
    }

    /// The delay in microseconds.
    pub open spec fn delay_us(self) -> nat {
        match self {
            AutoRetransmitDelay::US250 => 250,
            AutoRetransmitDelay::US500 => 500,
            AutoRetransmitDelay::US750 => 750,
            AutoRetransmitDelay::US1000 => 1000,
            AutoRetransmitDelay::US1250 => 1250,
            AutoRetransmitDelay::US1500 => 1500,
            AutoRetransmitDelay::US1750 => 1750,
            AutoRetransmitDelay::US2000 => 2000,
            AutoRetransmitDelay::US2250 => 2250,
            AutoRetransmitDelay::US2500 => 2500,
            AutoRetransmitDelay::US2750 => 2750,
            AutoRetransmitDelay::US3000 => 3000,
            AutoRetransmitDelay::US3250 => 3250,
            AutoRetransmitDelay::US3500 => 3500,
            AutoRetransmitDelay::US3750 => 3750,
            AutoRetransmitDelay::US4000 => 4000,
        }
    }

    /// The field value of this variant.
    pub fn into_bits(self) -> (r: u8)
        ensures
            r == self.bits(),
            self.delay_us() == 250 * (r + 1),
    {
        proof {
            self.lemma_meaning();
        }
        match self {
            AutoRetransmitDelay::US250 => 0,
            AutoRetransmitDelay::US500 => 1,
            AutoRetransmitDelay::US750 => 2,
            AutoRetransmitDelay::US1000 => 3,
            AutoRetransmitDelay::US1250 => 4,
            AutoRetransmitDelay::US1500 => 5,
            AutoRetransmitDelay::US1750 => 6,
            AutoRetransmitDelay::US2000 => 7,
            AutoRetransmitDelay::US2250 => 8,
            AutoRetransmitDelay::US2500 => 9,
            AutoRetransmitDelay::US2750 => 10,
            AutoRetransmitDelay::US3000 => 11,
            AutoRetransmitDelay::US3250 => 12,
            AutoRetransmitDelay::US3500 => 13,
            AutoRetransmitDelay::US3750 => 14,
            AutoRetransmitDelay::US4000 => 15,
        }
    }

    /// The variant for the low 4 bits of `bits`; the other bits are ignored.
    pub fn from_bits(bits: u8) -> (r: Self)
        ensures
            r.bits() == bits % 16,
            r.delay_us() == 250 * ((bits % 16) + 1),
    {
        let v = bits & 0xf;
        assert(v == bits % 16) by (bit_vector)
            requires
                v == bits & 0xf,
        ;
        match v {
            0 => AutoRetransmitDelay::US250,
            1 => AutoRetransmitDelay::US500,
            2 => AutoRetransmitDelay::US750,
            3 => AutoRetransmitDelay::US1000,
            4 => AutoRetransmitDelay::US1250,
            5 => AutoRetransmitDelay::US1500,
            6 => AutoRetransmitDelay::US1750,
            7 => AutoRetransmitDelay::US2000,
            8 => AutoRetransmitDelay::US2250,
            9 => AutoRetransmitDelay::US2500,
            10 => AutoRetransmitDelay::US2750,
            11 => AutoRetransmitDelay::US3000,
            12 => AutoRetransmitDelay::US3250,
            13 => AutoRetransmitDelay::US3500,
            14 => AutoRetransmitDelay::US3750,
            _ => AutoRetransmitDelay::US4000,
        }
    }

    /// Every variant has its own field value, and it fits in 4 bits.
    pub proof fn lemma_bits(self, other: Self)
        ensures
            self.bits() < 16,
            self.bits() == other.bits() ==> self == other,
    {
    }

    /// What a field value means: the delay in microseconds.
    pub proof fn lemma_meaning(self)
        ensures
            self.delay_us() == 250 * (self.bits() + 1),
    {
    }

    /// The field value of each variant, as the register documentation gives it.
    pub proof fn lemma_values()
        ensures
            AutoRetransmitDelay::US250.bits() == 0,
            AutoRetransmitDelay::US500.bits() == 1,
            AutoRetransmitDelay::US750.bits() == 2,
            AutoRetransmitDelay::US1000.bits() == 3,
            AutoRetransmitDelay::US1250.bits() == 4,
            AutoRetransmitDelay::US1500.bits() == 5,
            AutoRetransmitDelay::US1750.bits() == 6,
            AutoRetransmitDelay::US2000.bits() == 7,
            AutoRetransmitDelay::US2250.bits() == 8,
            AutoRetransmitDelay::US2500.bits() == 9,
            AutoRetransmitDelay::US2750.bits() == 10,
            AutoRetransmitDelay::US3000.bits() == 11,
            AutoRetransmitDelay::US3250.bits() == 12,
            AutoRetransmitDelay::US3500.bits() == 13,
            AutoRetransmitDelay::US3750.bits() == 14,
            AutoRetransmitDelay::US4000.bits() == 15,
    {
    }
}

/// High speed data rate.
#[derive(Copy, Clone, Debug, PartialEq, Eq, Structural)]
pub enum RfDrHigh {
    Mbps1,
    Mbps2,
}

impl RfDrHigh {
    /// The value of the register field that stands for this variant.
    pub open spec fn bits(self) -> u8 {
        match self {
            RfDrHigh::Mbps1 => 0,
            RfDrHigh::Mbps2 => 1,
        }
    }

    /// The data rate in Mbps.
    pub open spec fn mbps(self) -> nat {
        match self {
            RfDrHigh::Mbps1 => 1,
            RfDrHigh::Mbps2 => 2,
        }
    }

    /// The field value of this variant.
    pub fn into_bits(self) -> (r: u8)
        ensures
            r == self.bits(),
            self.mbps() == r + 1,
    {
        proof {
            self.lemma_meaning();
        }
        match self {
            RfDrHigh::Mbps1 => 0,
            RfDrHigh::Mbps2 => 1,
        }
    }

    /// The variant for the low 1 bit of `bits`; the other bits are ignored.
    pub fn from_bits(bits: u8) -> (r: Self)
        ensures
            r.bits() == bits % 2,
            r.mbps() == (bits % 2) + 1,
    {
        let v = bits & 0x1;
        assert(v == bits % 2) by (bit_vector)
            requires
                v == bits & 0x1,
        ;
        if v == 0 {
            RfDrHigh::Mbps1
        } else {
            RfDrHigh::Mbps2
        }
    }

    /// Every variant has its own field value, and it fits in 1 bit.
    pub proof fn lemma_bits(self, other: Self)
        ensures
            self.bits() < 2,
            self.bits() == other.bits() ==> self == other,
    {
    }

    /// What a field value means: the data rate in Mbps.
    pub proof fn lemma_meaning(self)
        ensures
            self.mbps() == self.bits() + 1,
    {
    }

    /// The field value of each variant, as the register documentation gives it.
    pub proof fn lemma_values()
        ensures
            RfDrHigh::Mbps1.bits() == 0,
            RfDrHigh::Mbps2.bits() == 1,
    {
    }
}

/// Set RF output power in TX mode.
#[derive(Copy, Clone, Debug, PartialEq, Eq, Structural)]
pub enum RfPower {
    /// -18 dBm
    Neg18Dbm,
    /// -12 dBm
    Neg12Dbm,
    /// -6 dBm
    Neg6Dbm,
    /// 0 dBm
    Dbm0,
}

impl RfPower {
    /// The value of the register field that stands for this variant.
    pub open spec fn bits(self) -> u8 {
        match self {
            RfPower::Neg18Dbm => 0,
            RfPower::Neg12Dbm => 1,
            RfPower::Neg6Dbm => 2,
            RfPower::Dbm0 => 3,
        }
    }

    /// The output power in dBm.
    pub open spec fn dbm(self) -> int {
        match self {
            RfPower::Neg18Dbm => -18,
            RfPower::Neg12Dbm => -12,
            RfPower::Neg6Dbm => -6,
            RfPower::Dbm0 => 0,
        }
    }

    /// The field value of this variant.
    pub fn into_bits(self) -> (r: u8)
        ensures
            r == self.bits(),
            self.dbm() == 6 * r - 18,
    {
        proof {
            self.lemma_meaning();
        }
        match self {
            RfPower::Neg18Dbm => 0,
            RfPower::Neg12Dbm => 1,
            RfPower::Neg6Dbm => 2,
            RfPower::Dbm0 => 3,
        }
    }

    /// The variant for the low 2 bits of `bits`; the other bits are ignored.
    pub fn from_bits(bits: u8) -> (r: Self)
        ensures
            r.bits() == bits % 4,
            r.dbm() == 6 * (bits % 4) - 18,
    {
        let v = bits & 0x3;
        assert(v == bits % 4) by (bit_vector)
            requires
                v == bits & 0x3,
        ;
        match v {
            0 => RfPower::Neg18Dbm,
            1 => RfPower::Neg12Dbm,
            2 => RfPower::Neg6Dbm,
            _ => RfPower::Dbm0,
        }
    }

    /// Every variant has its own field value, and it fits in 2 bits.
    pub proof fn lemma_bits(self, other: Self)
        ensures
            self.bits() < 4,
            self.bits() == other.bits() ==> self == other,
    {
    }

    /// What a field value means: the output power in dBm.
    pub proof fn lemma_meaning(self)
        ensures
            self.dbm() == 6 * self.bits() - 18,
    {
    }

    /// The field value of each variant, as the register documentation gives it.
    pub proof fn lemma_values()
        ensures
            RfPower::Neg18Dbm.bits() == 0,
            RfPower::Neg12Dbm.bits() == 1,
            RfPower::Neg6Dbm.bits() == 2,
            RfPower::Dbm0.bits() == 3,
    {
    }
}

/// Data pipe number for the payload available from reading RX FIFO.
#[derive(Copy, Clone, Debug, PartialEq, Eq, Structural)]
pub enum RxPipeNo {
    Pipe0,
    Pipe1,
    Pipe2,
    Pipe3,
    Pipe4,
    Pipe5,
    NotUsed,
    RxFifoEmpty,
}

impl RxPipeNo {
    /// The value of the register field that stands for this variant.
    pub open spec fn bits(self) -> u8 {
        match self {
            RxPipeNo::Pipe0 => 0,
            RxPipeNo::Pipe1 => 1,
            RxPipeNo::Pipe2 => 2,
            RxPipeNo::Pipe3 => 3,
            RxPipeNo::Pipe4 => 4,
            RxPipeNo::Pipe5 => 5,
            RxPipeNo::NotUsed => 6,
            RxPipeNo::RxFifoEmpty => 7,
        }
    }

    /// The data pipe number; `None` when no pipe is named.
    pub open spec fn data_pipe(self) -> Option<nat> {
        match self {
            RxPipeNo::Pipe0 => Some(0),
            RxPipeNo::Pipe1 => Some(1),
            RxPipeNo::Pipe2 => Some(2),
            RxPipeNo::Pipe3 => Some(3),
            RxPipeNo::Pipe4 => Some(4),
            RxPipeNo::Pipe5 => Some(5),
            RxPipeNo::NotUsed => None,
            RxPipeNo::RxFifoEmpty => None,
        }
    }

    /// The field value of this variant.
    pub fn into_bits(self) -> (r: u8)
        ensures
            r == self.bits(),
            self.data_pipe() == (if r < 6 { Some(r as nat) } else { None }),
            (r == 7) == (self == RxPipeNo::RxFifoEmpty),
    {
        proof {
            self.lemma_meaning();
        }
        match self {
            RxPipeNo::Pipe0 => 0,
            RxPipeNo::Pipe1 => 1,
            RxPipeNo::Pipe2 => 2,
            RxPipeNo::Pipe3 => 3,
            RxPipeNo::Pipe4 => 4,
            RxPipeNo::Pipe5 => 5,
            RxPipeNo::NotUsed => 6,
            RxPipeNo::RxFifoEmpty => 7,
        }
    }

    /// The variant for the low 3 bits of `bits`; the other bits are ignored.
    pub fn from_bits(bits: u8) -> (r: Self)
        ensures
            r.bits() == bits % 8,
            r.data_pipe() == (if (bits % 8) < 6 { Some((bits % 8) as nat) } else { None }),
            ((bits % 8) == 7) == (r == RxPipeNo::RxFifoEmpty),
    {
        let v = bits & 0x7;
        assert(v == bits % 8) by (bit_vector)
            requires
                v == bits & 0x7,
        ;
        match v {
            0 => RxPipeNo::Pipe0,
            1 => RxPipeNo::Pipe1,
            2 => RxPipeNo::Pipe2,
            3 => RxPipeNo::Pipe3,
            4 => RxPipeNo::Pipe4,
            5 => RxPipeNo::Pipe5,
            6 => RxPipeNo::NotUsed,
            _ => RxPipeNo::RxFifoEmpty,
        }
    }

    /// Every variant has its own field value, and it fits in 3 bits.
    pub proof fn lemma_bits(self, other: Self)
        ensures
            self.bits() < 8,
            self.bits() == other.bits() ==> self == other,
    {
    }

    /// What a field value means: the data pipe number; `None` when no pipe is named.
    pub proof fn lemma_meaning(self)
        ensures
            self.data_pipe() == (if self.bits() < 6 { Some(self.bits() as nat) } else { None }),
            (self.bits() == 7) == (self == RxPipeNo::RxFifoEmpty),
    {
    }

    /// The field value of each variant, as the register documentation gives it.
    pub proof fn lemma_values()
        ensures
            RxPipeNo::Pipe0.bits() == 0,
            RxPipeNo::Pipe1.bits() == 1,
            RxPipeNo::Pipe2.bits() == 2,
            RxPipeNo::Pipe3.bits() == 3,
            RxPipeNo::Pipe4.bits() == 4,
            RxPipeNo::Pipe5.bits() == 5,
            RxPipeNo::NotUsed.bits() == 6,
            RxPipeNo::RxFifoEmpty.bits() == 7,
    {
    }
}

} // verus!
