//! Register bitfields for the nRF24L01+.
//!
//! Each register type holds the register's raw value, which is its view. Each
//! field is read and written through the model of [`crate::bitfield`]: a
//! getter returns `field(bits, offset, width)` and a writer leaves
//! `with_field(bits, offset, width, value)`, so the laws proved there hold of
//! every register here.
use vstd::prelude::*;
use vstd::arithmetic::power2::{pow2, lemma2_to64, lemma2_to64_rest};
use crate::WRegister;
use crate::bitfield::{
    field,
    with_field,
    bit_value,
    le_byte,
    le_value,
    lemma_le_value_of_le_bytes,
    lemma_field_below,
    read_u8,
    write_u8,
    read_u64,
    write_low_u64,
};
use crate::fields::{Crco, AddressWidth, AutoRetransmitDelay, RfDrHigh, RfPower, RxPipeNo};

verus! {

/// # CONFIG register
///
/// Address = `0x00`
///
/// ## Fields
///
/// #### `mask_rx_dr` | bit 6
/// Mask/unmask interrupt caused by __RX_DR__.
///
/// `0`: unmasked, interrupt reflected on IRQ
///
/// `1`: masked, interrupt not reflected on IRQ
///
/// #### `mask_tx_ds` | bit 5
/// Mask/unmask interrupt caused by __TX_DS__.
///
/// `0`: unmasked, interrupt reflected on IRQ
///
/// `1`: masked, interrupt not reflected on IRQ
///
/// #### `mask_max_rt` | bit 4
/// Mask/unmask interrupt caused by __MAX_RT__.
///
/// `0`: unmasked, interrupt reflected on IRQ
///
/// `1`: masked, interrupt not reflected on IRQ
///
/// #### `en_crc` | bit 3
/// Enable/disable CRC. Default value: `1` (enabled)
///
/// #### `crco` | bit 2
/// CRC encoding scheme. Enum: [`Crco`].
///
/// #### `pwr_up` | bit 1
/// Power down/up.
///
/// `0`: Power down
///
/// `1`: Power up
///
/// #### `prim_rx` | bit 0
/// Set primary TX/RX.
///
/// `0`: primary TX
///
/// `1`: primary RX
#[derive(Copy, Clone, Debug)]
pub struct Config(u8);

impl View for Config {
    type V = u8;

    /// The register byte.
    closed spec fn view(&self) -> u8 {
        self.0
    }
}

impl Config {
    pub const ADDRESS: u8 = 0x00;

    /// A register holding the default value of every field.
    pub fn new() -> (r: Self)
        ensures
            r@ == 0x08,
            field(r@ as nat, 3, 1) == 1,
    {
        proof {
            lemma2_to64();
        }
        Config(0x08)
    }

    /// The register holding exactly `bits`.
    pub fn from_bits(bits: u8) -> (r: Self)
        ensures
            r@ == bits,
    {
        Config(bits)
    }

    /// The register byte.
    pub fn into_bits(self) -> (r: u8)
        ensures
            r == self@,
    {
        self.0
    }

    /// The register's address.
    pub fn address(&self) -> (r: u8)
        ensures
            r == Self::ADDRESS,
    {
        Self::ADDRESS
    }

    /// The SPI byte sequence that writes this value to the register.
    pub fn as_write_bytes(&self) -> (r: [u8; 2])
        ensures
            r@ == seq![WRegister::WORD | Self::ADDRESS, self@],
            r@[0] == 0x20,
    {
        assert(0x20u8 | 0x00 == 0x20) by (bit_vector);
        [WRegister::WORD | Self::ADDRESS, self.0]
    }

    /// The SPI byte sequence that reads the register.
    pub fn as_read_bytes() -> (r: [u8; 2])
        ensures
            r@ == seq![Self::ADDRESS, 0u8],
    {
        [Self::ADDRESS, 0]
    }

    /// Mask/unmask interrupt caused by __RX_DR__.
    ///
    /// `0`: unmasked, interrupt reflected on IRQ
    ///
    /// `1`: masked, interrupt not reflected on IRQ
    ///
    /// Bits: 6..7
    pub fn mask_rx_dr(&self) -> (r: bool)
        ensures
            r == (field(self@ as nat, 6, 1) == 1),
    {
        proof {
            lemma2_to64();
        }
        read_u8(self.0, 6, 1) != 0
    }

    /// Mask/unmask interrupt caused by __RX_DR__.
    ///
    /// `0`: unmasked, interrupt reflected on IRQ
    ///
    /// `1`: masked, interrupt not reflected on IRQ
    ///
    /// Bits: 6..7
    pub fn with_mask_rx_dr(self, value: bool) -> (r: Self)
        ensures
            r@ as nat == with_field(self@ as nat, 6, 1, bit_value(value)),
    {
        let mut this = self;
        this.set_mask_rx_dr(value);
        this
    }

    /// Mask/unmask interrupt caused by __RX_DR__.
    ///
    /// `0`: unmasked, interrupt reflected on IRQ
    ///
    /// `1`: masked, interrupt not reflected on IRQ
    ///
    /// Bits: 6..7
    pub fn set_mask_rx_dr(&mut self, value: bool)
        ensures
            final(self)@ as nat == with_field(old(self)@ as nat, 6, 1, bit_value(value)),
    {
        proof {
            lemma2_to64();
        }
        self.0 = write_u8(self.0, 6, 1, if value { 1 } else { 0 });
    }

    /// Mask/unmask interrupt caused by __RX_DR__.
    ///
    /// `0`: unmasked, interrupt reflected on IRQ
    ///
    /// `1`: masked, interrupt not reflected on IRQ
    ///
    /// Bits: 6..7
    pub fn with_mask_rx_dr_checked(self, value: bool) -> (r: Result<Self, ()>)
        ensures
            (match r {
                Ok(this) => this@ as nat == with_field(self@ as nat, 6, 1, bit_value(value)),
                Err(_) => false,
            }),
    {
        Ok(self.with_mask_rx_dr(value))
    }

    /// Mask/unmask interrupt caused by __RX_DR__.
    ///
    /// `0`: unmasked, interrupt reflected on IRQ
    ///
    /// `1`: masked, interrupt not reflected on IRQ
    ///
    /// Bits: 6..7
    pub fn set_mask_rx_dr_checked(&mut self, value: bool) -> (r: Result<(), ()>)
        ensures
            r is Ok,
            final(self)@ as nat == with_field(old(self)@ as nat, 6, 1, bit_value(value)),
    {
        self.set_mask_rx_dr(value);
        Ok(())
    }

    /// Mask/unmask interrupt caused by __TX_DS__.
    ///
    /// `0`: unmasked, interrupt reflected on IRQ
    ///
    /// `1`: masked, interrupt not reflected on IRQ
    ///
    /// Bits: 5..6
    pub fn mask_tx_ds(&self) -> (r: bool)
        ensures
            r == (field(self@ as nat, 5, 1) == 1),
    {
        proof {
            lemma2_to64();
        }
        read_u8(self.0, 5, 1) != 0
    }

    /// Mask/unmask interrupt caused by __TX_DS__.
    ///
    /// `0`: unmasked, interrupt reflected on IRQ
    ///
    /// `1`: masked, interrupt not reflected on IRQ
    ///
    /// Bits: 5..6
    pub fn with_mask_tx_ds(self, value: bool) -> (r: Self)
        ensures
            r@ as nat == with_field(self@ as nat, 5, 1, bit_value(value)),
    {
        let mut this = self;
        this.set_mask_tx_ds(value);
        this
    }

    /// Mask/unmask interrupt caused by __TX_DS__.
    ///
    /// `0`: unmasked, interrupt reflected on IRQ
    ///
    /// `1`: masked, interrupt not reflected on IRQ
    ///
    /// Bits: 5..6
    pub fn set_mask_tx_ds(&mut self, value: bool)
        ensures
            final(self)@ as nat == with_field(old(self)@ as nat, 5, 1, bit_value(value)),
    {
        proof {
            lemma2_to64();
        }
        self.0 = write_u8(self.0, 5, 1, if value { 1 } else { 0 });
    }

    /// Mask/unmask interrupt caused by __TX_DS__.
    ///
    /// `0`: unmasked, interrupt reflected on IRQ
    ///
    /// `1`: masked, interrupt not reflected on IRQ
    ///
    /// Bits: 5..6
    pub fn with_mask_tx_ds_checked(self, value: bool) -> (r: Result<Self, ()>)
        ensures
            (match r {
                Ok(this) => this@ as nat == with_field(self@ as nat, 5, 1, bit_value(value)),
                Err(_) => false,
            }),
    {
        Ok(self.with_mask_tx_ds(value))
    }

    /// Mask/unmask interrupt caused by __TX_DS__.
    ///
    /// `0`: unmasked, interrupt reflected on IRQ
    ///
    /// `1`: masked, interrupt not reflected on IRQ
    ///
    /// Bits: 5..6
    pub fn set_mask_tx_ds_checked(&mut self, value: bool) -> (r: Result<(), ()>)
        ensures
            r is Ok,
            final(self)@ as nat == with_field(old(self)@ as nat, 5, 1, bit_value(value)),
    {
        self.set_mask_tx_ds(value);
        Ok(())
    }

    /// Mask/unmask interrupt caused by __MAX_RT__.
    ///
    /// `0`: unmasked, interrupt reflected on IRQ
    ///
    /// `1`: masked, interrupt not reflected on IRQ
    ///
    /// Bits: 4..5
    pub fn mask_max_rt(&self) -> (r: bool)
        ensures
            r == (field(self@ as nat, 4, 1) == 1),
    {
        proof {
            lemma2_to64();
        }
        read_u8(self.0, 4, 1) != 0
    }

    /// Mask/unmask interrupt caused by __MAX_RT__.
    ///
    /// `0`: unmasked, interrupt reflected on IRQ
    ///
    /// `1`: masked, interrupt not reflected on IRQ
    ///
    /// Bits: 4..5
    pub fn with_mask_max_rt(self, value: bool) -> (r: Self)
        ensures
            r@ as nat == with_field(self@ as nat, 4, 1, bit_value(value)),
    {
        let mut this = self;
        this.set_mask_max_rt(value);
        this
    }

    /// Mask/unmask interrupt caused by __MAX_RT__.
    ///
    /// `0`: unmasked, interrupt reflected on IRQ
    ///
    /// `1`: masked, interrupt not reflected on IRQ
    ///
    /// Bits: 4..5
    pub fn set_mask_max_rt(&mut self, value: bool)
        ensures
            final(self)@ as nat == with_field(old(self)@ as nat, 4, 1, bit_value(value)),
    {
        proof {
            lemma2_to64();
        }
        self.0 = write_u8(self.0, 4, 1, if value { 1 } else { 0 });
    }

    /// Mask/unmask interrupt caused by __MAX_RT__.
    ///
    /// `0`: unmasked, interrupt reflected on IRQ
    ///
    /// `1`: masked, interrupt not reflected on IRQ
    ///
    /// Bits: 4..5
    pub fn with_mask_max_rt_checked(self, value: bool) -> (r: Result<Self, ()>)
        ensures
            (match r {
                Ok(this) => this@ as nat == with_field(self@ as nat, 4, 1, bit_value(value)),
                Err(_) => false,
            }),
    {
        Ok(self.with_mask_max_rt(value))
    }

    /// Mask/unmask interrupt caused by __MAX_RT__.
    ///
    /// `0`: unmasked, interrupt reflected on IRQ
    ///
    /// `1`: masked, interrupt not reflected on IRQ
    ///
    /// Bits: 4..5
    pub fn set_mask_max_rt_checked(&mut self, value: bool) -> (r: Result<(), ()>)
        ensures
            r is Ok,
            final(self)@ as nat == with_field(old(self)@ as nat, 4, 1, bit_value(value)),
    {
        self.set_mask_max_rt(value);
        Ok(())
    }

    /// Enable/disable CRC. Default value: `1` (enabled)
    ///
    /// Bits: 3..4
    pub fn en_crc(&self) -> (r: bool)
        ensures
            r == (field(self@ as nat, 3, 1) == 1),
    {
        proof {
            lemma2_to64();
        }
        read_u8(self.0, 3, 1) != 0
    }

    /// Enable/disable CRC. Default value: `1` (enabled)
    ///
    /// Bits: 3..4
    pub fn with_en_crc(self, value: bool) -> (r: Self)
        ensures
            r@ as nat == with_field(self@ as nat, 3, 1, bit_value(value)),
    {
        let mut this = self;
        this.set_en_crc(value);
        this
    }

    /// Enable/disable CRC. Default value: `1` (enabled)
    ///
    /// Bits: 3..4
    pub fn set_en_crc(&mut self, value: bool)
        ensures
            final(self)@ as nat == with_field(old(self)@ as nat, 3, 1, bit_value(value)),
    {
        proof {
            lemma2_to64();
        }
        self.0 = write_u8(self.0, 3, 1, if value { 1 } else { 0 });
    }

    /// Enable/disable CRC. Default value: `1` (enabled)
    ///
    /// Bits: 3..4
    pub fn with_en_crc_checked(self, value: bool) -> (r: Result<Self, ()>)
        ensures
            (match r {
                Ok(this) => this@ as nat == with_field(self@ as nat, 3, 1, bit_value(value)),
                Err(_) => false,
            }),
    {
        Ok(self.with_en_crc(value))
    }

    /// Enable/disable CRC. Default value: `1` (enabled)
    ///
    /// Bits: 3..4
    pub fn set_en_crc_checked(&mut self, value: bool) -> (r: Result<(), ()>)
        ensures
            r is Ok,
            final(self)@ as nat == with_field(old(self)@ as nat, 3, 1, bit_value(value)),
    {
        self.set_en_crc(value);
        Ok(())
    }

    /// CRC encoding scheme. Enum: [`Crco`].
    ///
    /// Bits: 2..3
    pub fn crco(&self) -> (r: Crco)
        ensures
            r.bits() as nat == field(self@ as nat, 2, 1),
            r.crc_bytes() == field(self@ as nat, 2, 1) + 1,
    {
        proof {
            lemma2_to64();
        }
        let r = Crco::from_bits(read_u8(self.0, 2, 1));
        proof {
            r.lemma_meaning();
        }
        r
    }

    /// CRC encoding scheme. Enum: [`Crco`].
    ///
    /// Bits: 2..3
    pub fn with_crco(self, value: Crco) -> (r: Self)
        ensures
            r@ as nat == with_field(self@ as nat, 2, 1, value.bits() as nat),
    {
        let mut this = self;
        this.set_crco(value);
        this
    }

    /// CRC encoding scheme. Enum: [`Crco`].
    ///
    /// Bits: 2..3
    pub fn set_crco(&mut self, value: Crco)
        ensures
            final(self)@ as nat == with_field(old(self)@ as nat, 2, 1, value.bits() as nat),
    {
        proof {
            lemma2_to64();
        }
        self.0 = write_u8(self.0, 2, 1, value.into_bits());
    }

    /// CRC encoding scheme. Enum: [`Crco`].
    ///
    /// Bits: 2..3
    pub fn with_crco_checked(self, value: Crco) -> (r: Result<Self, ()>)
        ensures
            (match r {
                Ok(this) => this@ as nat == with_field(self@ as nat, 2, 1, value.bits() as nat),
                Err(_) => false,
            }),
    {
        Ok(self.with_crco(value))
    }

    /// CRC encoding scheme. Enum: [`Crco`].
    ///
    /// Bits: 2..3
    pub fn set_crco_checked(&mut self, value: Crco) -> (r: Result<(), ()>)
        ensures
            r is Ok,
            final(self)@ as nat == with_field(old(self)@ as nat, 2, 1, value.bits() as nat),
    {
        self.set_crco(value);
        Ok(())
    }

    /// Power down/up.
    ///
    /// `0`: Power down
    ///
    /// `1`: Power up
    ///
    /// Bits: 1..2
    pub fn pwr_up(&self) -> (r: bool)
        ensures
            r == (field(self@ as nat, 1, 1) == 1),
    {
        proof {
            lemma2_to64();
        }
        read_u8(self.0, 1, 1) != 0
    }

    /// Power down/up.
    ///
    /// `0`: Power down
    ///
    /// `1`: Power up
    ///
    /// Bits: 1..2
    pub fn with_pwr_up(self, value: bool) -> (r: Self)
        ensures
            r@ as nat == with_field(self@ as nat, 1, 1, bit_value(value)),
    {
        let mut this = self;
        this.set_pwr_up(value);
        this
    }

    /// Power down/up.
    ///
    /// `0`: Power down
    ///
    /// `1`: Power up
    ///
    /// Bits: 1..2
    pub fn set_pwr_up(&mut self, value: bool)
        ensures
            final(self)@ as nat == with_field(old(self)@ as nat, 1, 1, bit_value(value)),
    {
        proof {
            lemma2_to64();
        }
        self.0 = write_u8(self.0, 1, 1, if value { 1 } else { 0 });
    }

    /// Power down/up.
    ///
    /// `0`: Power down
    ///
    /// `1`: Power up
    ///
    /// Bits: 1..2
    pub fn with_pwr_up_checked(self, value: bool) -> (r: Result<Self, ()>)
        ensures
            (match r {
                Ok(this) => this@ as nat == with_field(self@ as nat, 1, 1, bit_value(value)),
                Err(_) => false,
            }),
    {
        Ok(self.with_pwr_up(value))
    }

    /// Power down/up.
    ///
    /// `0`: Power down
    ///
    /// `1`: Power up
    ///
    /// Bits: 1..2
    pub fn set_pwr_up_checked(&mut self, value: bool) -> (r: Result<(), ()>)
        ensures
            r is Ok,
            final(self)@ as nat == with_field(old(self)@ as nat, 1, 1, bit_value(value)),
    {
        self.set_pwr_up(value);
        Ok(())
    }

    /// Set primary TX/RX.
    ///
    /// `0`: primary TX
    ///
    /// `1`: primary RX
    ///
    /// Bits: 0..1
    pub fn prim_rx(&self) -> (r: bool)
        ensures
            r == (field(self@ as nat, 0, 1) == 1),
    {
        proof {
            lemma2_to64();
        }
        read_u8(self.0, 0, 1) != 0
    }

    /// Set primary TX/RX.
    ///
    /// `0`: primary TX
    ///
    /// `1`: primary RX
    ///
    /// Bits: 0..1
    pub fn with_prim_rx(self, value: bool) -> (r: Self)
        ensures
            r@ as nat == with_field(self@ as nat, 0, 1, bit_value(value)),
    {
        let mut this = self;
        this.set_prim_rx(value);
        this
    }

    /// Set primary TX/RX.
    ///
    /// `0`: primary TX
    ///
    /// `1`: primary RX
    ///
    /// Bits: 0..1
    pub fn set_prim_rx(&mut self, value: bool)
        ensures
            final(self)@ as nat == with_field(old(self)@ as nat, 0, 1, bit_value(value)),
    {
        proof {
            lemma2_to64();
        }
        self.0 = write_u8(self.0, 0, 1, if value { 1 } else { 0 });
    }

    /// Set primary TX/RX.
    ///
    /// `0`: primary TX
    ///
    /// `1`: primary RX
    ///
    /// Bits: 0..1
    pub fn with_prim_rx_checked(self, value: bool) -> (r: Result<Self, ()>)
        ensures
            (match r {
                Ok(this) => this@ as nat == with_field(self@ as nat, 0, 1, bit_value(value)),
                Err(_) => false,
            }),
    {
        Ok(self.with_prim_rx(value))
    }

    /// Set primary TX/RX.
    ///
    /// `0`: primary TX
    ///
    /// `1`: primary RX
    ///
    /// Bits: 0..1
    pub fn set_prim_rx_checked(&mut self, value: bool) -> (r: Result<(), ()>)
        ensures
            r is Ok,
            final(self)@ as nat == with_field(old(self)@ as nat, 0, 1, bit_value(value)),
    {
        self.set_prim_rx(value);
        Ok(())
    }
}

impl From<u8> for Config {
    fn from(v: u8) -> (r: Self)
        ensures
            r@ == v,
    {
        Config(v)
    }
}

impl vstd::std_specs::convert::FromSpecImpl<u8> for Config {
    open spec fn obeys_from_spec() -> bool {
        true
    }

    closed spec fn from_spec(v: u8) -> Self {
        Config(v)
    }
}

impl From<Config> for u8 {
    fn from(v: Config) -> (r: Self)
        ensures
            r == v@,
    {
        v.0
    }
}

impl vstd::std_specs::convert::FromSpecImpl<Config> for u8 {
    open spec fn obeys_from_spec() -> bool {
        true
    }

    open spec fn from_spec(v: Config) -> Self {
        v@
    }
}

impl Default for Config {
    fn default() -> (r: Self)
        ensures
            r@ == 0x08,
    {
        Self::new()
    }
}

/// # EN_AA register
/// Enable 'Auto Acknowledgement' on data pipes 0-5.
///
/// Address = `0x01`
///
/// ## Fields
/// All fields default to 1.
///
/// #### `enaa_pN` | bit `N`
/// Enable 'Auto Acknowledgement' on data pipes `N` = 0-5.
#[derive(Copy, Clone, Debug)]
pub struct EnAa(u8);

impl View for EnAa {
    type V = u8;

    /// The register byte.
    closed spec fn view(&self) -> u8 {
        self.0
    }
}

impl EnAa {
    pub const ADDRESS: u8 = 0x01;

    /// A register holding the default value of every field.
    pub fn new() -> (r: Self)
        ensures
            r@ == 0x3f,
            field(r@ as nat, 5, 1) == 1,
            field(r@ as nat, 4, 1) == 1,
            field(r@ as nat, 3, 1) == 1,
            field(r@ as nat, 2, 1) == 1,
            field(r@ as nat, 1, 1) == 1,
            field(r@ as nat, 0, 1) == 1,
    {
        proof {
            lemma2_to64();
        }
        EnAa(0x3f)
    }

    /// The register holding exactly `bits`.
    pub fn from_bits(bits: u8) -> (r: Self)
        ensures
            r@ == bits,
    {
        EnAa(bits)
    }

    /// The register byte.
    pub fn into_bits(self) -> (r: u8)
        ensures
            r == self@,
    {
        self.0
    }

    /// The register's address.
    pub fn address(&self) -> (r: u8)
        ensures
            r == Self::ADDRESS,
    {
        Self::ADDRESS
    }

    /// The SPI byte sequence that writes this value to the register.
    pub fn as_write_bytes(&self) -> (r: [u8; 2])
        ensures
            r@ == seq![WRegister::WORD | Self::ADDRESS, self@],
            r@[0] == 0x21,
    {
        assert(0x20u8 | 0x01 == 0x21) by (bit_vector);
        [WRegister::WORD | Self::ADDRESS, self.0]
    }

    /// The SPI byte sequence that reads the register.
    pub fn as_read_bytes() -> (r: [u8; 2])
        ensures
            r@ == seq![Self::ADDRESS, 0u8],
    {
        [Self::ADDRESS, 0]
    }

    /// Enable 'Auto Acknowledgement' on data pipe 5.
    ///
    /// Bits: 5..6
    pub fn enaa_p5(&self) -> (r: bool)
        ensures
            r == (field(self@ as nat, 5, 1) == 1),
    {
        proof {
            lemma2_to64();
        }
        read_u8(self.0, 5, 1) != 0
    }

    /// Enable 'Auto Acknowledgement' on data pipe 5.
    ///
    /// Bits: 5..6
    pub fn with_enaa_p5(self, value: bool) -> (r: Self)
        ensures
            r@ as nat == with_field(self@ as nat, 5, 1, bit_value(value)),
    {
        let mut this = self;
        this.set_enaa_p5(value);
        this
    }

    /// Enable 'Auto Acknowledgement' on data pipe 5.
    ///
    /// Bits: 5..6
    pub fn set_enaa_p5(&mut self, value: bool)
        ensures
            final(self)@ as nat == with_field(old(self)@ as nat, 5, 1, bit_value(value)),
    {
        proof {
            lemma2_to64();
        }
        self.0 = write_u8(self.0, 5, 1, if value { 1 } else { 0 });
    }

    /// Enable 'Auto Acknowledgement' on data pipe 5.
    ///
    /// Bits: 5..6
    pub fn with_enaa_p5_checked(self, value: bool) -> (r: Result<Self, ()>)
        ensures
            (match r {
                Ok(this) => this@ as nat == with_field(self@ as nat, 5, 1, bit_value(value)),
                Err(_) => false,
            }),
    {
        Ok(self.with_enaa_p5(value))
    }

    /// Enable 'Auto Acknowledgement' on data pipe 5.
    ///
    /// Bits: 5..6
    pub fn set_enaa_p5_checked(&mut self, value: bool) -> (r: Result<(), ()>)
        ensures
            r is Ok,
            final(self)@ as nat == with_field(old(self)@ as nat, 5, 1, bit_value(value)),
    {
        self.set_enaa_p5(value);
        Ok(())
    }

    /// Enable 'Auto Acknowledgement' on data pipe 4.
    ///
    /// Bits: 4..5
    pub fn enaa_p4(&self) -> (r: bool)
        ensures
            r == (field(self@ as nat, 4, 1) == 1),
    {
        proof {
            lemma2_to64();
        }
        read_u8(self.0, 4, 1) != 0
    }

    /// Enable 'Auto Acknowledgement' on data pipe 4.
    ///
    /// Bits: 4..5
    pub fn with_enaa_p4(self, value: bool) -> (r: Self)
        ensures
            r@ as nat == with_field(self@ as nat, 4, 1, bit_value(value)),
    {
        let mut this = self;
        this.set_enaa_p4(value);
        this
    }

    /// Enable 'Auto Acknowledgement' on data pipe 4.
    ///
    /// Bits: 4..5
    pub fn set_enaa_p4(&mut self, value: bool)
        ensures
            final(self)@ as nat == with_field(old(self)@ as nat, 4, 1, bit_value(value)),
    {
        proof {
            lemma2_to64();
        }
        self.0 = write_u8(self.0, 4, 1, if value { 1 } else { 0 });
    }

    /// Enable 'Auto Acknowledgement' on data pipe 4.
    ///
    /// Bits: 4..5
    pub fn with_enaa_p4_checked(self, value: bool) -> (r: Result<Self, ()>)
        ensures
            (match r {
                Ok(this) => this@ as nat == with_field(self@ as nat, 4, 1, bit_value(value)),
                Err(_) => false,
            }),
    {
        Ok(self.with_enaa_p4(value))
    }

    /// Enable 'Auto Acknowledgement' on data pipe 4.
    ///
    /// Bits: 4..5
    pub fn set_enaa_p4_checked(&mut self, value: bool) -> (r: Result<(), ()>)
        ensures
            r is Ok,
            final(self)@ as nat == with_field(old(self)@ as nat, 4, 1, bit_value(value)),
    {
        self.set_enaa_p4(value);
        Ok(())
    }

    /// Enable 'Auto Acknowledgement' on data pipe 3.
    ///
    /// Bits: 3..4
    pub fn enaa_p3(&self) -> (r: bool)
        ensures
            r == (field(self@ as nat, 3, 1) == 1),
    {
        proof {
            lemma2_to64();
        }
        read_u8(self.0, 3, 1) != 0
    }

    /// Enable 'Auto Acknowledgement' on data pipe 3.
    ///
    /// Bits: 3..4
    pub fn with_enaa_p3(self, value: bool) -> (r: Self)
        ensures
            r@ as nat == with_field(self@ as nat, 3, 1, bit_value(value)),
    {
        let mut this = self;
        this.set_enaa_p3(value);
        this
    }

    /// Enable 'Auto Acknowledgement' on data pipe 3.
    ///
    /// Bits: 3..4
    pub fn set_enaa_p3(&mut self, value: bool)
        ensures
            final(self)@ as nat == with_field(old(self)@ as nat, 3, 1, bit_value(value)),
    {
        proof {
            lemma2_to64();
        }
        self.0 = write_u8(self.0, 3, 1, if value { 1 } else { 0 });
    }

    /// Enable 'Auto Acknowledgement' on data pipe 3.
    ///
    /// Bits: 3..4
    pub fn with_enaa_p3_checked(self, value: bool) -> (r: Result<Self, ()>)
        ensures
            (match r {
                Ok(this) => this@ as nat == with_field(self@ as nat, 3, 1, bit_value(value)),
                Err(_) => false,
            }),
    {
        Ok(self.with_enaa_p3(value))
    }

    /// Enable 'Auto Acknowledgement' on data pipe 3.
    ///
    /// Bits: 3..4
    pub fn set_enaa_p3_checked(&mut self, value: bool) -> (r: Result<(), ()>)
        ensures
            r is Ok,
            final(self)@ as nat == with_field(old(self)@ as nat, 3, 1, bit_value(value)),
    {
        self.set_enaa_p3(value);
        Ok(())
    }

    /// Enable 'Auto Acknowledgement' on data pipe 2.
    ///
    /// Bits: 2..3
    pub fn enaa_p2(&self) -> (r: bool)
        ensures
            r == (field(self@ as nat, 2, 1) == 1),
    {
        proof {
            lemma2_to64();
        }
        read_u8(self.0, 2, 1) != 0
    }

    /// Enable 'Auto Acknowledgement' on data pipe 2.
    ///
    /// Bits: 2..3
    pub fn with_enaa_p2(self, value: bool) -> (r: Self)
        ensures
            r@ as nat == with_field(self@ as nat, 2, 1, bit_value(value)),
    {
        let mut this = self;
        this.set_enaa_p2(value);
        this
    }

    /// Enable 'Auto Acknowledgement' on data pipe 2.
    ///
    /// Bits: 2..3
    pub fn set_enaa_p2(&mut self, value: bool)
        ensures
            final(self)@ as nat == with_field(old(self)@ as nat, 2, 1, bit_value(value)),
    {
        proof {
            lemma2_to64();
        }
        self.0 = write_u8(self.0, 2, 1, if value { 1 } else { 0 });
    }

    /// Enable 'Auto Acknowledgement' on data pipe 2.
    ///
    /// Bits: 2..3
    pub fn with_enaa_p2_checked(self, value: bool) -> (r: Result<Self, ()>)
        ensures
            (match r {
                Ok(this) => this@ as nat == with_field(self@ as nat, 2, 1, bit_value(value)),
                Err(_) => false,
            }),
    {
        Ok(self.with_enaa_p2(value))
    }

    /// Enable 'Auto Acknowledgement' on data pipe 2.
    ///
    /// Bits: 2..3
    pub fn set_enaa_p2_checked(&mut self, value: bool) -> (r: Result<(), ()>)
        ensures
            r is Ok,
            final(self)@ as nat == with_field(old(self)@ as nat, 2, 1, bit_value(value)),
    {
        self.set_enaa_p2(value);
        Ok(())
    }

    /// Enable 'Auto Acknowledgement' on data pipe 1.
    ///
    /// Bits: 1..2
    pub fn enaa_p1(&self) -> (r: bool)
        ensures
            r == (field(self@ as nat, 1, 1) == 1),
    {
        proof {
            lemma2_to64();
        }
        read_u8(self.0, 1, 1) != 0
    }

    /// Enable 'Auto Acknowledgement' on data pipe 1.
    ///
    /// Bits: 1..2
    pub fn with_enaa_p1(self, value: bool) -> (r: Self)
        ensures
            r@ as nat == with_field(self@ as nat, 1, 1, bit_value(value)),
    {
        let mut this = self;
        this.set_enaa_p1(value);
        this
    }

    /// Enable 'Auto Acknowledgement' on data pipe 1.
    ///
    /// Bits: 1..2
    pub fn set_enaa_p1(&mut self, value: bool)
        ensures
            final(self)@ as nat == with_field(old(self)@ as nat, 1, 1, bit_value(value)),
    {
        proof {
            lemma2_to64();
        }
        self.0 = write_u8(self.0, 1, 1, if value { 1 } else { 0 });
    }

    /// Enable 'Auto Acknowledgement' on data pipe 1.
    ///
    /// Bits: 1..2
    pub fn with_enaa_p1_checked(self, value: bool) -> (r: Result<Self, ()>)
        ensures
            (match r {
                Ok(this) => this@ as nat == with_field(self@ as nat, 1, 1, bit_value(value)),
                Err(_) => false,
            }),
    {
        Ok(self.with_enaa_p1(value))
    }

    /// Enable 'Auto Acknowledgement' on data pipe 1.
    ///
    /// Bits: 1..2
    pub fn set_enaa_p1_checked(&mut self, value: bool) -> (r: Result<(), ()>)
        ensures
            r is Ok,
            final(self)@ as nat == with_field(old(self)@ as nat, 1, 1, bit_value(value)),
    {
        self.set_enaa_p1(value);
        Ok(())
    }

    /// Enable 'Auto Acknowledgement' on data pipe 0.
    ///
    /// Bits: 0..1
    pub fn enaa_p0(&self) -> (r: bool)
        ensures
            r == (field(self@ as nat, 0, 1) == 1),
    {
        proof {
            lemma2_to64();
        }
        read_u8(self.0, 0, 1) != 0
    }

    /// Enable 'Auto Acknowledgement' on data pipe 0.
    ///
    /// Bits: 0..1
    pub fn with_enaa_p0(self, value: bool) -> (r: Self)
        ensures
            r@ as nat == with_field(self@ as nat, 0, 1, bit_value(value)),
    {
        let mut this = self;
        this.set_enaa_p0(value);
        this
    }

    /// Enable 'Auto Acknowledgement' on data pipe 0.
    ///
    /// Bits: 0..1
    pub fn set_enaa_p0(&mut self, value: bool)
        ensures
            final(self)@ as nat == with_field(old(self)@ as nat, 0, 1, bit_value(value)),
    {
        proof {
            lemma2_to64();
        }
        self.0 = write_u8(self.0, 0, 1, if value { 1 } else { 0 });
    }

    /// Enable 'Auto Acknowledgement' on data pipe 0.
    ///
    /// Bits: 0..1
    pub fn with_enaa_p0_checked(self, value: bool) -> (r: Result<Self, ()>)
        ensures
            (match r {
                Ok(this) => this@ as nat == with_field(self@ as nat, 0, 1, bit_value(value)),
                Err(_) => false,
            }),
    {
        Ok(self.with_enaa_p0(value))
    }

    /// Enable 'Auto Acknowledgement' on data pipe 0.
    ///
    /// Bits: 0..1
    pub fn set_enaa_p0_checked(&mut self, value: bool) -> (r: Result<(), ()>)
        ensures
            r is Ok,
            final(self)@ as nat == with_field(old(self)@ as nat, 0, 1, bit_value(value)),
    {
        self.set_enaa_p0(value);
        Ok(())
    }
}

impl From<u8> for EnAa {
    fn from(v: u8) -> (r: Self)
        ensures
            r@ == v,
    {
        EnAa(v)
    }
}

impl vstd::std_specs::convert::FromSpecImpl<u8> for EnAa {
    open spec fn obeys_from_spec() -> bool {
        true
    }

    closed spec fn from_spec(v: u8) -> Self {
        EnAa(v)
    }
}

impl From<EnAa> for u8 {
    fn from(v: EnAa) -> (r: Self)
        ensures
            r == v@,
    {
        v.0
    }
}

impl vstd::std_specs::convert::FromSpecImpl<EnAa> for u8 {
    open spec fn obeys_from_spec() -> bool {
        true
    }

    open spec fn from_spec(v: EnAa) -> Self {
        v@
    }
}

impl Default for EnAa {
    fn default() -> (r: Self)
        ensures
            r@ == 0x3f,
    {
        Self::new()
    }
}

/// # EN_RXADDR register
/// Enable RX address on data pipes 0-5.
///
/// Address = `0x02`
///
/// ## Fields
///
/// `erx_p0` and `erx_p1` default to 1.
///
/// #### `erx_pN` | bit `N`
/// Enable RX adddress on data pipes `N` = 0-5.
#[derive(Copy, Clone, Debug)]
pub struct EnRxaddr(u8);

impl View for EnRxaddr {
    type V = u8;

    /// The register byte.
    closed spec fn view(&self) -> u8 {
        self.0
    }
}

impl EnRxaddr {
    pub const ADDRESS: u8 = 0x02;

    /// A register holding the default value of every field.
    pub fn new() -> (r: Self)
        ensures
            r@ == 0x03,
            field(r@ as nat, 1, 1) == 1,
            field(r@ as nat, 0, 1) == 1,
    {
        proof {
            lemma2_to64();
        }
        EnRxaddr(0x03)
    }

    /// The register holding exactly `bits`.
    pub fn from_bits(bits: u8) -> (r: Self)
        ensures
            r@ == bits,
    {
        EnRxaddr(bits)
    }

    /// The register byte.
    pub fn into_bits(self) -> (r: u8)
        ensures
            r == self@,
    {
        self.0
    }

    /// The register's address.
    pub fn address(&self) -> (r: u8)
        ensures
            r == Self::ADDRESS,
    {
        Self::ADDRESS
    }

    /// The SPI byte sequence that writes this value to the register.
    pub fn as_write_bytes(&self) -> (r: [u8; 2])
        ensures
            r@ == seq![WRegister::WORD | Self::ADDRESS, self@],
            r@[0] == 0x22,
    {
        assert(0x20u8 | 0x02 == 0x22) by (bit_vector);
        [WRegister::WORD | Self::ADDRESS, self.0]
    }

    /// The SPI byte sequence that reads the register.
    pub fn as_read_bytes() -> (r: [u8; 2])
        ensures
            r@ == seq![Self::ADDRESS, 0u8],
    {
        [Self::ADDRESS, 0]
    }

    /// Enable RX address for data pipe 5.
    ///
    /// Bits: 5..6
    pub fn erx_p5(&self) -> (r: bool)
        ensures
            r == (field(self@ as nat, 5, 1) == 1),
    {
        proof {
            lemma2_to64();
        }
        read_u8(self.0, 5, 1) != 0
    }

    /// Enable RX address for data pipe 5.
    ///
    /// Bits: 5..6
    pub fn with_erx_p5(self, value: bool) -> (r: Self)
        ensures
            r@ as nat == with_field(self@ as nat, 5, 1, bit_value(value)),
    {
        let mut this = self;
        this.set_erx_p5(value);
        this
    }

    /// Enable RX address for data pipe 5.
    ///
    /// Bits: 5..6
    pub fn set_erx_p5(&mut self, value: bool)
        ensures
            final(self)@ as nat == with_field(old(self)@ as nat, 5, 1, bit_value(value)),
    {
        proof {
            lemma2_to64();
        }
        self.0 = write_u8(self.0, 5, 1, if value { 1 } else { 0 });
    }

    /// Enable RX address for data pipe 5.
    ///
    /// Bits: 5..6
    pub fn with_erx_p5_checked(self, value: bool) -> (r: Result<Self, ()>)
        ensures
            (match r {
                Ok(this) => this@ as nat == with_field(self@ as nat, 5, 1, bit_value(value)),
                Err(_) => false,
            }),
    {
        Ok(self.with_erx_p5(value))
    }

    /// Enable RX address for data pipe 5.
    ///
    /// Bits: 5..6
    pub fn set_erx_p5_checked(&mut self, value: bool) -> (r: Result<(), ()>)
        ensures
            r is Ok,
            final(self)@ as nat == with_field(old(self)@ as nat, 5, 1, bit_value(value)),
    {
        self.set_erx_p5(value);
        Ok(())
    }

    /// Enable RX address for data pipe 4.
    ///
    /// Bits: 4..5
    pub fn erx_p4(&self) -> (r: bool)
        ensures
            r == (field(self@ as nat, 4, 1) == 1),
    {
        proof {
            lemma2_to64();
        }
        read_u8(self.0, 4, 1) != 0
    }

    /// Enable RX address for data pipe 4.
    ///
    /// Bits: 4..5
    pub fn with_erx_p4(self, value: bool) -> (r: Self)
        ensures
            r@ as nat == with_field(self@ as nat, 4, 1, bit_value(value)),
    {
        let mut this = self;
        this.set_erx_p4(value);
        this
    }

    /// Enable RX address for data pipe 4.
    ///
    /// Bits: 4..5
    pub fn set_erx_p4(&mut self, value: bool)
        ensures
            final(self)@ as nat == with_field(old(self)@ as nat, 4, 1, bit_value(value)),
    {
        proof {
            lemma2_to64();
        }
        self.0 = write_u8(self.0, 4, 1, if value { 1 } else { 0 });
    }

    /// Enable RX address for data pipe 4.
    ///
    /// Bits: 4..5
    pub fn with_erx_p4_checked(self, value: bool) -> (r: Result<Self, ()>)
        ensures
            (match r {
                Ok(this) => this@ as nat == with_field(self@ as nat, 4, 1, bit_value(value)),
                Err(_) => false,
            }),
    {
        Ok(self.with_erx_p4(value))
    }

    /// Enable RX address for data pipe 4.
    ///
    /// Bits: 4..5
    pub fn set_erx_p4_checked(&mut self, value: bool) -> (r: Result<(), ()>)
        ensures
            r is Ok,
            final(self)@ as nat == with_field(old(self)@ as nat, 4, 1, bit_value(value)),
    {
        self.set_erx_p4(value);
        Ok(())
    }

    /// Enable RX address for data pipe 3.
    ///
    /// Bits: 3..4
    pub fn erx_p3(&self) -> (r: bool)
        ensures
            r == (field(self@ as nat, 3, 1) == 1),
    {
        proof {
            lemma2_to64();
        }
        read_u8(self.0, 3, 1) != 0
    }

    /// Enable RX address for data pipe 3.
    ///
    /// Bits: 3..4
    pub fn with_erx_p3(self, value: bool) -> (r: Self)
        ensures
            r@ as nat == with_field(self@ as nat, 3, 1, bit_value(value)),
    {
        let mut this = self;
        this.set_erx_p3(value);
        this
    }

    /// Enable RX address for data pipe 3.
    ///
    /// Bits: 3..4
    pub fn set_erx_p3(&mut self, value: bool)
        ensures
            final(self)@ as nat == with_field(old(self)@ as nat, 3, 1, bit_value(value)),
    {
        proof {
            lemma2_to64();
        }
        self.0 = write_u8(self.0, 3, 1, if value { 1 } else { 0 });
    }

    /// Enable RX address for data pipe 3.
    ///
    /// Bits: 3..4
    pub fn with_erx_p3_checked(self, value: bool) -> (r: Result<Self, ()>)
        ensures
            (match r {
                Ok(this) => this@ as nat == with_field(self@ as nat, 3, 1, bit_value(value)),
                Err(_) => false,
            }),
    {
        Ok(self.with_erx_p3(value))
    }

    /// Enable RX address for data pipe 3.
    ///
    /// Bits: 3..4
    pub fn set_erx_p3_checked(&mut self, value: bool) -> (r: Result<(), ()>)
        ensures
            r is Ok,
            final(self)@ as nat == with_field(old(self)@ as nat, 3, 1, bit_value(value)),
    {
        self.set_erx_p3(value);
        Ok(())
    }

    /// Enable RX address for data pipe 2.
    ///
    /// Bits: 2..3
    pub fn erx_p2(&self) -> (r: bool)
        ensures
            r == (field(self@ as nat, 2, 1) == 1),
    {
        proof {
            lemma2_to64();
        }
        read_u8(self.0, 2, 1) != 0
    }

    /// Enable RX address for data pipe 2.
    ///
    /// Bits: 2..3
    pub fn with_erx_p2(self, value: bool) -> (r: Self)
        ensures
            r@ as nat == with_field(self@ as nat, 2, 1, bit_value(value)),
    {
        let mut this = self;
        this.set_erx_p2(value);
        this
    }

    /// Enable RX address for data pipe 2.
    ///
    /// Bits: 2..3
    pub fn set_erx_p2(&mut self, value: bool)
        ensures
            final(self)@ as nat == with_field(old(self)@ as nat, 2, 1, bit_value(value)),
    {
        proof {
            lemma2_to64();
        }
        self.0 = write_u8(self.0, 2, 1, if value { 1 } else { 0 });
    }

    /// Enable RX address for data pipe 2.
    ///
    /// Bits: 2..3
    pub fn with_erx_p2_checked(self, value: bool) -> (r: Result<Self, ()>)
        ensures
            (match r {
                Ok(this) => this@ as nat == with_field(self@ as nat, 2, 1, bit_value(value)),
                Err(_) => false,
            }),
    {
        Ok(self.with_erx_p2(value))
    }

    /// Enable RX address for data pipe 2.
    ///
    /// Bits: 2..3
    pub fn set_erx_p2_checked(&mut self, value: bool) -> (r: Result<(), ()>)
        ensures
            r is Ok,
            final(self)@ as nat == with_field(old(self)@ as nat, 2, 1, bit_value(value)),
    {
        self.set_erx_p2(value);
        Ok(())
    }

    /// Enable RX address for data pipe 1.
    ///
    /// Bits: 1..2
    pub fn erx_p1(&self) -> (r: bool)
        ensures
            r == (field(self@ as nat, 1, 1) == 1),
    {
        proof {
            lemma2_to64();
        }
        read_u8(self.0, 1, 1) != 0
    }

    /// Enable RX address for data pipe 1.
    ///
    /// Bits: 1..2
    pub fn with_erx_p1(self, value: bool) -> (r: Self)
        ensures
            r@ as nat == with_field(self@ as nat, 1, 1, bit_value(value)),
    {
        let mut this = self;
        this.set_erx_p1(value);
        this
    }

    /// Enable RX address for data pipe 1.
    ///
    /// Bits: 1..2
    pub fn set_erx_p1(&mut self, value: bool)
        ensures
            final(self)@ as nat == with_field(old(self)@ as nat, 1, 1, bit_value(value)),
    {
        proof {
            lemma2_to64();
        }
        self.0 = write_u8(self.0, 1, 1, if value { 1 } else { 0 });
    }

    /// Enable RX address for data pipe 1.
    ///
    /// Bits: 1..2
    pub fn with_erx_p1_checked(self, value: bool) -> (r: Result<Self, ()>)
        ensures
            (match r {
                Ok(this) => this@ as nat == with_field(self@ as nat, 1, 1, bit_value(value)),
                Err(_) => false,
            }),
    {
        Ok(self.with_erx_p1(value))
    }

    /// Enable RX address for data pipe 1.
    ///
    /// Bits: 1..2
    pub fn set_erx_p1_checked(&mut self, value: bool) -> (r: Result<(), ()>)
        ensures
            r is Ok,
            final(self)@ as nat == with_field(old(self)@ as nat, 1, 1, bit_value(value)),
    {
        self.set_erx_p1(value);
        Ok(())
    }

    /// Enable RX address for data pipe 0.
    ///
    /// Bits: 0..1
    pub fn erx_p0(&self) -> (r: bool)
        ensures
            r == (field(self@ as nat, 0, 1) == 1),
    {
        proof {
            lemma2_to64();
        }
        read_u8(self.0, 0, 1) != 0
    }

    /// Enable RX address for data pipe 0.
    ///
    /// Bits: 0..1
    pub fn with_erx_p0(self, value: bool) -> (r: Self)
        ensures
            r@ as nat == with_field(self@ as nat, 0, 1, bit_value(value)),
    {
        let mut this = self;
        this.set_erx_p0(value);
        this
    }

    /// Enable RX address for data pipe 0.
    ///
    /// Bits: 0..1
    pub fn set_erx_p0(&mut self, value: bool)
        ensures
            final(self)@ as nat == with_field(old(self)@ as nat, 0, 1, bit_value(value)),
    {
        proof {
            lemma2_to64();
        }
        self.0 = write_u8(self.0, 0, 1, if value { 1 } else { 0 });
    }

    /// Enable RX address for data pipe 0.
    ///
    /// Bits: 0..1
    pub fn with_erx_p0_checked(self, value: bool) -> (r: Result<Self, ()>)
        ensures
            (match r {
                Ok(this) => this@ as nat == with_field(self@ as nat, 0, 1, bit_value(value)),
                Err(_) => false,
            }),
    {
        Ok(self.with_erx_p0(value))
    }

    /// Enable RX address for data pipe 0.
    ///
    /// Bits: 0..1
    pub fn set_erx_p0_checked(&mut self, value: bool) -> (r: Result<(), ()>)
        ensures
            r is Ok,
            final(self)@ as nat == with_field(old(self)@ as nat, 0, 1, bit_value(value)),
    {
        self.set_erx_p0(value);
        Ok(())
    }
}

impl From<u8> for EnRxaddr {
    fn from(v: u8) -> (r: Self)
        ensures
            r@ == v,
    {
        EnRxaddr(v)
    }
}

impl vstd::std_specs::convert::FromSpecImpl<u8> for EnRxaddr {
    open spec fn obeys_from_spec() -> bool {
        true
    }

    closed spec fn from_spec(v: u8) -> Self {
        EnRxaddr(v)
    }
}

impl From<EnRxaddr> for u8 {
    fn from(v: EnRxaddr) -> (r: Self)
        ensures
            r == v@,
    {
        v.0
    }
}

impl vstd::std_specs::convert::FromSpecImpl<EnRxaddr> for u8 {
    open spec fn obeys_from_spec() -> bool {
        true
    }

    open spec fn from_spec(v: EnRxaddr) -> Self {
        v@
    }
}

impl Default for EnRxaddr {
    fn default() -> (r: Self)
        ensures
            r@ == 0x03,
    {
        Self::new()
    }
}

/// # SETUP_AW register
/// Set up address width. This applies to [`TxAddr`] and all RX addresses for data pipes.
///
/// Address = `0x03`
///
/// ## Fields
///
/// #### `aw` | bits 1:0
/// Address width. Default value: `11` (5 byte address).
/// Enum: [`AddressWidth`].
#[derive(Copy, Clone, Debug)]
pub struct SetupAw(u8);

impl View for SetupAw {
    type V = u8;

    /// The register byte.
    closed spec fn view(&self) -> u8 {
        self.0
    }
}

impl SetupAw {
    pub const ADDRESS: u8 = 0x03;

    /// A register holding the default value of every field.
    pub fn new() -> (r: Self)
        ensures
            r@ == 0x03,
            field(r@ as nat, 0, 2) == 3,
    {
        proof {
            lemma2_to64();
        }
        SetupAw(0x03)
    }

    /// The register holding exactly `bits`.
    pub fn from_bits(bits: u8) -> (r: Self)
        ensures
            r@ == bits,
    {
        SetupAw(bits)
    }

    /// The register byte.
    pub fn into_bits(self) -> (r: u8)
        ensures
            r == self@,
    {
        self.0
    }

    /// The register's address.
    pub fn address(&self) -> (r: u8)
        ensures
            r == Self::ADDRESS,
    {
        Self::ADDRESS
    }

    /// The SPI byte sequence that writes this value to the register.
    pub fn as_write_bytes(&self) -> (r: [u8; 2])
        ensures
            r@ == seq![WRegister::WORD | Self::ADDRESS, self@],
            r@[0] == 0x23,
    {
        assert(0x20u8 | 0x03 == 0x23) by (bit_vector);
        [WRegister::WORD | Self::ADDRESS, self.0]
    }

    /// The SPI byte sequence that reads the register.
    pub fn as_read_bytes() -> (r: [u8; 2])
        ensures
            r@ == seq![Self::ADDRESS, 0u8],
    {
        [Self::ADDRESS, 0]
    }

    /// Address width. Default value: `11` (5 byte address).
    /// Enum: [`AddressWidth`].
    ///
    /// Bits: 0..2
    pub fn aw(&self) -> (r: AddressWidth)
        ensures
            r.bits() as nat == field(self@ as nat, 0, 2),
            r.address_bytes() == (if field(self@ as nat, 0, 2) == 0 { None } else { Some((field(self@ as nat, 0, 2) + 2) as nat) }),
    {
        proof {
            lemma2_to64();
        }
        let r = AddressWidth::from_bits(read_u8(self.0, 0, 2));
        proof {
            r.lemma_meaning();
        }
        r
    }

    /// Address width. Default value: `11` (5 byte address).
    /// Enum: [`AddressWidth`].
    ///
    /// Bits: 0..2
    pub fn with_aw(self, value: AddressWidth) -> (r: Self)
        ensures
            r@ as nat == with_field(self@ as nat, 0, 2, value.bits() as nat),
    {
        let mut this = self;
        this.set_aw(value);
        this
    }

    /// Address width. Default value: `11` (5 byte address).
    /// Enum: [`AddressWidth`].
    ///
    /// Bits: 0..2
    pub fn set_aw(&mut self, value: AddressWidth)
        ensures
            final(self)@ as nat == with_field(old(self)@ as nat, 0, 2, value.bits() as nat),
    {
        proof {
            lemma2_to64();
        }
        self.0 = write_u8(self.0, 0, 2, value.into_bits());
    }

    /// Address width. Default value: `11` (5 byte address).
    /// Enum: [`AddressWidth`].
    ///
    /// Bits: 0..2
    pub fn with_aw_checked(self, value: AddressWidth) -> (r: Result<Self, ()>)
        ensures
            (match r {
                Ok(this) => this@ as nat == with_field(self@ as nat, 0, 2, value.bits() as nat),
                Err(_) => false,
            }),
    {
        Ok(self.with_aw(value))
    }

    /// Address width. Default value: `11` (5 byte address).
    /// Enum: [`AddressWidth`].
    ///
    /// Bits: 0..2
    pub fn set_aw_checked(&mut self, value: AddressWidth) -> (r: Result<(), ()>)
        ensures
            r is Ok,
            final(self)@ as nat == with_field(old(self)@ as nat, 0, 2, value.bits() as nat),
    {
        self.set_aw(value);
        Ok(())
    }
}

impl From<u8> for SetupAw {
    fn from(v: u8) -> (r: Self)
        ensures
            r@ == v,
    {
        SetupAw(v)
    }
}

impl vstd::std_specs::convert::FromSpecImpl<u8> for SetupAw {
    open spec fn obeys_from_spec() -> bool {
        true
    }

    closed spec fn from_spec(v: u8) -> Self {
        SetupAw(v)
    }
}

impl From<SetupAw> for u8 {
    fn from(v: SetupAw) -> (r: Self)
        ensures
            r == v@,
    {
        v.0
    }
}

impl vstd::std_specs::convert::FromSpecImpl<SetupAw> for u8 {
    open spec fn obeys_from_spec() -> bool {
        true
    }

    open spec fn from_spec(v: SetupAw) -> Self {
        v@
    }
}

impl Default for SetupAw {
    fn default() -> (r: Self)
        ensures
            r@ == 0x03,
    {
        Self::new()
    }
}

/// # SETUP_RETR register
/// Set up 'Automatic Retransmission'.
///
/// Address = `0x04`
///
/// ## Fields
///
/// #### `ard` | bits 7:4
/// Auto retransmit delay. Enum: [`AutoRetransmitDelay`].
///
/// #### `arc` | bits 3:0
/// Maximum auto retransmits. Default value: `0011` (3 retransmits)
///
/// `0000`: Auto retransmit disabled
///
/// `0001`: Up to 1 retransmit
///
/// `0010`: Up to 2 retransmits
///
/// ……
///
/// `1111`: Up to 15 retransmits
#[derive(Copy, Clone, Debug)]
pub struct SetupRetr(u8);

impl View for SetupRetr {
    type V = u8;

    /// The register byte.
    closed spec fn view(&self) -> u8 {
        self.0
    }
}

impl SetupRetr {
    pub const ADDRESS: u8 = 0x04;

    /// A register holding the default value of every field.
    pub fn new() -> (r: Self)
        ensures
            r@ == 0x03,
            field(r@ as nat, 0, 4) == 3,
    {
        proof {
            lemma2_to64();
        }
        SetupRetr(0x03)
    }

    /// The register holding exactly `bits`.
    pub fn from_bits(bits: u8) -> (r: Self)
        ensures
            r@ == bits,
    {
        SetupRetr(bits)
    }

    /// The register byte.
    pub fn into_bits(self) -> (r: u8)
        ensures
            r == self@,
    {
        self.0
    }

    /// The register's address.
    pub fn address(&self) -> (r: u8)
        ensures
            r == Self::ADDRESS,
    {
        Self::ADDRESS
    }

    /// The SPI byte sequence that writes this value to the register.
    pub fn as_write_bytes(&self) -> (r: [u8; 2])
        ensures
            r@ == seq![WRegister::WORD | Self::ADDRESS, self@],
            r@[0] == 0x24,
    {
        assert(0x20u8 | 0x04 == 0x24) by (bit_vector);
        [WRegister::WORD | Self::ADDRESS, self.0]
    }

    /// The SPI byte sequence that reads the register.
    pub fn as_read_bytes() -> (r: [u8; 2])
        ensures
            r@ == seq![Self::ADDRESS, 0u8],
    {
        [Self::ADDRESS, 0]
    }

    /// Auto retransmit delay. Enum: [`AutoRetransmitDelay`].
    ///
    /// Bits: 4..8
    pub fn ard(&self) -> (r: AutoRetransmitDelay)
        ensures
            r.bits() as nat == field(self@ as nat, 4, 4),
            r.delay_us() == 250 * (field(self@ as nat, 4, 4) + 1),
    {
        proof {
            lemma2_to64();
        }
        let r = AutoRetransmitDelay::from_bits(read_u8(self.0, 4, 4));
        proof {
            r.lemma_meaning();
        }
        r
    }

    /// Auto retransmit delay. Enum: [`AutoRetransmitDelay`].
    ///
    /// Bits: 4..8
    pub fn with_ard(self, value: AutoRetransmitDelay) -> (r: Self)
        ensures
            r@ as nat == with_field(self@ as nat, 4, 4, value.bits() as nat),
    {
        let mut this = self;
        this.set_ard(value);
        this
    }

    /// Auto retransmit delay. Enum: [`AutoRetransmitDelay`].
    ///
    /// Bits: 4..8
    pub fn set_ard(&mut self, value: AutoRetransmitDelay)
        ensures
            final(self)@ as nat == with_field(old(self)@ as nat, 4, 4, value.bits() as nat),
    {
        proof {
            lemma2_to64();
        }
        self.0 = write_u8(self.0, 4, 4, value.into_bits());
    }

    /// Auto retransmit delay. Enum: [`AutoRetransmitDelay`].
    ///
    /// Bits: 4..8
    pub fn with_ard_checked(self, value: AutoRetransmitDelay) -> (r: Result<Self, ()>)
        ensures
            (match r {
                Ok(this) => this@ as nat == with_field(self@ as nat, 4, 4, value.bits() as nat),
                Err(_) => false,
            }),
    {
        Ok(self.with_ard(value))
    }

    /// Auto retransmit delay. Enum: [`AutoRetransmitDelay`].
    ///
    /// Bits: 4..8
    pub fn set_ard_checked(&mut self, value: AutoRetransmitDelay) -> (r: Result<(), ()>)
        ensures
            r is Ok,
            final(self)@ as nat == with_field(old(self)@ as nat, 4, 4, value.bits() as nat),
    {
        self.set_ard(value);
        Ok(())
    }

    /// Maximum auto retransmits. Default value: `0011` (3 retransmits)
    ///
    /// `0000`: Auto retransmit disabled
    ///
    /// `0001`: Up to 1 retransmit
    ///
    /// `0010`: Up to 2 retransmits
    ///
    /// ……
    ///
    /// `1111`: Up to 15 retransmits
    ///
    /// Bits: 0..4
    pub fn arc(&self) -> (r: u8)
        ensures
            r as nat == field(self@ as nat, 0, 4),
    {
        proof {
            lemma2_to64();
        }
        read_u8(self.0, 0, 4)
    }

    /// Maximum auto retransmits. Default value: `0011` (3 retransmits)
    ///
    /// `0000`: Auto retransmit disabled
    ///
    /// `0001`: Up to 1 retransmit
    ///
    /// `0010`: Up to 2 retransmits
    ///
    /// ……
    ///
    /// `1111`: Up to 15 retransmits
    ///
    /// Bits: 0..4
    pub fn with_arc(self, value: u8) -> (r: Self)
        requires
            value <= 0xf,
        ensures
            r@ as nat == with_field(self@ as nat, 0, 4, value as nat),
    {
        let mut this = self;
        this.set_arc(value);
        this
    }

    /// Maximum auto retransmits. Default value: `0011` (3 retransmits)
    ///
    /// `0000`: Auto retransmit disabled
    ///
    /// `0001`: Up to 1 retransmit
    ///
    /// `0010`: Up to 2 retransmits
    ///
    /// ……
    ///
    /// `1111`: Up to 15 retransmits
    ///
    /// Bits: 0..4
    pub fn set_arc(&mut self, value: u8)
        requires
            value <= 0xf,
        ensures
            final(self)@ as nat == with_field(old(self)@ as nat, 0, 4, value as nat),
    {
        proof {
            lemma2_to64();
        }
        self.0 = write_u8(self.0, 0, 4, value);
    }

    /// Maximum auto retransmits. Default value: `0011` (3 retransmits)
    ///
    /// `0000`: Auto retransmit disabled
    ///
    /// `0001`: Up to 1 retransmit
    ///
    /// `0010`: Up to 2 retransmits
    ///
    /// ……
    ///
    /// `1111`: Up to 15 retransmits
    ///
    /// Bits: 0..4
    pub fn with_arc_checked(self, value: u8) -> (r: Result<Self, ()>)
        ensures
            (match r {
                Ok(this) => value <= 0xf && this@ as nat == with_field(self@ as nat, 0, 4, value as nat),
                Err(_) => value > 0xf,
            }),
    {
        if value <= 0xf {
            Ok(self.with_arc(value))
        } else {
            Err(())
        }
    }

    /// Maximum auto retransmits. Default value: `0011` (3 retransmits)
    ///
    /// `0000`: Auto retransmit disabled
    ///
    /// `0001`: Up to 1 retransmit
    ///
    /// `0010`: Up to 2 retransmits
    ///
    /// ……
    ///
    /// `1111`: Up to 15 retransmits
    ///
    /// Bits: 0..4
    pub fn set_arc_checked(&mut self, value: u8) -> (r: Result<(), ()>)
        ensures
            r is Ok <==> value <= 0xf,
            r is Ok ==> final(self)@ as nat == with_field(old(self)@ as nat, 0, 4, value as nat),
            r is Err ==> final(self)@ == old(self)@,
    {
        if value <= 0xf {
            self.set_arc(value);
            Ok(())
        } else {
            Err(())
        }
    }
}

impl From<u8> for SetupRetr {
    fn from(v: u8) -> (r: Self)
        ensures
            r@ == v,
    {
        SetupRetr(v)
    }
}

impl vstd::std_specs::convert::FromSpecImpl<u8> for SetupRetr {
    open spec fn obeys_from_spec() -> bool {
        true
    }

    closed spec fn from_spec(v: u8) -> Self {
        SetupRetr(v)
    }
}

impl From<SetupRetr> for u8 {
    fn from(v: SetupRetr) -> (r: Self)
        ensures
            r == v@,
    {
        v.0
    }
}

impl vstd::std_specs::convert::FromSpecImpl<SetupRetr> for u8 {
    open spec fn obeys_from_spec() -> bool {
        true
    }

    open spec fn from_spec(v: SetupRetr) -> Self {
        v@
    }
}

impl Default for SetupRetr {
    fn default() -> (r: Self)
        ensures
            r@ == 0x03,
    {
        Self::new()
    }
}

/// # RF_CH register
/// Set RF channel.
///
/// Address = `0x05`
///
/// ## Fields
/// #### `rf_ch` | bits 6:0
/// Sets the frequency channel to operate on 0 - 125. Default value: `2`.
#[derive(Copy, Clone, Debug)]
pub struct RfCh(u8);

impl View for RfCh {
    type V = u8;

    /// The register byte.
    closed spec fn view(&self) -> u8 {
        self.0
    }
}

impl RfCh {
    pub const ADDRESS: u8 = 0x05;

    /// A register holding the default value of every field.
    pub fn new() -> (r: Self)
        ensures
            r@ == 0x02,
            field(r@ as nat, 0, 7) == 2,
    {
        proof {
            lemma2_to64();
        }
        RfCh(0x02)
    }

    /// The register holding exactly `bits`.
    pub fn from_bits(bits: u8) -> (r: Self)
        ensures
            r@ == bits,
    {
        RfCh(bits)
    }

    /// The register byte.
    pub fn into_bits(self) -> (r: u8)
        ensures
            r == self@,
    {
        self.0
    }

    /// The register's address.
    pub fn address(&self) -> (r: u8)
        ensures
            r == Self::ADDRESS,
    {
        Self::ADDRESS
    }

    /// The SPI byte sequence that writes this value to the register.
    pub fn as_write_bytes(&self) -> (r: [u8; 2])
        ensures
            r@ == seq![WRegister::WORD | Self::ADDRESS, self@],
            r@[0] == 0x25,
    {
        assert(0x20u8 | 0x05 == 0x25) by (bit_vector);
        [WRegister::WORD | Self::ADDRESS, self.0]
    }

    /// The SPI byte sequence that reads the register.
    pub fn as_read_bytes() -> (r: [u8; 2])
        ensures
            r@ == seq![Self::ADDRESS, 0u8],
    {
        [Self::ADDRESS, 0]
    }

    /// Sets the frequency channel to operate on 0 - 125. Default value: `2`.
    ///
    /// Bits: 0..7
    pub fn rf_ch(&self) -> (r: u8)
        ensures
            r as nat == field(self@ as nat, 0, 7),
    {
        proof {
            lemma2_to64();
        }
        read_u8(self.0, 0, 7)
    }

    /// Sets the frequency channel to operate on 0 - 125. Default value: `2`.
    ///
    /// Bits: 0..7
    pub fn with_rf_ch(self, value: u8) -> (r: Self)
        requires
            value <= 0x7f,
        ensures
            r@ as nat == with_field(self@ as nat, 0, 7, value as nat),
    {
        let mut this = self;
        this.set_rf_ch(value);
        this
    }

    /// Sets the frequency channel to operate on 0 - 125. Default value: `2`.
    ///
    /// Bits: 0..7
    pub fn set_rf_ch(&mut self, value: u8)
        requires
            value <= 0x7f,
        ensures
            final(self)@ as nat == with_field(old(self)@ as nat, 0, 7, value as nat),
    {
        proof {
            lemma2_to64();
        }
        self.0 = write_u8(self.0, 0, 7, value);
    }

    /// Sets the frequency channel to operate on 0 - 125. Default value: `2`.
    ///
    /// Bits: 0..7
    pub fn with_rf_ch_checked(self, value: u8) -> (r: Result<Self, ()>)
        ensures
            (match r {
                Ok(this) => value <= 0x7f && this@ as nat == with_field(self@ as nat, 0, 7, value as nat),
                Err(_) => value > 0x7f,
            }),
    {
        if value <= 0x7f {
            Ok(self.with_rf_ch(value))
        } else {
            Err(())
        }
    }

    /// Sets the frequency channel to operate on 0 - 125. Default value: `2`.
    ///
    /// Bits: 0..7
    pub fn set_rf_ch_checked(&mut self, value: u8) -> (r: Result<(), ()>)
        ensures
            r is Ok <==> value <= 0x7f,
            r is Ok ==> final(self)@ as nat == with_field(old(self)@ as nat, 0, 7, value as nat),
            r is Err ==> final(self)@ == old(self)@,
    {
        if value <= 0x7f {
            self.set_rf_ch(value);
            Ok(())
        } else {
            Err(())
        }
    }
}

impl From<u8> for RfCh {
    fn from(v: u8) -> (r: Self)
        ensures
            r@ == v,
    {
        RfCh(v)
    }
}

impl vstd::std_specs::convert::FromSpecImpl<u8> for RfCh {
    open spec fn obeys_from_spec() -> bool {
        true
    }

    closed spec fn from_spec(v: u8) -> Self {
        RfCh(v)
    }
}

impl From<RfCh> for u8 {
    fn from(v: RfCh) -> (r: Self)
        ensures
            r == v@,
    {
        v.0
    }
}

impl vstd::std_specs::convert::FromSpecImpl<RfCh> for u8 {
    open spec fn obeys_from_spec() -> bool {
        true
    }

    open spec fn from_spec(v: RfCh) -> Self {
        v@
    }
}

impl Default for RfCh {
    fn default() -> (r: Self)
        ensures
            r@ == 0x02,
    {
        Self::new()
    }
}

/// # RF_SETUP register
/// Set RF air data rate and output power.
///
/// Address = `0x06`
///
/// ## Fields
/// #### `cont_wave` | bit 7
/// Enables continuous carrier transmit.
///
/// #### `rf_dr_low` | bit 5
/// Set RF data rate to 250kbps. See `rf_dr_high`.
///
/// #### `pll_lock` | bit 4
/// Force PLL lock signal. Only used in test.
///
/// #### `rf_dr_high` | bit 3
/// Select between the high speed data rates. This bit
/// is don't care if `rf_dr_low` is set. Enum: [`RfDrHigh`].
/// Default value: `1` (2 Mbps).
///
/// Encoding [RF_DR_LOW, RF_DR_HIGH]:
///
/// `00` - 1Mbps
///
/// `01` - 2Mbps
///
/// `10` - 250kbps
///
/// `11` - Reserved
///
/// #### `rf_pwr` | bits 2:1
/// RF output power in TX mode. Enum: [`RfPower`].
/// Default value: `11` (0 dBm).
#[derive(Copy, Clone, Debug)]
pub struct RfSetup(u8);

impl View for RfSetup {
    type V = u8;

    /// The register byte.
    closed spec fn view(&self) -> u8 {
        self.0
    }
}

impl RfSetup {
    pub const ADDRESS: u8 = 0x06;

    /// A register holding the default value of every field.
    pub fn new() -> (r: Self)
        ensures
            r@ == 0x0e,
            field(r@ as nat, 3, 1) == 1,
            field(r@ as nat, 1, 2) == 3,
    {
        proof {
            lemma2_to64();
        }
        RfSetup(0x0e)
    }

    /// The register holding exactly `bits`.
    pub fn from_bits(bits: u8) -> (r: Self)
        ensures
            r@ == bits,
    {
        RfSetup(bits)
    }

    /// The register byte.
    pub fn into_bits(self) -> (r: u8)
        ensures
            r == self@,
    {
        self.0
    }

    /// The register's address.
    pub fn address(&self) -> (r: u8)
        ensures
            r == Self::ADDRESS,
    {
        Self::ADDRESS
    }

    /// The SPI byte sequence that writes this value to the register.
    pub fn as_write_bytes(&self) -> (r: [u8; 2])
        ensures
            r@ == seq![WRegister::WORD | Self::ADDRESS, self@],
            r@[0] == 0x26,
    {
        assert(0x20u8 | 0x06 == 0x26) by (bit_vector);
        [WRegister::WORD | Self::ADDRESS, self.0]
    }

    /// The SPI byte sequence that reads the register.
    pub fn as_read_bytes() -> (r: [u8; 2])
        ensures
            r@ == seq![Self::ADDRESS, 0u8],
    {
        [Self::ADDRESS, 0]
    }

    /// Enables continuous carrier transmit.
    ///
    /// Bits: 7..8
    pub fn cont_wave(&self) -> (r: bool)
        ensures
            r == (field(self@ as nat, 7, 1) == 1),
    {
        proof {
            lemma2_to64();
        }
        read_u8(self.0, 7, 1) != 0
    }

    /// Enables continuous carrier transmit.
    ///
    /// Bits: 7..8
    pub fn with_cont_wave(self, value: bool) -> (r: Self)
        ensures
            r@ as nat == with_field(self@ as nat, 7, 1, bit_value(value)),
    {
        let mut this = self;
        this.set_cont_wave(value);
        this
    }

    /// Enables continuous carrier transmit.
    ///
    /// Bits: 7..8
    pub fn set_cont_wave(&mut self, value: bool)
        ensures
            final(self)@ as nat == with_field(old(self)@ as nat, 7, 1, bit_value(value)),
    {
        proof {
            lemma2_to64();
        }
        self.0 = write_u8(self.0, 7, 1, if value { 1 } else { 0 });
    }

    /// Enables continuous carrier transmit.
    ///
    /// Bits: 7..8
    pub fn with_cont_wave_checked(self, value: bool) -> (r: Result<Self, ()>)
        ensures
            (match r {
                Ok(this) => this@ as nat == with_field(self@ as nat, 7, 1, bit_value(value)),
                Err(_) => false,
            }),
    {
        Ok(self.with_cont_wave(value))
    }

    /// Enables continuous carrier transmit.
    ///
    /// Bits: 7..8
    pub fn set_cont_wave_checked(&mut self, value: bool) -> (r: Result<(), ()>)
        ensures
            r is Ok,
            final(self)@ as nat == with_field(old(self)@ as nat, 7, 1, bit_value(value)),
    {
        self.set_cont_wave(value);
        Ok(())
    }

    /// Set RF data rate to 250kbps. See `rf_dr_high`.
    ///
    /// Bits: 5..6
    pub fn rf_dr_low(&self) -> (r: bool)
        ensures
            r == (field(self@ as nat, 5, 1) == 1),
    {
        proof {
            lemma2_to64();
        }
        read_u8(self.0, 5, 1) != 0
    }

    /// Set RF data rate to 250kbps. See `rf_dr_high`.
    ///
    /// Bits: 5..6
    pub fn with_rf_dr_low(self, value: bool) -> (r: Self)
        ensures
            r@ as nat == with_field(self@ as nat, 5, 1, bit_value(value)),
    {
        let mut this = self;
        this.set_rf_dr_low(value);
        this
    }

    /// Set RF data rate to 250kbps. See `rf_dr_high`.
    ///
    /// Bits: 5..6
    pub fn set_rf_dr_low(&mut self, value: bool)
        ensures
            final(self)@ as nat == with_field(old(self)@ as nat, 5, 1, bit_value(value)),
    {
        proof {
            lemma2_to64();
        }
        self.0 = write_u8(self.0, 5, 1, if value { 1 } else { 0 });
    }

    /// Set RF data rate to 250kbps. See `rf_dr_high`.
    ///
    /// Bits: 5..6
    pub fn with_rf_dr_low_checked(self, value: bool) -> (r: Result<Self, ()>)
        ensures
            (match r {
                Ok(this) => this@ as nat == with_field(self@ as nat, 5, 1, bit_value(value)),
                Err(_) => false,
            }),
    {
        Ok(self.with_rf_dr_low(value))
    }

    /// Set RF data rate to 250kbps. See `rf_dr_high`.
    ///
    /// Bits: 5..6
    pub fn set_rf_dr_low_checked(&mut self, value: bool) -> (r: Result<(), ()>)
        ensures
            r is Ok,
            final(self)@ as nat == with_field(old(self)@ as nat, 5, 1, bit_value(value)),
    {
        self.set_rf_dr_low(value);
        Ok(())
    }

    /// Force PLL lock signal. Only used in test.
    ///
    /// Bits: 4..5
    pub fn pll_lock(&self) -> (r: bool)
        ensures
            r == (field(self@ as nat, 4, 1) == 1),
    {
        proof {
            lemma2_to64();
        }
        read_u8(self.0, 4, 1) != 0
    }

    /// Force PLL lock signal. Only used in test.
    ///
    /// Bits: 4..5
    pub fn with_pll_lock(self, value: bool) -> (r: Self)
        ensures
            r@ as nat == with_field(self@ as nat, 4, 1, bit_value(value)),
    {
        let mut this = self;
        this.set_pll_lock(value);
        this
    }

    /// Force PLL lock signal. Only used in test.
    ///
    /// Bits: 4..5
    pub fn set_pll_lock(&mut self, value: bool)
        ensures
            final(self)@ as nat == with_field(old(self)@ as nat, 4, 1, bit_value(value)),
    {
        proof {
            lemma2_to64();
        }
        self.0 = write_u8(self.0, 4, 1, if value { 1 } else { 0 });
    }

    /// Force PLL lock signal. Only used in test.
    ///
    /// Bits: 4..5
    pub fn with_pll_lock_checked(self, value: bool) -> (r: Result<Self, ()>)
        ensures
            (match r {
                Ok(this) => this@ as nat == with_field(self@ as nat, 4, 1, bit_value(value)),
                Err(_) => false,
            }),
    {
        Ok(self.with_pll_lock(value))
    }

    /// Force PLL lock signal. Only used in test.
    ///
    /// Bits: 4..5
    pub fn set_pll_lock_checked(&mut self, value: bool) -> (r: Result<(), ()>)
        ensures
            r is Ok,
            final(self)@ as nat == with_field(old(self)@ as nat, 4, 1, bit_value(value)),
    {
        self.set_pll_lock(value);
        Ok(())
    }

    /// Select between the high speed data rates. This bit
    /// is don't care if `rf_dr_low` is set. Enum: [`RfDrHigh`].
    /// Default value: `1` (2 Mbps).
    ///
    /// Encoding [RF_DR_LOW, RF_DR_HIGH]:
    ///
    /// `00` - 1Mbps
    ///
    /// `01` - 2Mbps
    ///
    /// `10` - 250kbps
    ///
    /// `11` - Reserved
    ///
    /// Bits: 3..4
    pub fn rf_dr_high(&self) -> (r: RfDrHigh)
        ensures
            r.bits() as nat == field(self@ as nat, 3, 1),
            r.mbps() == field(self@ as nat, 3, 1) + 1,
    {
        proof {
            lemma2_to64();
        }
        let r = RfDrHigh::from_bits(read_u8(self.0, 3, 1));
        proof {
            r.lemma_meaning();
        }
        r
    }

    /// Select between the high speed data rates. This bit
    /// is don't care if `rf_dr_low` is set. Enum: [`RfDrHigh`].
    /// Default value: `1` (2 Mbps).
    ///
    /// Encoding [RF_DR_LOW, RF_DR_HIGH]:
    ///
    /// `00` - 1Mbps
    ///
    /// `01` - 2Mbps
    ///
    /// `10` - 250kbps
    ///
    /// `11` - Reserved
    ///
    /// Bits: 3..4
    pub fn with_rf_dr_high(self, value: RfDrHigh) -> (r: Self)
        ensures
            r@ as nat == with_field(self@ as nat, 3, 1, value.bits() as nat),
    {
        let mut this = self;
        this.set_rf_dr_high(value);
        this
    }

    /// Select between the high speed data rates. This bit
    /// is don't care if `rf_dr_low` is set. Enum: [`RfDrHigh`].
    /// Default value: `1` (2 Mbps).
    ///
    /// Encoding [RF_DR_LOW, RF_DR_HIGH]:
    ///
    /// `00` - 1Mbps
    ///
    /// `01` - 2Mbps
    ///
    /// `10` - 250kbps
    ///
    /// `11` - Reserved
    ///
    /// Bits: 3..4
    pub fn set_rf_dr_high(&mut self, value: RfDrHigh)
        ensures
            final(self)@ as nat == with_field(old(self)@ as nat, 3, 1, value.bits() as nat),
    {
        proof {
            lemma2_to64();
        }
        self.0 = write_u8(self.0, 3, 1, value.into_bits());
    }

    /// Select between the high speed data rates. This bit
    /// is don't care if `rf_dr_low` is set. Enum: [`RfDrHigh`].
    /// Default value: `1` (2 Mbps).
    ///
    /// Encoding [RF_DR_LOW, RF_DR_HIGH]:
    ///
    /// `00` - 1Mbps
    ///
    /// `01` - 2Mbps
    ///
    /// `10` - 250kbps
    ///
    /// `11` - Reserved
    ///
    /// Bits: 3..4
    pub fn with_rf_dr_high_checked(self, value: RfDrHigh) -> (r: Result<Self, ()>)
        ensures
            (match r {
                Ok(this) => this@ as nat == with_field(self@ as nat, 3, 1, value.bits() as nat),
                Err(_) => false,
            }),
    {
        Ok(self.with_rf_dr_high(value))
    }

    /// Select between the high speed data rates. This bit
    /// is don't care if `rf_dr_low` is set. Enum: [`RfDrHigh`].
    /// Default value: `1` (2 Mbps).
    ///
    /// Encoding [RF_DR_LOW, RF_DR_HIGH]:
    ///
    /// `00` - 1Mbps
    ///
    /// `01` - 2Mbps
    ///
    /// `10` - 250kbps
    ///
    /// `11` - Reserved
    ///
    /// Bits: 3..4
    pub fn set_rf_dr_high_checked(&mut self, value: RfDrHigh) -> (r: Result<(), ()>)
        ensures
            r is Ok,
            final(self)@ as nat == with_field(old(self)@ as nat, 3, 1, value.bits() as nat),
    {
        self.set_rf_dr_high(value);
        Ok(())
    }

    /// RF output power in TX mode. Enum: [`RfPower`].
    /// Default value: `11` (0 dBm).
    ///
    /// Bits: 1..3
    pub fn rf_pwr(&self) -> (r: RfPower)
        ensures
            r.bits() as nat == field(self@ as nat, 1, 2),
            r.dbm() == 6 * field(self@ as nat, 1, 2) - 18,
    {
        proof {
            lemma2_to64();
        }
        let r = RfPower::from_bits(read_u8(self.0, 1, 2));
        proof {
            r.lemma_meaning();
        }
        r
    }

    /// RF output power in TX mode. Enum: [`RfPower`].
    /// Default value: `11` (0 dBm).
    ///
    /// Bits: 1..3
    pub fn with_rf_pwr(self, value: RfPower) -> (r: Self)
        ensures
            r@ as nat == with_field(self@ as nat, 1, 2, value.bits() as nat),
    {
        let mut this = self;
        this.set_rf_pwr(value);
        this
    }

    /// RF output power in TX mode. Enum: [`RfPower`].
    /// Default value: `11` (0 dBm).
    ///
    /// Bits: 1..3
    pub fn set_rf_pwr(&mut self, value: RfPower)
        ensures
            final(self)@ as nat == with_field(old(self)@ as nat, 1, 2, value.bits() as nat),
    {
        proof {
            lemma2_to64();
        }
        self.0 = write_u8(self.0, 1, 2, value.into_bits());
    }

    /// RF output power in TX mode. Enum: [`RfPower`].
    /// Default value: `11` (0 dBm).
    ///
    /// Bits: 1..3
    pub fn with_rf_pwr_checked(self, value: RfPower) -> (r: Result<Self, ()>)
        ensures
            (match r {
                Ok(this) => this@ as nat == with_field(self@ as nat, 1, 2, value.bits() as nat),
                Err(_) => false,
            }),
    {
        Ok(self.with_rf_pwr(value))
    }

    /// RF output power in TX mode. Enum: [`RfPower`].
    /// Default value: `11` (0 dBm).
    ///
    /// Bits: 1..3
    pub fn set_rf_pwr_checked(&mut self, value: RfPower) -> (r: Result<(), ()>)
        ensures
            r is Ok,
            final(self)@ as nat == with_field(old(self)@ as nat, 1, 2, value.bits() as nat),
    {
        self.set_rf_pwr(value);
        Ok(())
    }
}

impl From<u8> for RfSetup {
    fn from(v: u8) -> (r: Self)
        ensures
            r@ == v,
    {
        RfSetup(v)
    }
}

impl vstd::std_specs::convert::FromSpecImpl<u8> for RfSetup {
    open spec fn obeys_from_spec() -> bool {
        true
    }

    closed spec fn from_spec(v: u8) -> Self {
        RfSetup(v)
    }
}

impl From<RfSetup> for u8 {
    fn from(v: RfSetup) -> (r: Self)
        ensures
            r == v@,
    {
        v.0
    }
}

impl vstd::std_specs::convert::FromSpecImpl<RfSetup> for u8 {
    open spec fn obeys_from_spec() -> bool {
        true
    }

    open spec fn from_spec(v: RfSetup) -> Self {
        v@
    }
}

impl Default for RfSetup {
    fn default() -> (r: Self)
        ensures
            r@ == 0x0e,
    {
        Self::new()
    }
}

/// # STATUS register
///
/// Address = `0x07`
///
/// ## Fields
/// #### `rx_dr` | bit 6
/// Data ready RX FIFO interrupt. Asserted when new data arrives in RX FIFO. Write 1 to clear bit.
///
/// #### `tx_ds` | bit 5
/// Data sent TX FIFO interrupt. Asserted when packet is transmitted. If AUTO_ACK is activated, ACK must be received before interrupt goes high. Write 1 to clear bit.
///
/// #### `max_rt` | bit 4
/// Maximum number of TX retransmits interrupt. If MAX_RT is asserted it must be cleared before communication can continue. Write 1 to clear bit.
///
/// #### `rx_p_no` | bits 3:1
/// Data pipe number for the payload available from reading RX FIFO. This field is read-only.
/// Enum: [`RxPipeNo`].
///
/// #### `tx_full` | bit 0
/// TX FIFO full flag. This field is read-only.
///
/// `0`: Not full
///
/// `1`: TX FIFO full
#[derive(Copy, Clone, Debug)]
pub struct Status(u8);

impl View for Status {
    type V = u8;

    /// The register byte.
    closed spec fn view(&self) -> u8 {
        self.0
    }
}

impl Status {
    pub const ADDRESS: u8 = 0x07;

    /// A register holding the default value of every field.
    pub fn new() -> (r: Self)
        ensures
            r@ == 0x00,
    {
        proof {
            lemma2_to64();
        }
        Status(0x00)
    }

    /// The register holding exactly `bits`.
    pub fn from_bits(bits: u8) -> (r: Self)
        ensures
            r@ == bits,
    {
        Status(bits)
    }

    /// The register byte.
    pub fn into_bits(self) -> (r: u8)
        ensures
            r == self@,
    {
        self.0
    }

    /// The register's address.
    pub fn address(&self) -> (r: u8)
        ensures
            r == Self::ADDRESS,
    {
        Self::ADDRESS
    }

    /// The SPI byte sequence that writes this value to the register.
    pub fn as_write_bytes(&self) -> (r: [u8; 2])
        ensures
            r@ == seq![WRegister::WORD | Self::ADDRESS, self@],
            r@[0] == 0x27,
    {
        assert(0x20u8 | 0x07 == 0x27) by (bit_vector);
        [WRegister::WORD | Self::ADDRESS, self.0]
    }

    /// The SPI byte sequence that reads the register.
    pub fn as_read_bytes() -> (r: [u8; 2])
        ensures
            r@ == seq![Self::ADDRESS, 0u8],
    {
        [Self::ADDRESS, 0]
    }

    /// Data ready RX FIFO interrupt. Asserted when new data arrives in RX FIFO. Write 1 to clear bit.
    ///
    /// Bits: 6..7
    pub fn rx_dr(&self) -> (r: bool)
        ensures
            r == (field(self@ as nat, 6, 1) == 1),
    {
        proof {
            lemma2_to64();
        }
        read_u8(self.0, 6, 1) != 0
    }

    /// Data ready RX FIFO interrupt. Asserted when new data arrives in RX FIFO. Write 1 to clear bit.
    ///
    /// Bits: 6..7
    pub fn with_rx_dr(self, value: bool) -> (r: Self)
        ensures
            r@ as nat == with_field(self@ as nat, 6, 1, bit_value(value)),
    {
        let mut this = self;
        this.set_rx_dr(value);
        this
    }

    /// Data ready RX FIFO interrupt. Asserted when new data arrives in RX FIFO. Write 1 to clear bit.
    ///
    /// Bits: 6..7
    pub fn set_rx_dr(&mut self, value: bool)
        ensures
            final(self)@ as nat == with_field(old(self)@ as nat, 6, 1, bit_value(value)),
    {
        proof {
            lemma2_to64();
        }
        self.0 = write_u8(self.0, 6, 1, if value { 1 } else { 0 });
    }

    /// Data ready RX FIFO interrupt. Asserted when new data arrives in RX FIFO. Write 1 to clear bit.
    ///
    /// Bits: 6..7
    pub fn with_rx_dr_checked(self, value: bool) -> (r: Result<Self, ()>)
        ensures
            (match r {
                Ok(this) => this@ as nat == with_field(self@ as nat, 6, 1, bit_value(value)),
                Err(_) => false,
            }),
    {
        Ok(self.with_rx_dr(value))
    }

    /// Data ready RX FIFO interrupt. Asserted when new data arrives in RX FIFO. Write 1 to clear bit.
    ///
    /// Bits: 6..7
    pub fn set_rx_dr_checked(&mut self, value: bool) -> (r: Result<(), ()>)
        ensures
            r is Ok,
            final(self)@ as nat == with_field(old(self)@ as nat, 6, 1, bit_value(value)),
    {
        self.set_rx_dr(value);
        Ok(())
    }

    /// Data sent TX FIFO interrupt. Asserted when packet is transmitted. If AUTO_ACK is activated, ACK must be received before interrupt goes high. Write 1 to clear bit.
    ///
    /// Bits: 5..6
    pub fn tx_ds(&self) -> (r: bool)
        ensures
            r == (field(self@ as nat, 5, 1) == 1),
    {
        proof {
            lemma2_to64();
        }
        read_u8(self.0, 5, 1) != 0
    }

    /// Data sent TX FIFO interrupt. Asserted when packet is transmitted. If AUTO_ACK is activated, ACK must be received before interrupt goes high. Write 1 to clear bit.
    ///
    /// Bits: 5..6
    pub fn with_tx_ds(self, value: bool) -> (r: Self)
        ensures
            r@ as nat == with_field(self@ as nat, 5, 1, bit_value(value)),
    {
        let mut this = self;
        this.set_tx_ds(value);
        this
    }

    /// Data sent TX FIFO interrupt. Asserted when packet is transmitted. If AUTO_ACK is activated, ACK must be received before interrupt goes high. Write 1 to clear bit.
    ///
    /// Bits: 5..6
    pub fn set_tx_ds(&mut self, value: bool)
        ensures
            final(self)@ as nat == with_field(old(self)@ as nat, 5, 1, bit_value(value)),
    {
        proof {
            lemma2_to64();
        }
        self.0 = write_u8(self.0, 5, 1, if value { 1 } else { 0 });
    }

    /// Data sent TX FIFO interrupt. Asserted when packet is transmitted. If AUTO_ACK is activated, ACK must be received before interrupt goes high. Write 1 to clear bit.
    ///
    /// Bits: 5..6
    pub fn with_tx_ds_checked(self, value: bool) -> (r: Result<Self, ()>)
        ensures
            (match r {
                Ok(this) => this@ as nat == with_field(self@ as nat, 5, 1, bit_value(value)),
                Err(_) => false,
            }),
    {
        Ok(self.with_tx_ds(value))
    }

    /// Data sent TX FIFO interrupt. Asserted when packet is transmitted. If AUTO_ACK is activated, ACK must be received before interrupt goes high. Write 1 to clear bit.
    ///
    /// Bits: 5..6
    pub fn set_tx_ds_checked(&mut self, value: bool) -> (r: Result<(), ()>)
        ensures
            r is Ok,
            final(self)@ as nat == with_field(old(self)@ as nat, 5, 1, bit_value(value)),
    {
        self.set_tx_ds(value);
        Ok(())
    }

    /// Maximum number of TX retransmits interrupt. If MAX_RT is asserted it must be cleared before communication can continue. Write 1 to clear bit.
    ///
    /// Bits: 4..5
    pub fn max_rt(&self) -> (r: bool)
        ensures
            r == (field(self@ as nat, 4, 1) == 1),
    {
        proof {
            lemma2_to64();
        }
        read_u8(self.0, 4, 1) != 0
    }

    /// Maximum number of TX retransmits interrupt. If MAX_RT is asserted it must be cleared before communication can continue. Write 1 to clear bit.
    ///
    /// Bits: 4..5
    pub fn with_max_rt(self, value: bool) -> (r: Self)
        ensures
            r@ as nat == with_field(self@ as nat, 4, 1, bit_value(value)),
    {
        let mut this = self;
        this.set_max_rt(value);
        this
    }

    /// Maximum number of TX retransmits interrupt. If MAX_RT is asserted it must be cleared before communication can continue. Write 1 to clear bit.
    ///
    /// Bits: 4..5
    pub fn set_max_rt(&mut self, value: bool)
        ensures
            final(self)@ as nat == with_field(old(self)@ as nat, 4, 1, bit_value(value)),
    {
        proof {
            lemma2_to64();
        }
        self.0 = write_u8(self.0, 4, 1, if value { 1 } else { 0 });
    }

    /// Maximum number of TX retransmits interrupt. If MAX_RT is asserted it must be cleared before communication can continue. Write 1 to clear bit.
    ///
    /// Bits: 4..5
    pub fn with_max_rt_checked(self, value: bool) -> (r: Result<Self, ()>)
        ensures
            (match r {
                Ok(this) => this@ as nat == with_field(self@ as nat, 4, 1, bit_value(value)),
                Err(_) => false,
            }),
    {
        Ok(self.with_max_rt(value))
    }

    /// Maximum number of TX retransmits interrupt. If MAX_RT is asserted it must be cleared before communication can continue. Write 1 to clear bit.
    ///
    /// Bits: 4..5
    pub fn set_max_rt_checked(&mut self, value: bool) -> (r: Result<(), ()>)
        ensures
            r is Ok,
            final(self)@ as nat == with_field(old(self)@ as nat, 4, 1, bit_value(value)),
    {
        self.set_max_rt(value);
        Ok(())
    }

    /// Data pipe number for the payload available from reading RX FIFO. This field is read-only.
    /// Enum: [`RxPipeNo`].
    ///
    /// Bits: 1..4
    pub fn rx_p_no(&self) -> (r: RxPipeNo)
        ensures
            r.bits() as nat == field(self@ as nat, 1, 3),
            r.data_pipe() == (if field(self@ as nat, 1, 3) < 6 { Some(field(self@ as nat, 1, 3)) } else { None }),
            (field(self@ as nat, 1, 3) == 7) == (r == RxPipeNo::RxFifoEmpty),
    {
        proof {
            lemma2_to64();
        }
        let r = RxPipeNo::from_bits(read_u8(self.0, 1, 3));
        proof {
            r.lemma_meaning();
        }
        r
    }

    /// TX FIFO full flag. This field is read-only.
    ///
    /// `0`: Not full
    ///
    /// `1`: TX FIFO full
    ///
    /// Bits: 0..1
    pub fn tx_full(&self) -> (r: bool)
        ensures
            r == (field(self@ as nat, 0, 1) == 1),
    {
        proof {
            lemma2_to64();
        }
        read_u8(self.0, 0, 1) != 0
    }
}

impl From<u8> for Status {
    fn from(v: u8) -> (r: Self)
        ensures
            r@ == v,
    {
        Status(v)
    }
}

impl vstd::std_specs::convert::FromSpecImpl<u8> for Status {
    open spec fn obeys_from_spec() -> bool {
        true
    }

    closed spec fn from_spec(v: u8) -> Self {
        Status(v)
    }
}

impl From<Status> for u8 {
    fn from(v: Status) -> (r: Self)
        ensures
            r == v@,
    {
        v.0
    }
}

impl vstd::std_specs::convert::FromSpecImpl<Status> for u8 {
    open spec fn obeys_from_spec() -> bool {
        true
    }

    open spec fn from_spec(v: Status) -> Self {
        v@
    }
}

impl Default for Status {
    fn default() -> (r: Self)
        ensures
            r@ == 0x00,
    {
        Self::new()
    }
}

/// # OBSERVE_TX register
/// Transmit observe register.
///
/// Address = `0x08`
///
/// #### `plos_cnt` | bits 7:4
/// Count lost packets. This counter is overflow protected to 15,
/// and continues at max until reset. This counter is reset by writing
/// to [`RfCh`]. This field is read-only.
///
/// #### `arc_cnt` | 3:0
/// Count retransmitted packets. The counter is reset when transmission
/// of a new packet starts. This field is read-only.
#[derive(Copy, Clone, Debug)]
pub struct ObserveTx(u8);

impl View for ObserveTx {
    type V = u8;

    /// The register byte.
    closed spec fn view(&self) -> u8 {
        self.0
    }
}

impl ObserveTx {
    pub const ADDRESS: u8 = 0x08;

    /// A register holding the default value of every field.
    pub fn new() -> (r: Self)
        ensures
            r@ == 0x00,
    {
        proof {
            lemma2_to64();
        }
        ObserveTx(0x00)
    }

    /// The register holding exactly `bits`.
    pub fn from_bits(bits: u8) -> (r: Self)
        ensures
            r@ == bits,
    {
        ObserveTx(bits)
    }

    /// The register byte.
    pub fn into_bits(self) -> (r: u8)
        ensures
            r == self@,
    {
        self.0
    }

    /// The register's address.
    pub fn address(&self) -> (r: u8)
        ensures
            r == Self::ADDRESS,
    {
        Self::ADDRESS
    }

    /// The SPI byte sequence that writes this value to the register.
    pub fn as_write_bytes(&self) -> (r: [u8; 2])
        ensures
            r@ == seq![WRegister::WORD | Self::ADDRESS, self@],
            r@[0] == 0x28,
    {
        assert(0x20u8 | 0x08 == 0x28) by (bit_vector);
        [WRegister::WORD | Self::ADDRESS, self.0]
    }

    /// The SPI byte sequence that reads the register.
    pub fn as_read_bytes() -> (r: [u8; 2])
        ensures
            r@ == seq![Self::ADDRESS, 0u8],
    {
        [Self::ADDRESS, 0]
    }

    /// Count lost packets. This counter is overflow protected to 15,
    /// and continues at max until reset. This counter is reset by writing
    /// to __RF_CH__. This field is read-only.
    ///
    /// Bits: 4..8
    pub fn plos_cnt(&self) -> (r: u8)
        ensures
            r as nat == field(self@ as nat, 4, 4),
    {
        proof {
            lemma2_to64();
        }
        read_u8(self.0, 4, 4)
    }

    /// Count retransmitted packets. The counter is reset when transmission
    /// of a new packet starts. This field is read-only.
    ///
    /// Bits: 0..4
    pub fn arc_cnt(&self) -> (r: u8)
        ensures
            r as nat == field(self@ as nat, 0, 4),
    {
        proof {
            lemma2_to64();
        }
        read_u8(self.0, 0, 4)
    }
}

impl From<u8> for ObserveTx {
    fn from(v: u8) -> (r: Self)
        ensures
            r@ == v,
    {
        ObserveTx(v)
    }
}

impl vstd::std_specs::convert::FromSpecImpl<u8> for ObserveTx {
    open spec fn obeys_from_spec() -> bool {
        true
    }

    closed spec fn from_spec(v: u8) -> Self {
        ObserveTx(v)
    }
}

impl From<ObserveTx> for u8 {
    fn from(v: ObserveTx) -> (r: Self)
        ensures
            r == v@,
    {
        v.0
    }
}

impl vstd::std_specs::convert::FromSpecImpl<ObserveTx> for u8 {
    open spec fn obeys_from_spec() -> bool {
        true
    }

    open spec fn from_spec(v: ObserveTx) -> Self {
        v@
    }
}

impl Default for ObserveTx {
    fn default() -> (r: Self)
        ensures
            r@ == 0x00,
    {
        Self::new()
    }
}

/// # RPD register
/// Received power detector.
///
/// Address = `0x09`
///
/// ## Fields
/// #### `rpd` | bit 0
/// Triggers at received power levels above -64 dBm that are present
/// in the RF channel you receive on. If the received power is less
/// than -64 dBm, RDP = 0.
#[derive(Copy, Clone, Debug)]
pub struct Rpd(u8);

impl View for Rpd {
    type V = u8;

    /// The register byte.
    closed spec fn view(&self) -> u8 {
        self.0
    }
}

impl Rpd {
    pub const ADDRESS: u8 = 0x09;

    /// A register holding the default value of every field.
    pub fn new() -> (r: Self)
        ensures
            r@ == 0x00,
    {
        proof {
            lemma2_to64();
        }
        Rpd(0x00)
    }

    /// The register holding exactly `bits`.
    pub fn from_bits(bits: u8) -> (r: Self)
        ensures
            r@ == bits,
    {
        Rpd(bits)
    }

    /// The register byte.
    pub fn into_bits(self) -> (r: u8)
        ensures
            r == self@,
    {
        self.0
    }

    /// The register's address.
    pub fn address(&self) -> (r: u8)
        ensures
            r == Self::ADDRESS,
    {
        Self::ADDRESS
    }

    /// The SPI byte sequence that writes this value to the register.
    pub fn as_write_bytes(&self) -> (r: [u8; 2])
        ensures
            r@ == seq![WRegister::WORD | Self::ADDRESS, self@],
            r@[0] == 0x29,
    {
        assert(0x20u8 | 0x09 == 0x29) by (bit_vector);
        [WRegister::WORD | Self::ADDRESS, self.0]
    }

    /// The SPI byte sequence that reads the register.
    pub fn as_read_bytes() -> (r: [u8; 2])
        ensures
            r@ == seq![Self::ADDRESS, 0u8],
    {
        [Self::ADDRESS, 0]
    }

    /// Triggers at received power levels above -64 dBm that are present
    /// in the RF channel you receive on. If the received power is less
    /// than -64 dBm, RDP = 0.
    ///
    /// Bits: 0..1
    pub fn rpd(&self) -> (r: bool)
        ensures
            r == (field(self@ as nat, 0, 1) == 1),
    {
        proof {
            lemma2_to64();
        }
        read_u8(self.0, 0, 1) != 0
    }
}

impl From<u8> for Rpd {
    fn from(v: u8) -> (r: Self)
        ensures
            r@ == v,
    {
        Rpd(v)
    }
}

impl vstd::std_specs::convert::FromSpecImpl<u8> for Rpd {
    open spec fn obeys_from_spec() -> bool {
        true
    }

    closed spec fn from_spec(v: u8) -> Self {
        Rpd(v)
    }
}

impl From<Rpd> for u8 {
    fn from(v: Rpd) -> (r: Self)
        ensures
            r == v@,
    {
        v.0
    }
}

impl vstd::std_specs::convert::FromSpecImpl<Rpd> for u8 {
    open spec fn obeys_from_spec() -> bool {
        true
    }

    open spec fn from_spec(v: Rpd) -> Self {
        v@
    }
}

impl Default for Rpd {
    fn default() -> (r: Self)
        ensures
            r@ == 0x00,
    {
        Self::new()
    }
}

/// # RX_ADDR_P2 register
/// RX address data pipe 2. Only LSByte is stored.
/// MSBytes are equal to [`RxAddrP1`] bits 39:8.
///
/// Address = `0x0C`
///
/// ## Fields
/// #### `rx_addr_p2` | bits 7:0
/// RX address data pipe 2. Default value: `0xC3`.
#[derive(Copy, Clone, Debug)]
pub struct RxAddrP2(u8);

impl View for RxAddrP2 {
    type V = u8;

    /// The register byte.
    closed spec fn view(&self) -> u8 {
        self.0
    }
}

impl RxAddrP2 {
    pub const ADDRESS: u8 = 0x0C;

    /// A register holding the default value of every field.
    pub fn new() -> (r: Self)
        ensures
            r@ == 0xc3,
            field(r@ as nat, 0, 8) == 195,
    {
        proof {
            lemma2_to64();
        }
        RxAddrP2(0xc3)
    }

    /// The register holding exactly `bits`.
    pub fn from_bits(bits: u8) -> (r: Self)
        ensures
            r@ == bits,
    {
        RxAddrP2(bits)
    }

    /// The register byte.
    pub fn into_bits(self) -> (r: u8)
        ensures
            r == self@,
    {
        self.0
    }

    /// The register's address.
    pub fn address(&self) -> (r: u8)
        ensures
            r == Self::ADDRESS,
    {
        Self::ADDRESS
    }

    /// The SPI byte sequence that writes this value to the register.
    pub fn as_write_bytes(&self) -> (r: [u8; 2])
        ensures
            r@ == seq![WRegister::WORD | Self::ADDRESS, self@],
            r@[0] == 0x2c,
    {
        assert(0x20u8 | 0x0C == 0x2c) by (bit_vector);
        [WRegister::WORD | Self::ADDRESS, self.0]
    }

    /// The SPI byte sequence that reads the register.
    pub fn as_read_bytes() -> (r: [u8; 2])
        ensures
            r@ == seq![Self::ADDRESS, 0u8],
    {
        [Self::ADDRESS, 0]
    }

    /// RX address data pipe 2. Default value: `0xC3`.
    ///
    /// Bits: 0..8
    pub fn rx_addr_p2(&self) -> (r: u8)
        ensures
            r as nat == field(self@ as nat, 0, 8),
    {
        proof {
            lemma2_to64();
        }
        read_u8(self.0, 0, 8)
    }

    /// RX address data pipe 2. Default value: `0xC3`.
    ///
    /// Bits: 0..8
    pub fn with_rx_addr_p2(self, value: u8) -> (r: Self)
        ensures
            r@ as nat == with_field(self@ as nat, 0, 8, value as nat),
    {
        let mut this = self;
        this.set_rx_addr_p2(value);
        this
    }

    /// RX address data pipe 2. Default value: `0xC3`.
    ///
    /// Bits: 0..8
    pub fn set_rx_addr_p2(&mut self, value: u8)
        ensures
            final(self)@ as nat == with_field(old(self)@ as nat, 0, 8, value as nat),
    {
        proof {
            lemma2_to64();
        }
        self.0 = write_u8(self.0, 0, 8, value);
    }

    /// RX address data pipe 2. Default value: `0xC3`.
    ///
    /// Bits: 0..8
    pub fn with_rx_addr_p2_checked(self, value: u8) -> (r: Result<Self, ()>)
        ensures
            (match r {
                Ok(this) => this@ as nat == with_field(self@ as nat, 0, 8, value as nat),
                Err(_) => false,
            }),
    {
        Ok(self.with_rx_addr_p2(value))
    }

    /// RX address data pipe 2. Default value: `0xC3`.
    ///
    /// Bits: 0..8
    pub fn set_rx_addr_p2_checked(&mut self, value: u8) -> (r: Result<(), ()>)
        ensures
            r is Ok,
            final(self)@ as nat == with_field(old(self)@ as nat, 0, 8, value as nat),
    {
        self.set_rx_addr_p2(value);
        Ok(())
    }
}

impl From<u8> for RxAddrP2 {
    fn from(v: u8) -> (r: Self)
        ensures
            r@ == v,
    {
        RxAddrP2(v)
    }
}

impl vstd::std_specs::convert::FromSpecImpl<u8> for RxAddrP2 {
    open spec fn obeys_from_spec() -> bool {
        true
    }

    closed spec fn from_spec(v: u8) -> Self {
        RxAddrP2(v)
    }
}

impl From<RxAddrP2> for u8 {
    fn from(v: RxAddrP2) -> (r: Self)
        ensures
            r == v@,
    {
        v.0
    }
}

impl vstd::std_specs::convert::FromSpecImpl<RxAddrP2> for u8 {
    open spec fn obeys_from_spec() -> bool {
        true
    }

    open spec fn from_spec(v: RxAddrP2) -> Self {
        v@
    }
}

impl Default for RxAddrP2 {
    fn default() -> (r: Self)
        ensures
            r@ == 0xc3,
    {
        Self::new()
    }
}

/// # RX_ADDR_P3 register
/// RX address data pipe 3. Only LSByte is stored.
/// MSBytes are equal to [`RxAddrP1`] bits 39:8.
///
/// Address = `0x0D`
///
/// ## Fields
/// #### `rx_addr_p3` | bits 7:0
/// RX address data pipe 3. Default value: `0xC4`.
#[derive(Copy, Clone, Debug)]
pub struct RxAddrP3(u8);

impl View for RxAddrP3 {
    type V = u8;

    /// The register byte.
    closed spec fn view(&self) -> u8 {
        self.0
    }
}

impl RxAddrP3 {
    pub const ADDRESS: u8 = 0x0D;

    /// A register holding the default value of every field.
    pub fn new() -> (r: Self)
        ensures
            r@ == 0xc4,
            field(r@ as nat, 0, 8) == 196,
    {
        proof {
            lemma2_to64();
        }
        RxAddrP3(0xc4)
    }

    /// The register holding exactly `bits`.
    pub fn from_bits(bits: u8) -> (r: Self)
        ensures
            r@ == bits,
    {
        RxAddrP3(bits)
    }

    /// The register byte.
    pub fn into_bits(self) -> (r: u8)
        ensures
            r == self@,
    {
        self.0
    }

    /// The register's address.
    pub fn address(&self) -> (r: u8)
        ensures
            r == Self::ADDRESS,
    {
        Self::ADDRESS
    }

    /// The SPI byte sequence that writes this value to the register.
    pub fn as_write_bytes(&self) -> (r: [u8; 2])
        ensures
            r@ == seq![WRegister::WORD | Self::ADDRESS, self@],
            r@[0] == 0x2d,
    {
        assert(0x20u8 | 0x0D == 0x2d) by (bit_vector);
        [WRegister::WORD | Self::ADDRESS, self.0]
    }

    /// The SPI byte sequence that reads the register.
    pub fn as_read_bytes() -> (r: [u8; 2])
        ensures
            r@ == seq![Self::ADDRESS, 0u8],
    {
        [Self::ADDRESS, 0]
    }

    /// RX address data pipe 3. Default value: `0xC4`.
    ///
    /// Bits: 0..8
    pub fn rx_addr_p3(&self) -> (r: u8)
        ensures
            r as nat == field(self@ as nat, 0, 8),
    {
        proof {
            lemma2_to64();
        }
        read_u8(self.0, 0, 8)
    }

    /// RX address data pipe 3. Default value: `0xC4`.
    ///
    /// Bits: 0..8
    pub fn with_rx_addr_p3(self, value: u8) -> (r: Self)
        ensures
            r@ as nat == with_field(self@ as nat, 0, 8, value as nat),
    {
        let mut this = self;
        this.set_rx_addr_p3(value);
        this
    }

    /// RX address data pipe 3. Default value: `0xC4`.
    ///
    /// Bits: 0..8
    pub fn set_rx_addr_p3(&mut self, value: u8)
        ensures
            final(self)@ as nat == with_field(old(self)@ as nat, 0, 8, value as nat),
    {
        proof {
            lemma2_to64();
        }
        self.0 = write_u8(self.0, 0, 8, value);
    }

    /// RX address data pipe 3. Default value: `0xC4`.
    ///
    /// Bits: 0..8
    pub fn with_rx_addr_p3_checked(self, value: u8) -> (r: Result<Self, ()>)
        ensures
            (match r {
                Ok(this) => this@ as nat == with_field(self@ as nat, 0, 8, value as nat),
                Err(_) => false,
            }),
    {
        Ok(self.with_rx_addr_p3(value))
    }

    /// RX address data pipe 3. Default value: `0xC4`.
    ///
    /// Bits: 0..8
    pub fn set_rx_addr_p3_checked(&mut self, value: u8) -> (r: Result<(), ()>)
        ensures
            r is Ok,
            final(self)@ as nat == with_field(old(self)@ as nat, 0, 8, value as nat),
    {
        self.set_rx_addr_p3(value);
        Ok(())
    }
}

impl From<u8> for RxAddrP3 {
    fn from(v: u8) -> (r: Self)
        ensures
            r@ == v,
    {
        RxAddrP3(v)
    }
}

impl vstd::std_specs::convert::FromSpecImpl<u8> for RxAddrP3 {
    open spec fn obeys_from_spec() -> bool {
        true
    }

    closed spec fn from_spec(v: u8) -> Self {
        RxAddrP3(v)
    }
}

impl From<RxAddrP3> for u8 {
    fn from(v: RxAddrP3) -> (r: Self)
        ensures
            r == v@,
    {
        v.0
    }
}

impl vstd::std_specs::convert::FromSpecImpl<RxAddrP3> for u8 {
    open spec fn obeys_from_spec() -> bool {
        true
    }

    open spec fn from_spec(v: RxAddrP3) -> Self {
        v@
    }
}

impl Default for RxAddrP3 {
    fn default() -> (r: Self)
        ensures
            r@ == 0xc4,
    {
        Self::new()
    }
}

/// # RX_ADDR_P4 register
/// RX address data pipe 4. Only LSByte is stored.
/// MSBytes are equal to [`RxAddrP1`] bits 39:8.
///
/// Address = `0x0E`
///
/// ## Fields
/// #### `rx_addr_p4` | bits 7:0
/// RX address data pipe 4. Default value: `0xC5`.
#[derive(Copy, Clone, Debug)]
pub struct RxAddrP4(u8);

impl View for RxAddrP4 {
    type V = u8;

    /// The register byte.
    closed spec fn view(&self) -> u8 {
        self.0
    }
}

impl RxAddrP4 {
    pub const ADDRESS: u8 = 0x0E;

    /// A register holding the default value of every field.
    pub fn new() -> (r: Self)
        ensures
            r@ == 0xc5,
            field(r@ as nat, 0, 8) == 197,
    {
        proof {
            lemma2_to64();
        }
        RxAddrP4(0xc5)
    }

    /// The register holding exactly `bits`.
    pub fn from_bits(bits: u8) -> (r: Self)
        ensures
            r@ == bits,
    {
        RxAddrP4(bits)
    }

    /// The register byte.
    pub fn into_bits(self) -> (r: u8)
        ensures
            r == self@,
    {
        self.0
    }

    /// The register's address.
    pub fn address(&self) -> (r: u8)
        ensures
            r == Self::ADDRESS,
    {
        Self::ADDRESS
    }

    /// The SPI byte sequence that writes this value to the register.
    pub fn as_write_bytes(&self) -> (r: [u8; 2])
        ensures
            r@ == seq![WRegister::WORD | Self::ADDRESS, self@],
            r@[0] == 0x2e,
    {
        assert(0x20u8 | 0x0E == 0x2e) by (bit_vector);
        [WRegister::WORD | Self::ADDRESS, self.0]
    }

    /// The SPI byte sequence that reads the register.
    pub fn as_read_bytes() -> (r: [u8; 2])
        ensures
            r@ == seq![Self::ADDRESS, 0u8],
    {
        [Self::ADDRESS, 0]
    }

    /// RX address data pipe 4. Default value: `0xC5`.
    ///
    /// Bits: 0..8
    pub fn rx_addr_p4(&self) -> (r: u8)
        ensures
            r as nat == field(self@ as nat, 0, 8),
    {
        proof {
            lemma2_to64();
        }
        read_u8(self.0, 0, 8)
    }

    /// RX address data pipe 4. Default value: `0xC5`.
    ///
    /// Bits: 0..8
    pub fn with_rx_addr_p4(self, value: u8) -> (r: Self)
        ensures
            r@ as nat == with_field(self@ as nat, 0, 8, value as nat),
    {
        let mut this = self;
        this.set_rx_addr_p4(value);
        this
    }

    /// RX address data pipe 4. Default value: `0xC5`.
    ///
    /// Bits: 0..8
    pub fn set_rx_addr_p4(&mut self, value: u8)
        ensures
            final(self)@ as nat == with_field(old(self)@ as nat, 0, 8, value as nat),
    {
        proof {
            lemma2_to64();
        }
        self.0 = write_u8(self.0, 0, 8, value);
    }

    /// RX address data pipe 4. Default value: `0xC5`.
    ///
    /// Bits: 0..8
    pub fn with_rx_addr_p4_checked(self, value: u8) -> (r: Result<Self, ()>)
        ensures
            (match r {
                Ok(this) => this@ as nat == with_field(self@ as nat, 0, 8, value as nat),
                Err(_) => false,
            }),
    {
        Ok(self.with_rx_addr_p4(value))
    }

    /// RX address data pipe 4. Default value: `0xC5`.
    ///
    /// Bits: 0..8
    pub fn set_rx_addr_p4_checked(&mut self, value: u8) -> (r: Result<(), ()>)
        ensures
            r is Ok,
            final(self)@ as nat == with_field(old(self)@ as nat, 0, 8, value as nat),
    {
        self.set_rx_addr_p4(value);
        Ok(())
    }
}

impl From<u8> for RxAddrP4 {
    fn from(v: u8) -> (r: Self)
        ensures
            r@ == v,
    {
        RxAddrP4(v)
    }
}

impl vstd::std_specs::convert::FromSpecImpl<u8> for RxAddrP4 {
    open spec fn obeys_from_spec() -> bool {
        true
    }

    closed spec fn from_spec(v: u8) -> Self {
        RxAddrP4(v)
    }
}

impl From<RxAddrP4> for u8 {
    fn from(v: RxAddrP4) -> (r: Self)
        ensures
            r == v@,
    {
        v.0
    }
}

impl vstd::std_specs::convert::FromSpecImpl<RxAddrP4> for u8 {
    open spec fn obeys_from_spec() -> bool {
        true
    }

    open spec fn from_spec(v: RxAddrP4) -> Self {
        v@
    }
}

impl Default for RxAddrP4 {
    fn default() -> (r: Self)
        ensures
            r@ == 0xc5,
    {
        Self::new()
    }
}

/// # RX_ADDR_P5 register
/// RX address data pipe 5. Only LSByte is stored.
/// MSBytes are equal to [`RxAddrP1`] bits 39:8.
///
/// Address = `0x0F`
///
/// ## Fields
/// #### `rx_addr_p5` | bits 7:0
/// RX address data pipe 5. Default value: `0xC6`.
#[derive(Copy, Clone, Debug)]
pub struct RxAddrP5(u8);

impl View for RxAddrP5 {
    type V = u8;

    /// The register byte.
    closed spec fn view(&self) -> u8 {
        self.0
    }
}

impl RxAddrP5 {
    pub const ADDRESS: u8 = 0x0F;

    /// A register holding the default value of every field.
    pub fn new() -> (r: Self)
        ensures
            r@ == 0xc6,
            field(r@ as nat, 0, 8) == 198,
    {
        proof {
            lemma2_to64();
        }
        RxAddrP5(0xc6)
    }

    /// The register holding exactly `bits`.
    pub fn from_bits(bits: u8) -> (r: Self)
        ensures
            r@ == bits,
    {
        RxAddrP5(bits)
    }

    /// The register byte.
    pub fn into_bits(self) -> (r: u8)
        ensures
            r == self@,
    {
        self.0
    }

    /// The register's address.
    pub fn address(&self) -> (r: u8)
        ensures
            r == Self::ADDRESS,
    {
        Self::ADDRESS
    }

    /// The SPI byte sequence that writes this value to the register.
    pub fn as_write_bytes(&self) -> (r: [u8; 2])
        ensures
            r@ == seq![WRegister::WORD | Self::ADDRESS, self@],
            r@[0] == 0x2f,
    {
        assert(0x20u8 | 0x0F == 0x2f) by (bit_vector);
        [WRegister::WORD | Self::ADDRESS, self.0]
    }

    /// The SPI byte sequence that reads the register.
    pub fn as_read_bytes() -> (r: [u8; 2])
        ensures
            r@ == seq![Self::ADDRESS, 0u8],
    {
        [Self::ADDRESS, 0]
    }

    /// RX address data pipe 5. Default value: `0xC6`.
    ///
    /// Bits: 0..8
    pub fn rx_addr_p5(&self) -> (r: u8)
        ensures
            r as nat == field(self@ as nat, 0, 8),
    {
        proof {
            lemma2_to64();
        }
        read_u8(self.0, 0, 8)
    }

    /// RX address data pipe 5. Default value: `0xC6`.
    ///
    /// Bits: 0..8
    pub fn with_rx_addr_p5(self, value: u8) -> (r: Self)
        ensures
            r@ as nat == with_field(self@ as nat, 0, 8, value as nat),
    {
        let mut this = self;
        this.set_rx_addr_p5(value);
        this
    }

    /// RX address data pipe 5. Default value: `0xC6`.
    ///
    /// Bits: 0..8
    pub fn set_rx_addr_p5(&mut self, value: u8)
        ensures
            final(self)@ as nat == with_field(old(self)@ as nat, 0, 8, value as nat),
    {
        proof {
            lemma2_to64();
        }
        self.0 = write_u8(self.0, 0, 8, value);
    }

    /// RX address data pipe 5. Default value: `0xC6`.
    ///
    /// Bits: 0..8
    pub fn with_rx_addr_p5_checked(self, value: u8) -> (r: Result<Self, ()>)
        ensures
            (match r {
                Ok(this) => this@ as nat == with_field(self@ as nat, 0, 8, value as nat),
                Err(_) => false,
            }),
    {
        Ok(self.with_rx_addr_p5(value))
    }

    /// RX address data pipe 5. Default value: `0xC6`.
    ///
    /// Bits: 0..8
    pub fn set_rx_addr_p5_checked(&mut self, value: u8) -> (r: Result<(), ()>)
        ensures
            r is Ok,
            final(self)@ as nat == with_field(old(self)@ as nat, 0, 8, value as nat),
    {
        self.set_rx_addr_p5(value);
        Ok(())
    }
}

impl From<u8> for RxAddrP5 {
    fn from(v: u8) -> (r: Self)
        ensures
            r@ == v,
    {
        RxAddrP5(v)
    }
}

impl vstd::std_specs::convert::FromSpecImpl<u8> for RxAddrP5 {
    open spec fn obeys_from_spec() -> bool {
        true
    }

    closed spec fn from_spec(v: u8) -> Self {
        RxAddrP5(v)
    }
}

impl From<RxAddrP5> for u8 {
    fn from(v: RxAddrP5) -> (r: Self)
        ensures
            r == v@,
    {
        v.0
    }
}

impl vstd::std_specs::convert::FromSpecImpl<RxAddrP5> for u8 {
    open spec fn obeys_from_spec() -> bool {
        true
    }

    open spec fn from_spec(v: RxAddrP5) -> Self {
        v@
    }
}

impl Default for RxAddrP5 {
    fn default() -> (r: Self)
        ensures
            r@ == 0xc6,
    {
        Self::new()
    }
}

/// # RX_PW_P0 register
/// RX payload width for data pipe 0.
///
/// Address = `0x11`
///
/// ## Fields
/// #### `rx_pw_p0` | bits 7:0
/// RX payload width for data pipe 0. 1 - 32 bytes. `0` = pipe not used.
#[derive(Copy, Clone, Debug)]
pub struct RxPwP0(u8);

impl View for RxPwP0 {
    type V = u8;

    /// The register byte.
    closed spec fn view(&self) -> u8 {
        self.0
    }
}

impl RxPwP0 {
    pub const ADDRESS: u8 = 0x11;

    /// A register holding the default value of every field.
    pub fn new() -> (r: Self)
        ensures
            r@ == 0x00,
    {
        proof {
            lemma2_to64();
        }
        RxPwP0(0x00)
    }

    /// The register holding exactly `bits`.
    pub fn from_bits(bits: u8) -> (r: Self)
        ensures
            r@ == bits,
    {
        RxPwP0(bits)
    }

    /// The register byte.
    pub fn into_bits(self) -> (r: u8)
        ensures
            r == self@,
    {
        self.0
    }

    /// The register's address.
    pub fn address(&self) -> (r: u8)
        ensures
            r == Self::ADDRESS,
    {
        Self::ADDRESS
    }

    /// The SPI byte sequence that writes this value to the register.
    pub fn as_write_bytes(&self) -> (r: [u8; 2])
        ensures
            r@ == seq![WRegister::WORD | Self::ADDRESS, self@],
            r@[0] == 0x31,
    {
        assert(0x20u8 | 0x11 == 0x31) by (bit_vector);
        [WRegister::WORD | Self::ADDRESS, self.0]
    }

    /// The SPI byte sequence that reads the register.
    pub fn as_read_bytes() -> (r: [u8; 2])
        ensures
            r@ == seq![Self::ADDRESS, 0u8],
    {
        [Self::ADDRESS, 0]
    }

    /// RX payload width for data pipe 0. 1 - 32 bytes. `0` = pipe not used.
    ///
    /// Bits: 0..6
    pub fn rx_pw_p0(&self) -> (r: u8)
        ensures
            r as nat == field(self@ as nat, 0, 6),
    {
        proof {
            lemma2_to64();
        }
        read_u8(self.0, 0, 6)
    }

    /// RX payload width for data pipe 0. 1 - 32 bytes. `0` = pipe not used.
    ///
    /// Bits: 0..6
    pub fn with_rx_pw_p0(self, value: u8) -> (r: Self)
        requires
            value <= 0x3f,
        ensures
            r@ as nat == with_field(self@ as nat, 0, 6, value as nat),
    {
        let mut this = self;
        this.set_rx_pw_p0(value);
        this
    }

    /// RX payload width for data pipe 0. 1 - 32 bytes. `0` = pipe not used.
    ///
    /// Bits: 0..6
    pub fn set_rx_pw_p0(&mut self, value: u8)
        requires
            value <= 0x3f,
        ensures
            final(self)@ as nat == with_field(old(self)@ as nat, 0, 6, value as nat),
    {
        proof {
            lemma2_to64();
        }
        self.0 = write_u8(self.0, 0, 6, value);
    }

    /// RX payload width for data pipe 0. 1 - 32 bytes. `0` = pipe not used.
    ///
    /// Bits: 0..6
    pub fn with_rx_pw_p0_checked(self, value: u8) -> (r: Result<Self, ()>)
        ensures
            (match r {
                Ok(this) => value <= 0x3f && this@ as nat == with_field(self@ as nat, 0, 6, value as nat),
                Err(_) => value > 0x3f,
            }),
    {
        if value <= 0x3f {
            Ok(self.with_rx_pw_p0(value))
        } else {
            Err(())
        }
    }

    /// RX payload width for data pipe 0. 1 - 32 bytes. `0` = pipe not used.
    ///
    /// Bits: 0..6
    pub fn set_rx_pw_p0_checked(&mut self, value: u8) -> (r: Result<(), ()>)
        ensures
            r is Ok <==> value <= 0x3f,
            r is Ok ==> final(self)@ as nat == with_field(old(self)@ as nat, 0, 6, value as nat),
            r is Err ==> final(self)@ == old(self)@,
    {
        if value <= 0x3f {
            self.set_rx_pw_p0(value);
            Ok(())
        } else {
            Err(())
        }
    }
}

impl From<u8> for RxPwP0 {
    fn from(v: u8) -> (r: Self)
        ensures
            r@ == v,
    {
        RxPwP0(v)
    }
}

impl vstd::std_specs::convert::FromSpecImpl<u8> for RxPwP0 {
    open spec fn obeys_from_spec() -> bool {
        true
    }

    closed spec fn from_spec(v: u8) -> Self {
        RxPwP0(v)
    }
}

impl From<RxPwP0> for u8 {
    fn from(v: RxPwP0) -> (r: Self)
        ensures
            r == v@,
    {
        v.0
    }
}

impl vstd::std_specs::convert::FromSpecImpl<RxPwP0> for u8 {
    open spec fn obeys_from_spec() -> bool {
        true
    }

    open spec fn from_spec(v: RxPwP0) -> Self {
        v@
    }
}

impl Default for RxPwP0 {
    fn default() -> (r: Self)
        ensures
            r@ == 0x00,
    {
        Self::new()
    }
}

/// # RX_PW_P1 register
/// RX payload width for data pipe 1.
///
/// Address = `0x12`
///
/// ## Fields
/// #### `rx_pw_p1` | bits 7:0
/// RX payload width for data pipe 1. 1 - 32 bytes. `0` = pipe not used.
#[derive(Copy, Clone, Debug)]
pub struct RxPwP1(u8);

impl View for RxPwP1 {
    type V = u8;

    /// The register byte.
    closed spec fn view(&self) -> u8 {
        self.0
    }
}

impl RxPwP1 {
    pub const ADDRESS: u8 = 0x12;

    /// A register holding the default value of every field.
    pub fn new() -> (r: Self)
        ensures
            r@ == 0x00,
    {
        proof {
            lemma2_to64();
        }
        RxPwP1(0x00)
    }

    /// The register holding exactly `bits`.
    pub fn from_bits(bits: u8) -> (r: Self)
        ensures
            r@ == bits,
    {
        RxPwP1(bits)
    }

    /// The register byte.
    pub fn into_bits(self) -> (r: u8)
        ensures
            r == self@,
    {
        self.0
    }

    /// The register's address.
    pub fn address(&self) -> (r: u8)
        ensures
            r == Self::ADDRESS,
    {
        Self::ADDRESS
    }

    /// The SPI byte sequence that writes this value to the register.
    pub fn as_write_bytes(&self) -> (r: [u8; 2])
        ensures
            r@ == seq![WRegister::WORD | Self::ADDRESS, self@],
            r@[0] == 0x32,
    {
        assert(0x20u8 | 0x12 == 0x32) by (bit_vector);
        [WRegister::WORD | Self::ADDRESS, self.0]
    }

    /// The SPI byte sequence that reads the register.
    pub fn as_read_bytes() -> (r: [u8; 2])
        ensures
            r@ == seq![Self::ADDRESS, 0u8],
    {
        [Self::ADDRESS, 0]
    }

    /// RX payload width for data pipe 1. 1 - 32 bytes. `0` = pipe not used.
    ///
    /// Bits: 0..6
    pub fn rx_pw_p1(&self) -> (r: u8)
        ensures
            r as nat == field(self@ as nat, 0, 6),
    {
        proof {
            lemma2_to64();
        }
        read_u8(self.0, 0, 6)
    }

    /// RX payload width for data pipe 1. 1 - 32 bytes. `0` = pipe not used.
    ///
    /// Bits: 0..6
    pub fn with_rx_pw_p1(self, value: u8) -> (r: Self)
        requires
            value <= 0x3f,
        ensures
            r@ as nat == with_field(self@ as nat, 0, 6, value as nat),
    {
        let mut this = self;
        this.set_rx_pw_p1(value);
        this
    }

    /// RX payload width for data pipe 1. 1 - 32 bytes. `0` = pipe not used.
    ///
    /// Bits: 0..6
    pub fn set_rx_pw_p1(&mut self, value: u8)
        requires
            value <= 0x3f,
        ensures
            final(self)@ as nat == with_field(old(self)@ as nat, 0, 6, value as nat),
    {
        proof {
            lemma2_to64();
        }
        self.0 = write_u8(self.0, 0, 6, value);
    }

    /// RX payload width for data pipe 1. 1 - 32 bytes. `0` = pipe not used.
    ///
    /// Bits: 0..6
    pub fn with_rx_pw_p1_checked(self, value: u8) -> (r: Result<Self, ()>)
        ensures
            (match r {
                Ok(this) => value <= 0x3f && this@ as nat == with_field(self@ as nat, 0, 6, value as nat),
                Err(_) => value > 0x3f,
            }),
    {
        if value <= 0x3f {
            Ok(self.with_rx_pw_p1(value))
        } else {
            Err(())
        }
    }

    /// RX payload width for data pipe 1. 1 - 32 bytes. `0` = pipe not used.
    ///
    /// Bits: 0..6
    pub fn set_rx_pw_p1_checked(&mut self, value: u8) -> (r: Result<(), ()>)
        ensures
            r is Ok <==> value <= 0x3f,
            r is Ok ==> final(self)@ as nat == with_field(old(self)@ as nat, 0, 6, value as nat),
            r is Err ==> final(self)@ == old(self)@,
    {
        if value <= 0x3f {
            self.set_rx_pw_p1(value);
            Ok(())
        } else {
            Err(())
        }
    }
}

impl From<u8> for RxPwP1 {
    fn from(v: u8) -> (r: Self)
        ensures
            r@ == v,
    {
        RxPwP1(v)
    }
}

impl vstd::std_specs::convert::FromSpecImpl<u8> for RxPwP1 {
    open spec fn obeys_from_spec() -> bool {
        true
    }

    closed spec fn from_spec(v: u8) -> Self {
        RxPwP1(v)
    }
}

impl From<RxPwP1> for u8 {
    fn from(v: RxPwP1) -> (r: Self)
        ensures
            r == v@,
    {
        v.0
    }
}

impl vstd::std_specs::convert::FromSpecImpl<RxPwP1> for u8 {
    open spec fn obeys_from_spec() -> bool {
        true
    }

    open spec fn from_spec(v: RxPwP1) -> Self {
        v@
    }
}

impl Default for RxPwP1 {
    fn default() -> (r: Self)
        ensures
            r@ == 0x00,
    {
        Self::new()
    }
}

/// # RX_PW_P2 register
/// RX payload width for data pipe 2.
///
/// Address = `0x13`
///
/// ## Fields
/// #### `rx_pw_p2` | bits 7:0
/// RX payload width for data pipe 2. 1 - 32 bytes. `0` = pipe not used.
#[derive(Copy, Clone, Debug)]
pub struct RxPwP2(u8);

impl View for RxPwP2 {
    type V = u8;

    /// The register byte.
    closed spec fn view(&self) -> u8 {
        self.0
    }
}

impl RxPwP2 {
    pub const ADDRESS: u8 = 0x13;

    /// A register holding the default value of every field.
    pub fn new() -> (r: Self)
        ensures
            r@ == 0x00,
    {
        proof {
            lemma2_to64();
        }
        RxPwP2(0x00)
    }

    /// The register holding exactly `bits`.
    pub fn from_bits(bits: u8) -> (r: Self)
        ensures
            r@ == bits,
    {
        RxPwP2(bits)
    }

    /// The register byte.
    pub fn into_bits(self) -> (r: u8)
        ensures
            r == self@,
    {
        self.0
    }

    /// The register's address.
    pub fn address(&self) -> (r: u8)
        ensures
            r == Self::ADDRESS,
    {
        Self::ADDRESS
    }

    /// The SPI byte sequence that writes this value to the register.
    pub fn as_write_bytes(&self) -> (r: [u8; 2])
        ensures
            r@ == seq![WRegister::WORD | Self::ADDRESS, self@],
            r@[0] == 0x33,
    {
        assert(0x20u8 | 0x13 == 0x33) by (bit_vector);
        [WRegister::WORD | Self::ADDRESS, self.0]
    }

    /// The SPI byte sequence that reads the register.
    pub fn as_read_bytes() -> (r: [u8; 2])
        ensures
            r@ == seq![Self::ADDRESS, 0u8],
    {
        [Self::ADDRESS, 0]
    }

    /// RX payload width for data pipe 2. 1 - 32 bytes. `0` = pipe not used.
    ///
    /// Bits: 0..6
    pub fn rx_pw_p2(&self) -> (r: u8)
        ensures
            r as nat == field(self@ as nat, 0, 6),
    {
        proof {
            lemma2_to64();
        }
        read_u8(self.0, 0, 6)
    }

    /// RX payload width for data pipe 2. 1 - 32 bytes. `0` = pipe not used.
    ///
    /// Bits: 0..6
    pub fn with_rx_pw_p2(self, value: u8) -> (r: Self)
        requires
            value <= 0x3f,
        ensures
            r@ as nat == with_field(self@ as nat, 0, 6, value as nat),
    {
        let mut this = self;
        this.set_rx_pw_p2(value);
        this
    }

    /// RX payload width for data pipe 2. 1 - 32 bytes. `0` = pipe not used.
    ///
    /// Bits: 0..6
    pub fn set_rx_pw_p2(&mut self, value: u8)
        requires
            value <= 0x3f,
        ensures
            final(self)@ as nat == with_field(old(self)@ as nat, 0, 6, value as nat),
    {
        proof {
            lemma2_to64();
        }
        self.0 = write_u8(self.0, 0, 6, value);
    }

    /// RX payload width for data pipe 2. 1 - 32 bytes. `0` = pipe not used.
    ///
    /// Bits: 0..6
    pub fn with_rx_pw_p2_checked(self, value: u8) -> (r: Result<Self, ()>)
        ensures
            (match r {
                Ok(this) => value <= 0x3f && this@ as nat == with_field(self@ as nat, 0, 6, value as nat),
                Err(_) => value > 0x3f,
            }),
    {
        if value <= 0x3f {
            Ok(self.with_rx_pw_p2(value))
        } else {
            Err(())
        }
    }

    /// RX payload width for data pipe 2. 1 - 32 bytes. `0` = pipe not used.
    ///
    /// Bits: 0..6
    pub fn set_rx_pw_p2_checked(&mut self, value: u8) -> (r: Result<(), ()>)
        ensures
            r is Ok <==> value <= 0x3f,
            r is Ok ==> final(self)@ as nat == with_field(old(self)@ as nat, 0, 6, value as nat),
            r is Err ==> final(self)@ == old(self)@,
    {
        if value <= 0x3f {
            self.set_rx_pw_p2(value);
            Ok(())
        } else {
            Err(())
        }
    }
}

impl From<u8> for RxPwP2 {
    fn from(v: u8) -> (r: Self)
        ensures
            r@ == v,
    {
        RxPwP2(v)
    }
}

impl vstd::std_specs::convert::FromSpecImpl<u8> for RxPwP2 {
    open spec fn obeys_from_spec() -> bool {
        true
    }

    closed spec fn from_spec(v: u8) -> Self {
        RxPwP2(v)
    }
}

impl From<RxPwP2> for u8 {
    fn from(v: RxPwP2) -> (r: Self)
        ensures
            r == v@,
    {
        v.0
    }
}

impl vstd::std_specs::convert::FromSpecImpl<RxPwP2> for u8 {
    open spec fn obeys_from_spec() -> bool {
        true
    }

    open spec fn from_spec(v: RxPwP2) -> Self {
        v@
    }
}

impl Default for RxPwP2 {
    fn default() -> (r: Self)
        ensures
            r@ == 0x00,
    {
        Self::new()
    }
}

/// # RX_PW_P3 register
/// RX payload width for data pipe 3.
///
/// Address = `0x14`
///
/// ## Fields
/// #### `rx_pw_p3` | bits 7:0
/// RX payload width for data pipe 3. 1 - 32 bytes. `0` = pipe not used.
#[derive(Copy, Clone, Debug)]
pub struct RxPwP3(u8);

impl View for RxPwP3 {
    type V = u8;

    /// The register byte.
    closed spec fn view(&self) -> u8 {
        self.0
    }
}

impl RxPwP3 {
    pub const ADDRESS: u8 = 0x14;

    /// A register holding the default value of every field.
    pub fn new() -> (r: Self)
        ensures
            r@ == 0x00,
    {
        proof {
            lemma2_to64();
        }
        RxPwP3(0x00)
    }

    /// The register holding exactly `bits`.
    pub fn from_bits(bits: u8) -> (r: Self)
        ensures
            r@ == bits,
    {
        RxPwP3(bits)
    }

    /// The register byte.
    pub fn into_bits(self) -> (r: u8)
        ensures
            r == self@,
    {
        self.0
    }

    /// The register's address.
    pub fn address(&self) -> (r: u8)
        ensures
            r == Self::ADDRESS,
    {
        Self::ADDRESS
    }

    /// The SPI byte sequence that writes this value to the register.
    pub fn as_write_bytes(&self) -> (r: [u8; 2])
        ensures
            r@ == seq![WRegister::WORD | Self::ADDRESS, self@],
            r@[0] == 0x34,
    {
        assert(0x20u8 | 0x14 == 0x34) by (bit_vector);
        [WRegister::WORD | Self::ADDRESS, self.0]
    }

    /// The SPI byte sequence that reads the register.
    pub fn as_read_bytes() -> (r: [u8; 2])
        ensures
            r@ == seq![Self::ADDRESS, 0u8],
    {
        [Self::ADDRESS, 0]
    }

    /// RX payload width for data pipe 3. 1 - 32 bytes. `0` = pipe not used.
    ///
    /// Bits: 0..6
    pub fn rx_pw_p3(&self) -> (r: u8)
        ensures
            r as nat == field(self@ as nat, 0, 6),
    {
        proof {
            lemma2_to64();
        }
        read_u8(self.0, 0, 6)
    }

    /// RX payload width for data pipe 3. 1 - 32 bytes. `0` = pipe not used.
    ///
    /// Bits: 0..6
    pub fn with_rx_pw_p3(self, value: u8) -> (r: Self)
        requires
            value <= 0x3f,
        ensures
            r@ as nat == with_field(self@ as nat, 0, 6, value as nat),
    {
        let mut this = self;
        this.set_rx_pw_p3(value);
        this
    }

    /// RX payload width for data pipe 3. 1 - 32 bytes. `0` = pipe not used.
    ///
    /// Bits: 0..6
    pub fn set_rx_pw_p3(&mut self, value: u8)
        requires
            value <= 0x3f,
        ensures
            final(self)@ as nat == with_field(old(self)@ as nat, 0, 6, value as nat),
    {
        proof {
            lemma2_to64();
        }
        self.0 = write_u8(self.0, 0, 6, value);
    }

    /// RX payload width for data pipe 3. 1 - 32 bytes. `0` = pipe not used.
    ///
    /// Bits: 0..6
    pub fn with_rx_pw_p3_checked(self, value: u8) -> (r: Result<Self, ()>)
        ensures
            (match r {
                Ok(this) => value <= 0x3f && this@ as nat == with_field(self@ as nat, 0, 6, value as nat),
                Err(_) => value > 0x3f,
            }),
    {
        if value <= 0x3f {
            Ok(self.with_rx_pw_p3(value))
        } else {
            Err(())
        }
    }

    /// RX payload width for data pipe 3. 1 - 32 bytes. `0` = pipe not used.
    ///
    /// Bits: 0..6
    pub fn set_rx_pw_p3_checked(&mut self, value: u8) -> (r: Result<(), ()>)
        ensures
            r is Ok <==> value <= 0x3f,
            r is Ok ==> final(self)@ as nat == with_field(old(self)@ as nat, 0, 6, value as nat),
            r is Err ==> final(self)@ == old(self)@,
    {
        if value <= 0x3f {
            self.set_rx_pw_p3(value);
            Ok(())
        } else {
            Err(())
        }
    }
}

impl From<u8> for RxPwP3 {
    fn from(v: u8) -> (r: Self)
        ensures
            r@ == v,
    {
        RxPwP3(v)
    }
}

impl vstd::std_specs::convert::FromSpecImpl<u8> for RxPwP3 {
    open spec fn obeys_from_spec() -> bool {
        true
    }

    closed spec fn from_spec(v: u8) -> Self {
        RxPwP3(v)
    }
}

impl From<RxPwP3> for u8 {
    fn from(v: RxPwP3) -> (r: Self)
        ensures
            r == v@,
    {
        v.0
    }
}

impl vstd::std_specs::convert::FromSpecImpl<RxPwP3> for u8 {
    open spec fn obeys_from_spec() -> bool {
        true
    }

    open spec fn from_spec(v: RxPwP3) -> Self {
        v@
    }
}

impl Default for RxPwP3 {
    fn default() -> (r: Self)
        ensures
            r@ == 0x00,
    {
        Self::new()
    }
}

/// # RX_PW_P4 register
/// RX payload width for data pipe 4.
///
/// Address = `0x15`
///
/// ## Fields
/// #### `rx_pw_p4` | bits 7:0
/// RX payload width for data pipe 4. 1 - 32 bytes. `0` = pipe not used.
#[derive(Copy, Clone, Debug)]
pub struct RxPwP4(u8);

impl View for RxPwP4 {
    type V = u8;

    /// The register byte.
    closed spec fn view(&self) -> u8 {
        self.0
    }
}

impl RxPwP4 {
    pub const ADDRESS: u8 = 0x15;

    /// A register holding the default value of every field.
    pub fn new() -> (r: Self)
        ensures
            r@ == 0x00,
    {
        proof {
            lemma2_to64();
        }
        RxPwP4(0x00)
    }

    /// The register holding exactly `bits`.
    pub fn from_bits(bits: u8) -> (r: Self)
        ensures
            r@ == bits,
    {
        RxPwP4(bits)
    }

    /// The register byte.
    pub fn into_bits(self) -> (r: u8)
        ensures
            r == self@,
    {
        self.0
    }

    /// The register's address.
    pub fn address(&self) -> (r: u8)
        ensures
            r == Self::ADDRESS,
    {
        Self::ADDRESS
    }

    /// The SPI byte sequence that writes this value to the register.
    pub fn as_write_bytes(&self) -> (r: [u8; 2])
        ensures
            r@ == seq![WRegister::WORD | Self::ADDRESS, self@],
            r@[0] == 0x35,
    {
        assert(0x20u8 | 0x15 == 0x35) by (bit_vector);
        [WRegister::WORD | Self::ADDRESS, self.0]
    }

    /// The SPI byte sequence that reads the register.
    pub fn as_read_bytes() -> (r: [u8; 2])
        ensures
            r@ == seq![Self::ADDRESS, 0u8],
    {
        [Self::ADDRESS, 0]
    }

    /// RX payload width for data pipe 4. 1 - 32 bytes. `0` = pipe not used.
    ///
    /// Bits: 0..6
    pub fn rx_pw_p4(&self) -> (r: u8)
        ensures
            r as nat == field(self@ as nat, 0, 6),
    {
        proof {
            lemma2_to64();
        }
        read_u8(self.0, 0, 6)
    }

    /// RX payload width for data pipe 4. 1 - 32 bytes. `0` = pipe not used.
    ///
    /// Bits: 0..6
    pub fn with_rx_pw_p4(self, value: u8) -> (r: Self)
        requires
            value <= 0x3f,
        ensures
            r@ as nat == with_field(self@ as nat, 0, 6, value as nat),
    {
        let mut this = self;
        this.set_rx_pw_p4(value);
        this
    }

    /// RX payload width for data pipe 4. 1 - 32 bytes. `0` = pipe not used.
    ///
    /// Bits: 0..6
    pub fn set_rx_pw_p4(&mut self, value: u8)
        requires
            value <= 0x3f,
        ensures
            final(self)@ as nat == with_field(old(self)@ as nat, 0, 6, value as nat),
    {
        proof {
            lemma2_to64();
        }
        self.0 = write_u8(self.0, 0, 6, value);
    }

    /// RX payload width for data pipe 4. 1 - 32 bytes. `0` = pipe not used.
    ///
    /// Bits: 0..6
    pub fn with_rx_pw_p4_checked(self, value: u8) -> (r: Result<Self, ()>)
        ensures
            (match r {
                Ok(this) => value <= 0x3f && this@ as nat == with_field(self@ as nat, 0, 6, value as nat),
                Err(_) => value > 0x3f,
            }),
    {
        if value <= 0x3f {
            Ok(self.with_rx_pw_p4(value))
        } else {
            Err(())
        }
    }

    /// RX payload width for data pipe 4. 1 - 32 bytes. `0` = pipe not used.
    ///
    /// Bits: 0..6
    pub fn set_rx_pw_p4_checked(&mut self, value: u8) -> (r: Result<(), ()>)
        ensures
            r is Ok <==> value <= 0x3f,
            r is Ok ==> final(self)@ as nat == with_field(old(self)@ as nat, 0, 6, value as nat),
            r is Err ==> final(self)@ == old(self)@,
    {
        if value <= 0x3f {
            self.set_rx_pw_p4(value);
            Ok(())
        } else {
            Err(())
        }
    }
}

impl From<u8> for RxPwP4 {
    fn from(v: u8) -> (r: Self)
        ensures
            r@ == v,
    {
        RxPwP4(v)
    }
}

impl vstd::std_specs::convert::FromSpecImpl<u8> for RxPwP4 {
    open spec fn obeys_from_spec() -> bool {
        true
    }

    closed spec fn from_spec(v: u8) -> Self {
        RxPwP4(v)
    }
}

impl From<RxPwP4> for u8 {
    fn from(v: RxPwP4) -> (r: Self)
        ensures
            r == v@,
    {
        v.0
    }
}

impl vstd::std_specs::convert::FromSpecImpl<RxPwP4> for u8 {
    open spec fn obeys_from_spec() -> bool {
        true
    }

    open spec fn from_spec(v: RxPwP4) -> Self {
        v@
    }
}

impl Default for RxPwP4 {
    fn default() -> (r: Self)
        ensures
            r@ == 0x00,
    {
        Self::new()
    }
}

/// # RX_PW_P5 register
/// RX payload width for data pipe 5.
///
/// Address = `0x16`
///
/// ## Fields
/// #### `rx_pw_p5` | bits 7:0
/// RX payload width for data pipe 5. 1 - 32 bytes. `0` = pipe not used.
#[derive(Copy, Clone, Debug)]
pub struct RxPwP5(u8);

impl View for RxPwP5 {
    type V = u8;

    /// The register byte.
    closed spec fn view(&self) -> u8 {
        self.0
    }
}

impl RxPwP5 {
    pub const ADDRESS: u8 = 0x16;

    /// A register holding the default value of every field.
    pub fn new() -> (r: Self)
        ensures
            r@ == 0x00,
    {
        proof {
            lemma2_to64();
        }
        RxPwP5(0x00)
    }

    /// The register holding exactly `bits`.
    pub fn from_bits(bits: u8) -> (r: Self)
        ensures
            r@ == bits,
    {
        RxPwP5(bits)
    }

    /// The register byte.
    pub fn into_bits(self) -> (r: u8)
        ensures
            r == self@,
    {
        self.0
    }

    /// The register's address.
    pub fn address(&self) -> (r: u8)
        ensures
            r == Self::ADDRESS,
    {
        Self::ADDRESS
    }

    /// The SPI byte sequence that writes this value to the register.
    pub fn as_write_bytes(&self) -> (r: [u8; 2])
        ensures
            r@ == seq![WRegister::WORD | Self::ADDRESS, self@],
            r@[0] == 0x36,
    {
        assert(0x20u8 | 0x16 == 0x36) by (bit_vector);
        [WRegister::WORD | Self::ADDRESS, self.0]
    }

    /// The SPI byte sequence that reads the register.
    pub fn as_read_bytes() -> (r: [u8; 2])
        ensures
            r@ == seq![Self::ADDRESS, 0u8],
    {
        [Self::ADDRESS, 0]
    }

    /// RX payload width for data pipe 5. 1 - 32 bytes. `0` = pipe not used.
    ///
    /// Bits: 0..6
    pub fn rx_pw_p5(&self) -> (r: u8)
        ensures
            r as nat == field(self@ as nat, 0, 6),
    {
        proof {
            lemma2_to64();
        }
        read_u8(self.0, 0, 6)
    }

    /// RX payload width for data pipe 5. 1 - 32 bytes. `0` = pipe not used.
    ///
    /// Bits: 0..6
    pub fn with_rx_pw_p5(self, value: u8) -> (r: Self)
        requires
            value <= 0x3f,
        ensures
            r@ as nat == with_field(self@ as nat, 0, 6, value as nat),
    {
        let mut this = self;
        this.set_rx_pw_p5(value);
        this
    }

    /// RX payload width for data pipe 5. 1 - 32 bytes. `0` = pipe not used.
    ///
    /// Bits: 0..6
    pub fn set_rx_pw_p5(&mut self, value: u8)
        requires
            value <= 0x3f,
        ensures
            final(self)@ as nat == with_field(old(self)@ as nat, 0, 6, value as nat),
    {
        proof {
            lemma2_to64();
        }
        self.0 = write_u8(self.0, 0, 6, value);
    }

    /// RX payload width for data pipe 5. 1 - 32 bytes. `0` = pipe not used.
    ///
    /// Bits: 0..6
    pub fn with_rx_pw_p5_checked(self, value: u8) -> (r: Result<Self, ()>)
        ensures
            (match r {
                Ok(this) => value <= 0x3f && this@ as nat == with_field(self@ as nat, 0, 6, value as nat),
                Err(_) => value > 0x3f,
            }),
    {
        if value <= 0x3f {
            Ok(self.with_rx_pw_p5(value))
        } else {
            Err(())
        }
    }

    /// RX payload width for data pipe 5. 1 - 32 bytes. `0` = pipe not used.
    ///
    /// Bits: 0..6
    pub fn set_rx_pw_p5_checked(&mut self, value: u8) -> (r: Result<(), ()>)
        ensures
            r is Ok <==> value <= 0x3f,
            r is Ok ==> final(self)@ as nat == with_field(old(self)@ as nat, 0, 6, value as nat),
            r is Err ==> final(self)@ == old(self)@,
    {
        if value <= 0x3f {
            self.set_rx_pw_p5(value);
            Ok(())
        } else {
            Err(())
        }
    }
}

impl From<u8> for RxPwP5 {
    fn from(v: u8) -> (r: Self)
        ensures
            r@ == v,
    {
        RxPwP5(v)
    }
}

impl vstd::std_specs::convert::FromSpecImpl<u8> for RxPwP5 {
    open spec fn obeys_from_spec() -> bool {
        true
    }

    closed spec fn from_spec(v: u8) -> Self {
        RxPwP5(v)
    }
}

impl From<RxPwP5> for u8 {
    fn from(v: RxPwP5) -> (r: Self)
        ensures
            r == v@,
    {
        v.0
    }
}

impl vstd::std_specs::convert::FromSpecImpl<RxPwP5> for u8 {
    open spec fn obeys_from_spec() -> bool {
        true
    }

    open spec fn from_spec(v: RxPwP5) -> Self {
        v@
    }
}

impl Default for RxPwP5 {
    fn default() -> (r: Self)
        ensures
            r@ == 0x00,
    {
        Self::new()
    }
}

/// # FIFO_STATUS register
/// Status of TX/RX FIFOs.
///
/// Address = `0x17`
///
/// ## Fields
/// All fields are read-only.
///
/// #### `tx_reuse` | bit 6
/// Reuse last transmitted data packet if set high.
/// The packet is repeatedly retransmitted as long as CE is high.
/// TX_REUSE is set by the [`REUSE_TX_PL`][crate::ReuseTxPl] command and reset by
/// [`W_TX_PAYLOAD`][crate::WTxPayload] or [`FLUSH_TX`][crate::FlushTx].
///
/// #### `tx_full` | bit 5
/// TX FIFO full flag.
///
/// #### `tx_empty` | bit 4
/// TX FIFO empty flag.
///
/// #### `rx_full` | bit 1
/// RX FIFO full flag.
///
/// #### `rx_empty` | bit 0
/// RX FIFO empty flag.
#[derive(Copy, Clone, Debug)]
pub struct FifoStatus(u8);

impl View for FifoStatus {
    type V = u8;

    /// The register byte.
    closed spec fn view(&self) -> u8 {
        self.0
    }
}

impl FifoStatus {
    pub const ADDRESS: u8 = 0x17;

    /// A register holding the default value of every field.
    pub fn new() -> (r: Self)
        ensures
            r@ == 0x00,
    {
        proof {
            lemma2_to64();
        }
        FifoStatus(0x00)
    }

    /// The register holding exactly `bits`.
    pub fn from_bits(bits: u8) -> (r: Self)
        ensures
            r@ == bits,
    {
        FifoStatus(bits)
    }

    /// The register byte.
    pub fn into_bits(self) -> (r: u8)
        ensures
            r == self@,
    {
        self.0
    }

    /// The register's address.
    pub fn address(&self) -> (r: u8)
        ensures
            r == Self::ADDRESS,
    {
        Self::ADDRESS
    }

    /// The SPI byte sequence that writes this value to the register.
    pub fn as_write_bytes(&self) -> (r: [u8; 2])
        ensures
            r@ == seq![WRegister::WORD | Self::ADDRESS, self@],
            r@[0] == 0x37,
    {
        assert(0x20u8 | 0x17 == 0x37) by (bit_vector);
        [WRegister::WORD | Self::ADDRESS, self.0]
    }

    /// The SPI byte sequence that reads the register.
    pub fn as_read_bytes() -> (r: [u8; 2])
        ensures
            r@ == seq![Self::ADDRESS, 0u8],
    {
        [Self::ADDRESS, 0]
    }

    /// Reuse last transmitted data packet if set high.
    /// The packet is repeatedly retransmitted as long as CE is high.
    /// TX_REUSE is set by the REUSE_TX_PL command and reset by
    /// W_TX_PAYLOAD or FLUSH_TX.
    ///
    /// Bits: 6..7
    pub fn tx_reuse(&self) -> (r: bool)
        ensures
            r == (field(self@ as nat, 6, 1) == 1),
    {
        proof {
            lemma2_to64();
        }
        read_u8(self.0, 6, 1) != 0
    }

    /// TX FIFO full flag.
    ///
    /// Bits: 5..6
    pub fn tx_full(&self) -> (r: bool)
        ensures
            r == (field(self@ as nat, 5, 1) == 1),
    {
        proof {
            lemma2_to64();
        }
        read_u8(self.0, 5, 1) != 0
    }

    /// TX FIFO empty flag.
    ///
    /// Bits: 4..5
    pub fn tx_empty(&self) -> (r: bool)
        ensures
            r == (field(self@ as nat, 4, 1) == 1),
    {
        proof {
            lemma2_to64();
        }
        read_u8(self.0, 4, 1) != 0
    }

    /// RX FIFO full flag.
    ///
    /// Bits: 1..2
    pub fn rx_full(&self) -> (r: bool)
        ensures
            r == (field(self@ as nat, 1, 1) == 1),
    {
        proof {
            lemma2_to64();
        }
        read_u8(self.0, 1, 1) != 0
    }

    /// RX FIFO empty flag.
    ///
    /// Bits: 0..1
    pub fn rx_empty(&self) -> (r: bool)
        ensures
            r == (field(self@ as nat, 0, 1) == 1),
    {
        proof {
            lemma2_to64();
        }
        read_u8(self.0, 0, 1) != 0
    }
}

impl From<u8> for FifoStatus {
    fn from(v: u8) -> (r: Self)
        ensures
            r@ == v,
    {
        FifoStatus(v)
    }
}

impl vstd::std_specs::convert::FromSpecImpl<u8> for FifoStatus {
    open spec fn obeys_from_spec() -> bool {
        true
    }

    closed spec fn from_spec(v: u8) -> Self {
        FifoStatus(v)
    }
}

impl From<FifoStatus> for u8 {
    fn from(v: FifoStatus) -> (r: Self)
        ensures
            r == v@,
    {
        v.0
    }
}

impl vstd::std_specs::convert::FromSpecImpl<FifoStatus> for u8 {
    open spec fn obeys_from_spec() -> bool {
        true
    }

    open spec fn from_spec(v: FifoStatus) -> Self {
        v@
    }
}

impl Default for FifoStatus {
    fn default() -> (r: Self)
        ensures
            r@ == 0x00,
    {
        Self::new()
    }
}

/// # DYNPD register
/// Enable dynamic payload length for data pipes 0-5.
///
/// Address = `0x1C`
///
/// ## Fields
///
/// #### `dpl_pN` | bit `N`
/// Enable dynamic payload length on data pipes `N` = 0-5.
#[derive(Copy, Clone, Debug)]
pub struct Dynpd(u8);

impl View for Dynpd {
    type V = u8;

    /// The register byte.
    closed spec fn view(&self) -> u8 {
        self.0
    }
}

impl Dynpd {
    pub const ADDRESS: u8 = 0x1C;

    /// A register holding the default value of every field.
    pub fn new() -> (r: Self)
        ensures
            r@ == 0x00,
    {
        proof {
            lemma2_to64();
        }
        Dynpd(0x00)
    }

    /// The register holding exactly `bits`.
    pub fn from_bits(bits: u8) -> (r: Self)
        ensures
            r@ == bits,
    {
        Dynpd(bits)
    }

    /// The register byte.
    pub fn into_bits(self) -> (r: u8)
        ensures
            r == self@,
    {
        self.0
    }

    /// The register's address.
    pub fn address(&self) -> (r: u8)
        ensures
            r == Self::ADDRESS,
    {
        Self::ADDRESS
    }

    /// The SPI byte sequence that writes this value to the register.
    pub fn as_write_bytes(&self) -> (r: [u8; 2])
        ensures
            r@ == seq![WRegister::WORD | Self::ADDRESS, self@],
            r@[0] == 0x3c,
    {
        assert(0x20u8 | 0x1C == 0x3c) by (bit_vector);
        [WRegister::WORD | Self::ADDRESS, self.0]
    }

    /// The SPI byte sequence that reads the register.
    pub fn as_read_bytes() -> (r: [u8; 2])
        ensures
            r@ == seq![Self::ADDRESS, 0u8],
    {
        [Self::ADDRESS, 0]
    }

    /// Enable dynamic payload length for data pipe 5.
    /// Requires `en_dpl` in [`Feature`] and `enaa_p5` in [`EnAa`].
    ///
    /// Bits: 5..6
    pub fn dpl_p5(&self) -> (r: bool)
        ensures
            r == (field(self@ as nat, 5, 1) == 1),
    {
        proof {
            lemma2_to64();
        }
        read_u8(self.0, 5, 1) != 0
    }

    /// Enable dynamic payload length for data pipe 5.
    /// Requires `en_dpl` in [`Feature`] and `enaa_p5` in [`EnAa`].
    ///
    /// Bits: 5..6
    pub fn with_dpl_p5(self, value: bool) -> (r: Self)
        ensures
            r@ as nat == with_field(self@ as nat, 5, 1, bit_value(value)),
    {
        let mut this = self;
        this.set_dpl_p5(value);
        this
    }

    /// Enable dynamic payload length for data pipe 5.
    /// Requires `en_dpl` in [`Feature`] and `enaa_p5` in [`EnAa`].
    ///
    /// Bits: 5..6
    pub fn set_dpl_p5(&mut self, value: bool)
        ensures
            final(self)@ as nat == with_field(old(self)@ as nat, 5, 1, bit_value(value)),
    {
        proof {
            lemma2_to64();
        }
        self.0 = write_u8(self.0, 5, 1, if value { 1 } else { 0 });
    }

    /// Enable dynamic payload length for data pipe 5.
    /// Requires `en_dpl` in [`Feature`] and `enaa_p5` in [`EnAa`].
    ///
    /// Bits: 5..6
    pub fn with_dpl_p5_checked(self, value: bool) -> (r: Result<Self, ()>)
        ensures
            (match r {
                Ok(this) => this@ as nat == with_field(self@ as nat, 5, 1, bit_value(value)),
                Err(_) => false,
            }),
    {
        Ok(self.with_dpl_p5(value))
    }

    /// Enable dynamic payload length for data pipe 5.
    /// Requires `en_dpl` in [`Feature`] and `enaa_p5` in [`EnAa`].
    ///
    /// Bits: 5..6
    pub fn set_dpl_p5_checked(&mut self, value: bool) -> (r: Result<(), ()>)
        ensures
            r is Ok,
            final(self)@ as nat == with_field(old(self)@ as nat, 5, 1, bit_value(value)),
    {
        self.set_dpl_p5(value);
        Ok(())
    }

    /// Enable dynamic payload length for data pipe 4.
    /// Requires `en_dpl` in [`Feature`] and `enaa_p4` in [`EnAa`].
    ///
    /// Bits: 4..5
    pub fn dpl_p4(&self) -> (r: bool)
        ensures
            r == (field(self@ as nat, 4, 1) == 1),
    {
        proof {
            lemma2_to64();
        }
        read_u8(self.0, 4, 1) != 0
    }

    /// Enable dynamic payload length for data pipe 4.
    /// Requires `en_dpl` in [`Feature`] and `enaa_p4` in [`EnAa`].
    ///
    /// Bits: 4..5
    pub fn with_dpl_p4(self, value: bool) -> (r: Self)
        ensures
            r@ as nat == with_field(self@ as nat, 4, 1, bit_value(value)),
    {
        let mut this = self;
        this.set_dpl_p4(value);
        this
    }

    /// Enable dynamic payload length for data pipe 4.
    /// Requires `en_dpl` in [`Feature`] and `enaa_p4` in [`EnAa`].
    ///
    /// Bits: 4..5
    pub fn set_dpl_p4(&mut self, value: bool)
        ensures
            final(self)@ as nat == with_field(old(self)@ as nat, 4, 1, bit_value(value)),
    {
        proof {
            lemma2_to64();
        }
        self.0 = write_u8(self.0, 4, 1, if value { 1 } else { 0 });
    }

    /// Enable dynamic payload length for data pipe 4.
    /// Requires `en_dpl` in [`Feature`] and `enaa_p4` in [`EnAa`].
    ///
    /// Bits: 4..5
    pub fn with_dpl_p4_checked(self, value: bool) -> (r: Result<Self, ()>)
        ensures
            (match r {
                Ok(this) => this@ as nat == with_field(self@ as nat, 4, 1, bit_value(value)),
                Err(_) => false,
            }),
    {
        Ok(self.with_dpl_p4(value))
    }

    /// Enable dynamic payload length for data pipe 4.
    /// Requires `en_dpl` in [`Feature`] and `enaa_p4` in [`EnAa`].
    ///
    /// Bits: 4..5
    pub fn set_dpl_p4_checked(&mut self, value: bool) -> (r: Result<(), ()>)
        ensures
            r is Ok,
            final(self)@ as nat == with_field(old(self)@ as nat, 4, 1, bit_value(value)),
    {
        self.set_dpl_p4(value);
        Ok(())
    }

    /// Enable dynamic payload length for data pipe 3.
    /// Requires `en_dpl` in [`Feature`] and `enaa_p3` in [`EnAa`].
    ///
    /// Bits: 3..4
    pub fn dpl_p3(&self) -> (r: bool)
        ensures
            r == (field(self@ as nat, 3, 1) == 1),
    {
        proof {
            lemma2_to64();
        }
        read_u8(self.0, 3, 1) != 0
    }

    /// Enable dynamic payload length for data pipe 3.
    /// Requires `en_dpl` in [`Feature`] and `enaa_p3` in [`EnAa`].
    ///
    /// Bits: 3..4
    pub fn with_dpl_p3(self, value: bool) -> (r: Self)
        ensures
            r@ as nat == with_field(self@ as nat, 3, 1, bit_value(value)),
    {
        let mut this = self;
        this.set_dpl_p3(value);
        this
    }

    /// Enable dynamic payload length for data pipe 3.
    /// Requires `en_dpl` in [`Feature`] and `enaa_p3` in [`EnAa`].
    ///
    /// Bits: 3..4
    pub fn set_dpl_p3(&mut self, value: bool)
        ensures
            final(self)@ as nat == with_field(old(self)@ as nat, 3, 1, bit_value(value)),
    {
        proof {
            lemma2_to64();
        }
        self.0 = write_u8(self.0, 3, 1, if value { 1 } else { 0 });
    }

    /// Enable dynamic payload length for data pipe 3.
    /// Requires `en_dpl` in [`Feature`] and `enaa_p3` in [`EnAa`].
    ///
    /// Bits: 3..4
    pub fn with_dpl_p3_checked(self, value: bool) -> (r: Result<Self, ()>)
        ensures
            (match r {
                Ok(this) => this@ as nat == with_field(self@ as nat, 3, 1, bit_value(value)),
                Err(_) => false,
            }),
    {
        Ok(self.with_dpl_p3(value))
    }

    /// Enable dynamic payload length for data pipe 3.
    /// Requires `en_dpl` in [`Feature`] and `enaa_p3` in [`EnAa`].
    ///
    /// Bits: 3..4
    pub fn set_dpl_p3_checked(&mut self, value: bool) -> (r: Result<(), ()>)
        ensures
            r is Ok,
            final(self)@ as nat == with_field(old(self)@ as nat, 3, 1, bit_value(value)),
    {
        self.set_dpl_p3(value);
        Ok(())
    }

    /// Enable dynamic payload length for data pipe 2.
    /// Requires `en_dpl` in [`Feature`] and `enaa_p2` in [`EnAa`].
    ///
    /// Bits: 2..3
    pub fn dpl_p2(&self) -> (r: bool)
        ensures
            r == (field(self@ as nat, 2, 1) == 1),
    {
        proof {
            lemma2_to64();
        }
        read_u8(self.0, 2, 1) != 0
    }

    /// Enable dynamic payload length for data pipe 2.
    /// Requires `en_dpl` in [`Feature`] and `enaa_p2` in [`EnAa`].
    ///
    /// Bits: 2..3
    pub fn with_dpl_p2(self, value: bool) -> (r: Self)
        ensures
            r@ as nat == with_field(self@ as nat, 2, 1, bit_value(value)),
    {
        let mut this = self;
        this.set_dpl_p2(value);
        this
    }

    /// Enable dynamic payload length for data pipe 2.
    /// Requires `en_dpl` in [`Feature`] and `enaa_p2` in [`EnAa`].
    ///
    /// Bits: 2..3
    pub fn set_dpl_p2(&mut self, value: bool)
        ensures
            final(self)@ as nat == with_field(old(self)@ as nat, 2, 1, bit_value(value)),
    {
        proof {
            lemma2_to64();
        }
        self.0 = write_u8(self.0, 2, 1, if value { 1 } else { 0 });
    }

    /// Enable dynamic payload length for data pipe 2.
    /// Requires `en_dpl` in [`Feature`] and `enaa_p2` in [`EnAa`].
    ///
    /// Bits: 2..3
    pub fn with_dpl_p2_checked(self, value: bool) -> (r: Result<Self, ()>)
        ensures
            (match r {
                Ok(this) => this@ as nat == with_field(self@ as nat, 2, 1, bit_value(value)),
                Err(_) => false,
            }),
    {
        Ok(self.with_dpl_p2(value))
    }

    /// Enable dynamic payload length for data pipe 2.
    /// Requires `en_dpl` in [`Feature`] and `enaa_p2` in [`EnAa`].
    ///
    /// Bits: 2..3
    pub fn set_dpl_p2_checked(&mut self, value: bool) -> (r: Result<(), ()>)
        ensures
            r is Ok,
            final(self)@ as nat == with_field(old(self)@ as nat, 2, 1, bit_value(value)),
    {
        self.set_dpl_p2(value);
        Ok(())
    }

    /// Enable dynamic payload length for data pipe 1.
    /// Requires `en_dpl` in [`Feature`] and `enaa_p1` in [`EnAa`].
    ///
    /// Bits: 1..2
    pub fn dpl_p1(&self) -> (r: bool)
        ensures
            r == (field(self@ as nat, 1, 1) == 1),
    {
        proof {
            lemma2_to64();
        }
        read_u8(self.0, 1, 1) != 0
    }

    /// Enable dynamic payload length for data pipe 1.
    /// Requires `en_dpl` in [`Feature`] and `enaa_p1` in [`EnAa`].
    ///
    /// Bits: 1..2
    pub fn with_dpl_p1(self, value: bool) -> (r: Self)
        ensures
            r@ as nat == with_field(self@ as nat, 1, 1, bit_value(value)),
    {
        let mut this = self;
        this.set_dpl_p1(value);
        this
    }

    /// Enable dynamic payload length for data pipe 1.
    /// Requires `en_dpl` in [`Feature`] and `enaa_p1` in [`EnAa`].
    ///
    /// Bits: 1..2
    pub fn set_dpl_p1(&mut self, value: bool)
        ensures
            final(self)@ as nat == with_field(old(self)@ as nat, 1, 1, bit_value(value)),
    {
        proof {
            lemma2_to64();
        }
        self.0 = write_u8(self.0, 1, 1, if value { 1 } else { 0 });
    }

    /// Enable dynamic payload length for data pipe 1.
    /// Requires `en_dpl` in [`Feature`] and `enaa_p1` in [`EnAa`].
    ///
    /// Bits: 1..2
    pub fn with_dpl_p1_checked(self, value: bool) -> (r: Result<Self, ()>)
        ensures
            (match r {
                Ok(this) => this@ as nat == with_field(self@ as nat, 1, 1, bit_value(value)),
                Err(_) => false,
            }),
    {
        Ok(self.with_dpl_p1(value))
    }

    /// Enable dynamic payload length for data pipe 1.
    /// Requires `en_dpl` in [`Feature`] and `enaa_p1` in [`EnAa`].
    ///
    /// Bits: 1..2
    pub fn set_dpl_p1_checked(&mut self, value: bool) -> (r: Result<(), ()>)
        ensures
            r is Ok,
            final(self)@ as nat == with_field(old(self)@ as nat, 1, 1, bit_value(value)),
    {
        self.set_dpl_p1(value);
        Ok(())
    }

    /// Enable dynamic payload length for data pipe 0.
    /// Requires `en_dpl` in [`Feature`] and `enaa_p0` in [`EnAa`].
    ///
    /// Bits: 0..1
    pub fn dpl_p0(&self) -> (r: bool)
        ensures
            r == (field(self@ as nat, 0, 1) == 1),
    {
        proof {
            lemma2_to64();
        }
        read_u8(self.0, 0, 1) != 0
    }

    /// Enable dynamic payload length for data pipe 0.
    /// Requires `en_dpl` in [`Feature`] and `enaa_p0` in [`EnAa`].
    ///
    /// Bits: 0..1
    pub fn with_dpl_p0(self, value: bool) -> (r: Self)
        ensures
            r@ as nat == with_field(self@ as nat, 0, 1, bit_value(value)),
    {
        let mut this = self;
        this.set_dpl_p0(value);
        this
    }

    /// Enable dynamic payload length for data pipe 0.
    /// Requires `en_dpl` in [`Feature`] and `enaa_p0` in [`EnAa`].
    ///
    /// Bits: 0..1
    pub fn set_dpl_p0(&mut self, value: bool)
        ensures
            final(self)@ as nat == with_field(old(self)@ as nat, 0, 1, bit_value(value)),
    {
        proof {
            lemma2_to64();
        }
        self.0 = write_u8(self.0, 0, 1, if value { 1 } else { 0 });
    }

    /// Enable dynamic payload length for data pipe 0.
    /// Requires `en_dpl` in [`Feature`] and `enaa_p0` in [`EnAa`].
    ///
    /// Bits: 0..1
    pub fn with_dpl_p0_checked(self, value: bool) -> (r: Result<Self, ()>)
        ensures
            (match r {
                Ok(this) => this@ as nat == with_field(self@ as nat, 0, 1, bit_value(value)),
                Err(_) => false,
            }),
    {
        Ok(self.with_dpl_p0(value))
    }

    /// Enable dynamic payload length for data pipe 0.
    /// Requires `en_dpl` in [`Feature`] and `enaa_p0` in [`EnAa`].
    ///
    /// Bits: 0..1
    pub fn set_dpl_p0_checked(&mut self, value: bool) -> (r: Result<(), ()>)
        ensures
            r is Ok,
            final(self)@ as nat == with_field(old(self)@ as nat, 0, 1, bit_value(value)),
    {
        self.set_dpl_p0(value);
        Ok(())
    }
}

impl From<u8> for Dynpd {
    fn from(v: u8) -> (r: Self)
        ensures
            r@ == v,
    {
        Dynpd(v)
    }
}

impl vstd::std_specs::convert::FromSpecImpl<u8> for Dynpd {
    open spec fn obeys_from_spec() -> bool {
        true
    }

    closed spec fn from_spec(v: u8) -> Self {
        Dynpd(v)
    }
}

impl From<Dynpd> for u8 {
    fn from(v: Dynpd) -> (r: Self)
        ensures
            r == v@,
    {
        v.0
    }
}

impl vstd::std_specs::convert::FromSpecImpl<Dynpd> for u8 {
    open spec fn obeys_from_spec() -> bool {
        true
    }

    open spec fn from_spec(v: Dynpd) -> Self {
        v@
    }
}

impl Default for Dynpd {
    fn default() -> (r: Self)
        ensures
            r@ == 0x00,
    {
        Self::new()
    }
}

/// # FEATURE register
/// Enable features _Dynamic Payload Length_, _Payload with ACK_ and `W_TX_PAYLOAD_NO_ACK` command.
///
/// Address = `0x01D`
///
/// ## Fields
/// #### `en_dpl` | bit 2
/// Enables _Dynamic Payload Length_.
///
/// #### `en_ack_pay` | bit 1
/// Enables _Payload with ACK_.
///
/// #### `en_dyn_ack` | bit 0
/// Enables `W_TX_PAYLOAD_NO_ACK` command.
#[derive(Copy, Clone, Debug)]
pub struct Feature(u8);

impl View for Feature {
    type V = u8;

    /// The register byte.
    closed spec fn view(&self) -> u8 {
        self.0
    }
}

impl Feature {
    pub const ADDRESS: u8 = 0x1D;

    /// A register holding the default value of every field.
    pub fn new() -> (r: Self)
        ensures
            r@ == 0x00,
    {
        proof {
            lemma2_to64();
        }
        Feature(0x00)
    }

    /// The register holding exactly `bits`.
    pub fn from_bits(bits: u8) -> (r: Self)
        ensures
            r@ == bits,
    {
        Feature(bits)
    }

    /// The register byte.
    pub fn into_bits(self) -> (r: u8)
        ensures
            r == self@,
    {
        self.0
    }

    /// The register's address.
    pub fn address(&self) -> (r: u8)
        ensures
            r == Self::ADDRESS,
    {
        Self::ADDRESS
    }

    /// The SPI byte sequence that writes this value to the register.
    pub fn as_write_bytes(&self) -> (r: [u8; 2])
        ensures
            r@ == seq![WRegister::WORD | Self::ADDRESS, self@],
            r@[0] == 0x3d,
    {
        assert(0x20u8 | 0x1D == 0x3d) by (bit_vector);
        [WRegister::WORD | Self::ADDRESS, self.0]
    }

    /// The SPI byte sequence that reads the register.
    pub fn as_read_bytes() -> (r: [u8; 2])
        ensures
            r@ == seq![Self::ADDRESS, 0u8],
    {
        [Self::ADDRESS, 0]
    }

    /// Enables _Dynamic Payload Length_.
    ///
    /// Bits: 2..3
    pub fn en_dpl(&self) -> (r: bool)
        ensures
            r == (field(self@ as nat, 2, 1) == 1),
    {
        proof {
            lemma2_to64();
        }
        read_u8(self.0, 2, 1) != 0
    }

    /// Enables _Dynamic Payload Length_.
    ///
    /// Bits: 2..3
    pub fn with_en_dpl(self, value: bool) -> (r: Self)
        ensures
            r@ as nat == with_field(self@ as nat, 2, 1, bit_value(value)),
    {
        let mut this = self;
        this.set_en_dpl(value);
        this
    }

    /// Enables _Dynamic Payload Length_.
    ///
    /// Bits: 2..3
    pub fn set_en_dpl(&mut self, value: bool)
        ensures
            final(self)@ as nat == with_field(old(self)@ as nat, 2, 1, bit_value(value)),
    {
        proof {
            lemma2_to64();
        }
        self.0 = write_u8(self.0, 2, 1, if value { 1 } else { 0 });
    }

    /// Enables _Dynamic Payload Length_.
    ///
    /// Bits: 2..3
    pub fn with_en_dpl_checked(self, value: bool) -> (r: Result<Self, ()>)
        ensures
            (match r {
                Ok(this) => this@ as nat == with_field(self@ as nat, 2, 1, bit_value(value)),
                Err(_) => false,
            }),
    {
        Ok(self.with_en_dpl(value))
    }

    /// Enables _Dynamic Payload Length_.
    ///
    /// Bits: 2..3
    pub fn set_en_dpl_checked(&mut self, value: bool) -> (r: Result<(), ()>)
        ensures
            r is Ok,
            final(self)@ as nat == with_field(old(self)@ as nat, 2, 1, bit_value(value)),
    {
        self.set_en_dpl(value);
        Ok(())
    }

    /// Enables _Payload with ACK_.
    ///
    /// Bits: 1..2
    pub fn en_ack_pay(&self) -> (r: bool)
        ensures
            r == (field(self@ as nat, 1, 1) == 1),
    {
        proof {
            lemma2_to64();
        }
        read_u8(self.0, 1, 1) != 0
    }

    /// Enables _Payload with ACK_.
    ///
    /// Bits: 1..2
    pub fn with_en_ack_pay(self, value: bool) -> (r: Self)
        ensures
            r@ as nat == with_field(self@ as nat, 1, 1, bit_value(value)),
    {
        let mut this = self;
        this.set_en_ack_pay(value);
        this
    }

    /// Enables _Payload with ACK_.
    ///
    /// Bits: 1..2
    pub fn set_en_ack_pay(&mut self, value: bool)
        ensures
            final(self)@ as nat == with_field(old(self)@ as nat, 1, 1, bit_value(value)),
    {
        proof {
            lemma2_to64();
        }
        self.0 = write_u8(self.0, 1, 1, if value { 1 } else { 0 });
    }

    /// Enables _Payload with ACK_.
    ///
    /// Bits: 1..2
    pub fn with_en_ack_pay_checked(self, value: bool) -> (r: Result<Self, ()>)
        ensures
            (match r {
                Ok(this) => this@ as nat == with_field(self@ as nat, 1, 1, bit_value(value)),
                Err(_) => false,
            }),
    {
        Ok(self.with_en_ack_pay(value))
    }

    /// Enables _Payload with ACK_.
    ///
    /// Bits: 1..2
    pub fn set_en_ack_pay_checked(&mut self, value: bool) -> (r: Result<(), ()>)
        ensures
            r is Ok,
            final(self)@ as nat == with_field(old(self)@ as nat, 1, 1, bit_value(value)),
    {
        self.set_en_ack_pay(value);
        Ok(())
    }

    /// Enables 'W_TX_PAYLOAD_NO_ACK' command.
    ///
    /// Bits: 0..1
    pub fn en_dyn_ack(&self) -> (r: bool)
        ensures
            r == (field(self@ as nat, 0, 1) == 1),
    {
        proof {
            lemma2_to64();
        }
        read_u8(self.0, 0, 1) != 0
    }

    /// Enables 'W_TX_PAYLOAD_NO_ACK' command.
    ///
    /// Bits: 0..1
    pub fn with_en_dyn_ack(self, value: bool) -> (r: Self)
        ensures
            r@ as nat == with_field(self@ as nat, 0, 1, bit_value(value)),
    {
        let mut this = self;
        this.set_en_dyn_ack(value);
        this
    }

    /// Enables 'W_TX_PAYLOAD_NO_ACK' command.
    ///
    /// Bits: 0..1
    pub fn set_en_dyn_ack(&mut self, value: bool)
        ensures
            final(self)@ as nat == with_field(old(self)@ as nat, 0, 1, bit_value(value)),
    {
        proof {
            lemma2_to64();
        }
        self.0 = write_u8(self.0, 0, 1, if value { 1 } else { 0 });
    }

    /// Enables 'W_TX_PAYLOAD_NO_ACK' command.
    ///
    /// Bits: 0..1
    pub fn with_en_dyn_ack_checked(self, value: bool) -> (r: Result<Self, ()>)
        ensures
            (match r {
                Ok(this) => this@ as nat == with_field(self@ as nat, 0, 1, bit_value(value)),
                Err(_) => false,
            }),
    {
        Ok(self.with_en_dyn_ack(value))
    }

    /// Enables 'W_TX_PAYLOAD_NO_ACK' command.
    ///
    /// Bits: 0..1
    pub fn set_en_dyn_ack_checked(&mut self, value: bool) -> (r: Result<(), ()>)
        ensures
            r is Ok,
            final(self)@ as nat == with_field(old(self)@ as nat, 0, 1, bit_value(value)),
    {
        self.set_en_dyn_ack(value);
        Ok(())
    }
}

impl From<u8> for Feature {
    fn from(v: u8) -> (r: Self)
        ensures
            r@ == v,
    {
        Feature(v)
    }
}

impl vstd::std_specs::convert::FromSpecImpl<u8> for Feature {
    open spec fn obeys_from_spec() -> bool {
        true
    }

    closed spec fn from_spec(v: u8) -> Self {
        Feature(v)
    }
}

impl From<Feature> for u8 {
    fn from(v: Feature) -> (r: Self)
        ensures
            r == v@,
    {
        v.0
    }
}

impl vstd::std_specs::convert::FromSpecImpl<Feature> for u8 {
    open spec fn obeys_from_spec() -> bool {
        true
    }

    open spec fn from_spec(v: Feature) -> Self {
        v@
    }
}

impl Default for Feature {
    fn default() -> (r: Self)
        ensures
            r@ == 0x00,
    {
        Self::new()
    }
}


/// The first `N` bytes of `addr` in little-endian order. `N` must be at most 8.
pub fn address_into_bytes<const N: usize>(addr: u64) -> (r: [u8; N])
    requires
        N <= 8,
    ensures
        forall|i: int| 0 <= i < N ==> r@[i] as nat == le_byte(addr as nat, i as nat),
{
    let mut bytes = [0u8; N];
    let mut i: usize = 0;
    while i < N
        invariant
            i <= N,
            N <= 8,
            bytes@.len() == N,
            forall|j: int| 0 <= j < i ==> bytes@[j] as nat == le_byte(addr as nat, j as nat),
        decreases N - i,
    {
        let b = read_u64(addr, 8 * (i as u64), 8);
        proof {
            lemma2_to64();
        }
        bytes[i] = b as u8;
        i += 1;
    }
    bytes
}

/// The address bytes of a 64-bit address register are the bytes of its 40-bit address field.
proof fn lemma_address_bytes(bits: u64, i: nat)
    requires
        i < 5,
    ensures
        le_byte(bits as nat, i) == le_byte(field(bits as nat, 0, 40), i),
{
    lemma2_to64();
    lemma_field_below(bits as nat, 40, 8 * i, 8);
    assert(bits as nat / pow2(0) == bits as nat);
}

/// # RX_ADDR_P0 register
/// RX address data pipe 0.
///
/// Address = `0x0A`
///
/// Const parameter `N`: address width in bytes.
/// <div class="warning">
/// N must be of {3, 4, 5}.
/// </div>
///
/// ## Fields
/// #### `rx_addr_p0` | bits 39:0
/// RX address data pipe 0. Default value: `0xE7E7E7E7E7`.
#[derive(Copy, Clone, Debug)]
pub struct RxAddrP0<const N: usize>(u64);

impl<const N: usize> View for RxAddrP0<N> {
    type V = u64;

    /// The register's 64-bit value; the address is its low 40 bits.
    closed spec fn view(&self) -> u64 {
        self.0
    }
}

impl<const N: usize> RxAddrP0<N> {
    pub const ADDRESS: u8 = 0x0A;

    /// A register holding the default address.
    pub fn new() -> (r: Self)
        ensures
            r@ == 0xE7E7E7E7E7,
            field(r@ as nat, 0, 40) == 0xE7E7E7E7E7,
    {
        proof {
            lemma2_to64();
            lemma2_to64_rest();
        }
        RxAddrP0(0xE7E7E7E7E7)
    }

    /// The register holding exactly `bits`.
    pub fn from_bits(bits: u64) -> (r: Self)
        ensures
            r@ == bits,
    {
        RxAddrP0(bits)
    }

    /// The first `N` bytes of the register value, least significant first.
    fn into_bytes(self) -> (r: [u8; N])
        requires
            N <= 8,
        ensures
            forall|i: int| 0 <= i < N ==> r@[i] as nat == le_byte(self@ as nat, i as nat),
    {
        address_into_bytes(self.0)
    }

    /// RX address data pipe 0. Default value: `0xE7E7E7E7E7`.
    ///
    /// Bits: 0..40
    pub fn rx_addr_p0(&self) -> (r: u64)
        ensures
            r as nat == field(self@ as nat, 0, 40),
    {
        read_u64(self.0, 0, 40)
    }

    /// RX address data pipe 0. Default value: `0xE7E7E7E7E7`.
    ///
    /// Bits: 0..40
    pub fn with_rx_addr_p0(self, value: u64) -> (r: Self)
        requires
            value <= 0xFF_FFFF_FFFF,
        ensures
            r@ as nat == with_field(self@ as nat, 0, 40, value as nat),
    {
        proof {
            lemma2_to64_rest();
        }
        RxAddrP0(write_low_u64(self.0, 40, value))
    }
}

impl<const N: usize> Default for RxAddrP0<N> {
    fn default() -> (r: Self)
        ensures
            r@ == 0xE7E7E7E7E7,
    {
        Self::new()
    }
}

impl RxAddrP0<3> {
    /// The SPI byte sequence that writes the 3-byte address to the register:
    /// the write command word, then the address bytes, least significant first.
    pub fn as_write_bytes(&self) -> (r: [u8; 4])
        ensures
            r@[0] == WRegister::WORD | Self::ADDRESS,
            r@[0] == 0x2a,
            forall|i: int|
                1 <= i <= 3 ==> #[trigger] r@[i] as nat == le_byte(
                    field(self@ as nat, 0, 40),
                    (i - 1) as nat,
                ),
            le_value(r@.drop_first()) == field(self@ as nat, 0, 24),
    {
        let addr = self.into_bytes();
        assert(0x20u8 | 0x0A == 0x2a) by (bit_vector);
        proof {
            assert forall|i: int| 0 <= i < 3 implies #[trigger] le_byte(self@ as nat, i as nat) == le_byte(
                field(self@ as nat, 0, 40),
                i as nat,
            ) by {
                lemma_address_bytes(self@, i as nat);
            }
        }
        let r = [WRegister::WORD | Self::ADDRESS, addr[0], addr[1], addr[2]];
        proof {
            let x = self@ as nat;
            lemma2_to64();
            lemma2_to64_rest();
            lemma_le_value_of_le_bytes(field(x, 0, 40), r@.drop_first());
            lemma_field_below(x, 40, 0, 24);
            assert(x / pow2(0) == x);
            assert(x % pow2(40) / pow2(0) == x % pow2(40));
        }
        r
    }

    /// The SPI byte sequence that reads the 3-byte address of the register.
    pub fn as_read_bytes() -> (r: [u8; 4])
        ensures
            r@ == seq![Self::ADDRESS, 0u8, 0u8, 0u8],
    {
        [Self::ADDRESS, 0, 0, 0]
    }
}

impl RxAddrP0<4> {
    /// The SPI byte sequence that writes the 4-byte address to the register:
    /// the write command word, then the address bytes, least significant first.
    pub fn as_write_bytes(&self) -> (r: [u8; 5])
        ensures
            r@[0] == WRegister::WORD | Self::ADDRESS,
            r@[0] == 0x2a,
            forall|i: int|
                1 <= i <= 4 ==> #[trigger] r@[i] as nat == le_byte(
                    field(self@ as nat, 0, 40),
                    (i - 1) as nat,
                ),
            le_value(r@.drop_first()) == field(self@ as nat, 0, 32),
    {
        let addr = self.into_bytes();
        assert(0x20u8 | 0x0A == 0x2a) by (bit_vector);
        proof {
            assert forall|i: int| 0 <= i < 4 implies #[trigger] le_byte(self@ as nat, i as nat) == le_byte(
                field(self@ as nat, 0, 40),
                i as nat,
            ) by {
                lemma_address_bytes(self@, i as nat);
            }
        }
        let r = [WRegister::WORD | Self::ADDRESS, addr[0], addr[1], addr[2], addr[3]];
        proof {
            let x = self@ as nat;
            lemma2_to64();
            lemma2_to64_rest();
            lemma_le_value_of_le_bytes(field(x, 0, 40), r@.drop_first());
            lemma_field_below(x, 40, 0, 32);
            assert(x / pow2(0) == x);
            assert(x % pow2(40) / pow2(0) == x % pow2(40));
        }
        r
    }

    /// The SPI byte sequence that reads the 4-byte address of the register.
    pub fn as_read_bytes() -> (r: [u8; 5])
        ensures
            r@ == seq![Self::ADDRESS, 0u8, 0u8, 0u8, 0u8],
    {
        [Self::ADDRESS, 0, 0, 0, 0]
    }
}

impl RxAddrP0<5> {
    /// The SPI byte sequence that writes the 5-byte address to the register:
    /// the write command word, then the address bytes, least significant first.
    pub fn as_write_bytes(&self) -> (r: [u8; 6])
        ensures
            r@[0] == WRegister::WORD | Self::ADDRESS,
            r@[0] == 0x2a,
            forall|i: int|
                1 <= i <= 5 ==> #[trigger] r@[i] as nat == le_byte(
                    field(self@ as nat, 0, 40),
                    (i - 1) as nat,
                ),
            le_value(r@.drop_first()) == field(self@ as nat, 0, 40),
    {
        let addr = self.into_bytes();
        assert(0x20u8 | 0x0A == 0x2a) by (bit_vector);
        proof {
            assert forall|i: int| 0 <= i < 5 implies #[trigger] le_byte(self@ as nat, i as nat) == le_byte(
                field(self@ as nat, 0, 40),
                i as nat,
            ) by {
                lemma_address_bytes(self@, i as nat);
            }
        }
        let r = [WRegister::WORD | Self::ADDRESS, addr[0], addr[1], addr[2], addr[3], addr[4]];
        proof {
            let x = self@ as nat;
            lemma2_to64();
            lemma2_to64_rest();
            lemma_le_value_of_le_bytes(field(x, 0, 40), r@.drop_first());
            lemma_field_below(x, 40, 0, 40);
            assert(x / pow2(0) == x);
            assert(x % pow2(40) / pow2(0) == x % pow2(40));
        }
        r
    }

    /// The SPI byte sequence that reads the 5-byte address of the register.
    pub fn as_read_bytes() -> (r: [u8; 6])
        ensures
            r@ == seq![Self::ADDRESS, 0u8, 0u8, 0u8, 0u8, 0u8],
    {
        [Self::ADDRESS, 0, 0, 0, 0, 0]
    }
}

/// # RX_ADDR_P1 register
/// RX address data pipe 1.
///
/// Address = `0x0B`
///
/// Const parameter `N`: address width in bytes.
/// <div class="warning">
/// N must be of {3, 4, 5}.
/// </div>
///
/// ## Fields
/// #### `rx_addr_p1` | bits 39:0
/// RX address data pipe 1. Default value: `0xC2C2C2C2C2`.
#[derive(Copy, Clone, Debug)]
pub struct RxAddrP1<const N: usize>(u64);

impl<const N: usize> View for RxAddrP1<N> {
    type V = u64;

    /// The register's 64-bit value; the address is its low 40 bits.
    closed spec fn view(&self) -> u64 {
        self.0
    }
}

impl<const N: usize> RxAddrP1<N> {
    pub const ADDRESS: u8 = 0x0B;

    /// A register holding the default address.
    pub fn new() -> (r: Self)
        ensures
            r@ == 0xC2C2C2C2C2,
            field(r@ as nat, 0, 40) == 0xC2C2C2C2C2,
    {
        proof {
            lemma2_to64();
            lemma2_to64_rest();
        }
        RxAddrP1(0xC2C2C2C2C2)
    }

    /// The register holding exactly `bits`.
    pub fn from_bits(bits: u64) -> (r: Self)
        ensures
            r@ == bits,
    {
        RxAddrP1(bits)
    }

    /// The first `N` bytes of the register value, least significant first.
    fn into_bytes(self) -> (r: [u8; N])
        requires
            N <= 8,
        ensures
            forall|i: int| 0 <= i < N ==> r@[i] as nat == le_byte(self@ as nat, i as nat),
    {
        address_into_bytes(self.0)
    }

    /// RX address data pipe 1. Default value: `0xC2C2C2C2C2`.
    ///
    /// Bits: 0..40
    pub fn rx_addr_p1(&self) -> (r: u64)
        ensures
            r as nat == field(self@ as nat, 0, 40),
    {
        read_u64(self.0, 0, 40)
    }

    /// RX address data pipe 1. Default value: `0xC2C2C2C2C2`.
    ///
    /// Bits: 0..40
    pub fn with_rx_addr_p1(self, value: u64) -> (r: Self)
        requires
            value <= 0xFF_FFFF_FFFF,
        ensures
            r@ as nat == with_field(self@ as nat, 0, 40, value as nat),
    {
        proof {
            lemma2_to64_rest();
        }
        RxAddrP1(write_low_u64(self.0, 40, value))
    }
}

impl<const N: usize> Default for RxAddrP1<N> {
    fn default() -> (r: Self)
        ensures
            r@ == 0xC2C2C2C2C2,
    {
        Self::new()
    }
}

impl RxAddrP1<3> {
    /// The SPI byte sequence that writes the 3-byte address to the register:
    /// the write command word, then the address bytes, least significant first.
    pub fn as_write_bytes(&self) -> (r: [u8; 4])
        ensures
            r@[0] == WRegister::WORD | Self::ADDRESS,
            r@[0] == 0x2b,
            forall|i: int|
                1 <= i <= 3 ==> #[trigger] r@[i] as nat == le_byte(
                    field(self@ as nat, 0, 40),
                    (i - 1) as nat,
                ),
            le_value(r@.drop_first()) == field(self@ as nat, 0, 24),
    {
        let addr = self.into_bytes();
        assert(0x20u8 | 0x0B == 0x2b) by (bit_vector);
        proof {
            assert forall|i: int| 0 <= i < 3 implies #[trigger] le_byte(self@ as nat, i as nat) == le_byte(
                field(self@ as nat, 0, 40),
                i as nat,
            ) by {
                lemma_address_bytes(self@, i as nat);
            }
        }
        let r = [WRegister::WORD | Self::ADDRESS, addr[0], addr[1], addr[2]];
        proof {
            let x = self@ as nat;
            lemma2_to64();
            lemma2_to64_rest();
            lemma_le_value_of_le_bytes(field(x, 0, 40), r@.drop_first());
            lemma_field_below(x, 40, 0, 24);
            assert(x / pow2(0) == x);
            assert(x % pow2(40) / pow2(0) == x % pow2(40));
        }
        r
    }

    /// The SPI byte sequence that reads the 3-byte address of the register.
    pub fn as_read_bytes() -> (r: [u8; 4])
        ensures
            r@ == seq![Self::ADDRESS, 0u8, 0u8, 0u8],
    {
        [Self::ADDRESS, 0, 0, 0]
    }
}

impl RxAddrP1<4> {
    /// The SPI byte sequence that writes the 4-byte address to the register:
    /// the write command word, then the address bytes, least significant first.
    pub fn as_write_bytes(&self) -> (r: [u8; 5])
        ensures
            r@[0] == WRegister::WORD | Self::ADDRESS,
            r@[0] == 0x2b,
            forall|i: int|
                1 <= i <= 4 ==> #[trigger] r@[i] as nat == le_byte(
                    field(self@ as nat, 0, 40),
                    (i - 1) as nat,
                ),
            le_value(r@.drop_first()) == field(self@ as nat, 0, 32),
    {
        let addr = self.into_bytes();
        assert(0x20u8 | 0x0B == 0x2b) by (bit_vector);
        proof {
            assert forall|i: int| 0 <= i < 4 implies #[trigger] le_byte(self@ as nat, i as nat) == le_byte(
                field(self@ as nat, 0, 40),
                i as nat,
            ) by {
                lemma_address_bytes(self@, i as nat);
            }
        }
        let r = [WRegister::WORD | Self::ADDRESS, addr[0], addr[1], addr[2], addr[3]];
        proof {
            let x = self@ as nat;
            lemma2_to64();
            lemma2_to64_rest();
            lemma_le_value_of_le_bytes(field(x, 0, 40), r@.drop_first());
            lemma_field_below(x, 40, 0, 32);
            assert(x / pow2(0) == x);
            assert(x % pow2(40) / pow2(0) == x % pow2(40));
        }
        r
    }

    /// The SPI byte sequence that reads the 4-byte address of the register.
    pub fn as_read_bytes() -> (r: [u8; 5])
        ensures
            r@ == seq![Self::ADDRESS, 0u8, 0u8, 0u8, 0u8],
    {
        [Self::ADDRESS, 0, 0, 0, 0]
    }
}

impl RxAddrP1<5> {
    /// The SPI byte sequence that writes the 5-byte address to the register:
    /// the write command word, then the address bytes, least significant first.
    pub fn as_write_bytes(&self) -> (r: [u8; 6])
        ensures
            r@[0] == WRegister::WORD | Self::ADDRESS,
            r@[0] == 0x2b,
            forall|i: int|
                1 <= i <= 5 ==> #[trigger] r@[i] as nat == le_byte(
                    field(self@ as nat, 0, 40),
                    (i - 1) as nat,
                ),
            le_value(r@.drop_first()) == field(self@ as nat, 0, 40),
    {
        let addr = self.into_bytes();
        assert(0x20u8 | 0x0B == 0x2b) by (bit_vector);
        proof {
            assert forall|i: int| 0 <= i < 5 implies #[trigger] le_byte(self@ as nat, i as nat) == le_byte(
                field(self@ as nat, 0, 40),
                i as nat,
            ) by {
                lemma_address_bytes(self@, i as nat);
            }
        }
        let r = [WRegister::WORD | Self::ADDRESS, addr[0], addr[1], addr[2], addr[3], addr[4]];
        proof {
            let x = self@ as nat;
            lemma2_to64();
            lemma2_to64_rest();
            lemma_le_value_of_le_bytes(field(x, 0, 40), r@.drop_first());
            lemma_field_below(x, 40, 0, 40);
            assert(x / pow2(0) == x);
            assert(x % pow2(40) / pow2(0) == x % pow2(40));
        }
        r
    }

    /// The SPI byte sequence that reads the 5-byte address of the register.
    pub fn as_read_bytes() -> (r: [u8; 6])
        ensures
            r@ == seq![Self::ADDRESS, 0u8, 0u8, 0u8, 0u8, 0u8],
    {
        [Self::ADDRESS, 0, 0, 0, 0, 0]
    }
}

/// # TX_ADDR register
/// TX address. Set [`RxAddrP0`] equal to this address to handle ACK automatically.
///
/// Address = `0x10`
///
/// Const parameter `N`: address width in bytes.
/// <div class="warning">
/// N must be of {3, 4, 5}.
/// </div>
///
/// ## Fields
/// #### `tx_addr` | bits 39:0
/// TX address. Default value: `0xE7E7E7E7E7`.
#[derive(Copy, Clone, Debug)]
pub struct TxAddr<const N: usize>(u64);

impl<const N: usize> View for TxAddr<N> {
    type V = u64;

    /// The register's 64-bit value; the address is its low 40 bits.
    closed spec fn view(&self) -> u64 {
        self.0
    }
}

impl<const N: usize> TxAddr<N> {
    pub const ADDRESS: u8 = 0x10;

    /// A register holding the default address.
    pub fn new() -> (r: Self)
        ensures
            r@ == 0xE7E7E7E7E7,
            field(r@ as nat, 0, 40) == 0xE7E7E7E7E7,
    {
        proof {
            lemma2_to64();
            lemma2_to64_rest();
        }
        TxAddr(0xE7E7E7E7E7)
    }

    /// The register holding exactly `bits`.
    pub fn from_bits(bits: u64) -> (r: Self)
        ensures
            r@ == bits,
    {
        TxAddr(bits)
    }

    /// The first `N` bytes of the register value, least significant first.
    fn into_bytes(self) -> (r: [u8; N])
        requires
            N <= 8,
        ensures
            forall|i: int| 0 <= i < N ==> r@[i] as nat == le_byte(self@ as nat, i as nat),
    {
        address_into_bytes(self.0)
    }

    /// TX address. Default value: `0xE7E7E7E7E7`.
    ///
    /// Bits: 0..40
    pub fn tx_addr(&self) -> (r: u64)
        ensures
            r as nat == field(self@ as nat, 0, 40),
    {
        read_u64(self.0, 0, 40)
    }

    /// TX address. Default value: `0xE7E7E7E7E7`.
    ///
    /// Bits: 0..40
    pub fn with_tx_addr(self, value: u64) -> (r: Self)
        requires
            value <= 0xFF_FFFF_FFFF,
        ensures
            r@ as nat == with_field(self@ as nat, 0, 40, value as nat),
    {
        proof {
            lemma2_to64_rest();
        }
        TxAddr(write_low_u64(self.0, 40, value))
    }
}

impl<const N: usize> Default for TxAddr<N> {
    fn default() -> (r: Self)
        ensures
            r@ == 0xE7E7E7E7E7,
    {
        Self::new()
    }
}

impl TxAddr<3> {
    /// The SPI byte sequence that writes the 3-byte address to the register:
    /// the write command word, then the address bytes, least significant first.
    pub fn as_write_bytes(&self) -> (r: [u8; 4])
        ensures
            r@[0] == WRegister::WORD | Self::ADDRESS,
            r@[0] == 0x30,
            forall|i: int|
                1 <= i <= 3 ==> #[trigger] r@[i] as nat == le_byte(
                    field(self@ as nat, 0, 40),
                    (i - 1) as nat,
                ),
            le_value(r@.drop_first()) == field(self@ as nat, 0, 24),
    {
        let addr = self.into_bytes();
        assert(0x20u8 | 0x10 == 0x30) by (bit_vector);
        proof {
            assert forall|i: int| 0 <= i < 3 implies #[trigger] le_byte(self@ as nat, i as nat) == le_byte(
                field(self@ as nat, 0, 40),
                i as nat,
            ) by {
                lemma_address_bytes(self@, i as nat);
            }
        }
        let r = [WRegister::WORD | Self::ADDRESS, addr[0], addr[1], addr[2]];
        proof {
            let x = self@ as nat;
            lemma2_to64();
            lemma2_to64_rest();
            lemma_le_value_of_le_bytes(field(x, 0, 40), r@.drop_first());
            lemma_field_below(x, 40, 0, 24);
            assert(x / pow2(0) == x);
            assert(x % pow2(40) / pow2(0) == x % pow2(40));
        }
        r
    }

    /// The SPI byte sequence that reads the 3-byte address of the register.
    pub fn as_read_bytes() -> (r: [u8; 4])
        ensures
            r@ == seq![Self::ADDRESS, 0u8, 0u8, 0u8],
    {
        [Self::ADDRESS, 0, 0, 0]
    }
}

impl TxAddr<4> {
    /// The SPI byte sequence that writes the 4-byte address to the register:
    /// the write command word, then the address bytes, least significant first.
    pub fn as_write_bytes(&self) -> (r: [u8; 5])
        ensures
            r@[0] == WRegister::WORD | Self::ADDRESS,
            r@[0] == 0x30,
            forall|i: int|
                1 <= i <= 4 ==> #[trigger] r@[i] as nat == le_byte(
                    field(self@ as nat, 0, 40),
                    (i - 1) as nat,
                ),
            le_value(r@.drop_first()) == field(self@ as nat, 0, 32),
    {
        let addr = self.into_bytes();
        assert(0x20u8 | 0x10 == 0x30) by (bit_vector);
        proof {
            assert forall|i: int| 0 <= i < 4 implies #[trigger] le_byte(self@ as nat, i as nat) == le_byte(
                field(self@ as nat, 0, 40),
                i as nat,
            ) by {
                lemma_address_bytes(self@, i as nat);
            }
        }
        let r = [WRegister::WORD | Self::ADDRESS, addr[0], addr[1], addr[2], addr[3]];
        proof {
            let x = self@ as nat;
            lemma2_to64();
            lemma2_to64_rest();
            lemma_le_value_of_le_bytes(field(x, 0, 40), r@.drop_first());
            lemma_field_below(x, 40, 0, 32);
            assert(x / pow2(0) == x);
            assert(x % pow2(40) / pow2(0) == x % pow2(40));
        }
        r
    }

    /// The SPI byte sequence that reads the 4-byte address of the register.
    pub fn as_read_bytes() -> (r: [u8; 5])
        ensures
            r@ == seq![Self::ADDRESS, 0u8, 0u8, 0u8, 0u8],
    {
        [Self::ADDRESS, 0, 0, 0, 0]
    }
}

impl TxAddr<5> {
    /// The SPI byte sequence that writes the 5-byte address to the register:
    /// the write command word, then the address bytes, least significant first.
    pub fn as_write_bytes(&self) -> (r: [u8; 6])
        ensures
            r@[0] == WRegister::WORD | Self::ADDRESS,
            r@[0] == 0x30,
            forall|i: int|
                1 <= i <= 5 ==> #[trigger] r@[i] as nat == le_byte(
                    field(self@ as nat, 0, 40),
                    (i - 1) as nat,
                ),
            le_value(r@.drop_first()) == field(self@ as nat, 0, 40),
    {
        let addr = self.into_bytes();
        assert(0x20u8 | 0x10 == 0x30) by (bit_vector);
        proof {
            assert forall|i: int| 0 <= i < 5 implies #[trigger] le_byte(self@ as nat, i as nat) == le_byte(
                field(self@ as nat, 0, 40),
                i as nat,
            ) by {
                lemma_address_bytes(self@, i as nat);
            }
        }
        let r = [WRegister::WORD | Self::ADDRESS, addr[0], addr[1], addr[2], addr[3], addr[4]];
        proof {
            let x = self@ as nat;
            lemma2_to64();
            lemma2_to64_rest();
            lemma_le_value_of_le_bytes(field(x, 0, 40), r@.drop_first());
            lemma_field_below(x, 40, 0, 40);
            assert(x / pow2(0) == x);
            assert(x % pow2(40) / pow2(0) == x % pow2(40));
        }
        r
    }

    /// The SPI byte sequence that reads the 5-byte address of the register.
    pub fn as_read_bytes() -> (r: [u8; 6])
        ensures
            r@ == seq![Self::ADDRESS, 0u8, 0u8, 0u8, 0u8, 0u8],
    {
        [Self::ADDRESS, 0, 0, 0, 0, 0]
    }
}

} // verus!
