//! The arithmetic model of a bitfield and the laws that every register of
//! this crate inherits from it.
//!
//! A register value is a natural number. The field of `width` bits that
//! starts at bit `offset` holds `(bits / 2^offset) % 2^width`; writing a field
//! keeps the bits above and below it and puts the new value in between.
use vstd::prelude::*;
use vstd::arithmetic::power2::{
    pow2,
    lemma_pow2_adds,
    lemma_pow2_pos,
    lemma_pow2_strictly_increases,
    lemma2_to64,
    lemma2_to64_rest,
};
use vstd::bits::{
    low_bits_mask,
    lemma_u8_shr_is_div,
    lemma_u8_low_bits_mask_is_mod,
    lemma_u64_shr_is_div,
    lemma_u64_low_bits_mask_is_mod,
    lemma_u64_shl_is_mul,
};
use vstd::arithmetic::div_mod::{
    lemma_fundamental_div_mod,
    lemma_fundamental_div_mod_converse,
    lemma_div_denominator,
    lemma_mod_breakdown,
};

verus! {

/// The value held by the `width` bits of `bits` that start at bit `offset`.
pub open spec fn field(bits: nat, offset: nat, width: nat) -> nat {
    (bits / pow2(offset)) % pow2(width)
}

/// `bits` with the `width` bits that start at bit `offset` replaced by `value`:
/// the bits above the field, then `value`, then the bits below the field.
pub open spec fn with_field(bits: nat, offset: nat, width: nat, value: nat) -> nat {
    (bits / pow2(offset + width)) * pow2(offset + width) + value * pow2(offset) + bits % pow2(
        offset,
    )
}

/// The field value of a one-bit flag.
pub open spec fn bit_value(b: bool) -> nat {
    if b {
        1
    } else {
        0
    }
}

/// Byte `i` of `x` in little-endian order.
pub open spec fn le_byte(x: nat, i: nat) -> nat {
    field(x, 8 * i, 8)
}

/// The number that a sequence of bytes stands for, least significant byte first.
pub open spec fn le_value(bytes: Seq<u8>) -> nat
    decreases bytes.len(),
{
    if bytes.len() == 0 {
        0
    } else {
        bytes[0] as nat + 256 * le_value(bytes.drop_first())
    }
}

/// Every value splits into the bits above a field, the field and the bits below it.
pub proof fn lemma_field_decompose(bits: nat, offset: nat, width: nat)
    ensures
        bits == (bits / pow2(offset + width)) * pow2(offset + width) + field(bits, offset, width)
            * pow2(offset) + bits % pow2(offset),
        field(bits, offset, width) < pow2(width),
        bits % pow2(offset) < pow2(offset),
{
    let p = pow2(offset) as int;
    let q = pow2(width) as int;
    lemma_pow2_pos(offset);
    lemma_pow2_pos(width);
    lemma_pow2_adds(offset, width);
    let a = bits as int / p;
    lemma_fundamental_div_mod(bits as int, p);
    lemma_fundamental_div_mod(a, q);
    lemma_div_denominator(bits as int, p, q);
    let hi = a / q;
    let f = a % q;
    let lo = bits as int % p;
    assert(bits == hi * (p * q) + f * p + lo) by (nonlinear_arith)
        requires
            bits == p * a + lo,
            a == q * hi + f,
    ;
}

/// A value written as bits above a field, a field value that fits and bits
/// below the field determines all three.
pub proof fn lemma_field_unique(x: nat, offset: nat, width: nat, hi: nat, f: nat, lo: nat)
    requires
        f < pow2(width),
        lo < pow2(offset),
        x == hi * pow2(offset + width) + f * pow2(offset) + lo,
    ensures
        field(x, offset, width) == f,
        x % pow2(offset) == lo,
        x / pow2(offset + width) == hi,
{
    let p = pow2(offset) as int;
    let q = pow2(width) as int;
    lemma_pow2_pos(offset);
    lemma_pow2_pos(width);
    lemma_pow2_adds(offset, width);
    let a = hi * q + f;
    assert(x == a * p + lo) by (nonlinear_arith)
        requires
            x == hi * (p * q) + f * p + lo,
            a == hi * q + f,
    ;
    lemma_fundamental_div_mod_converse(x as int, p, a, lo as int);
    lemma_fundamental_div_mod_converse(a, q, hi as int, f as int);
    lemma_div_denominator(x as int, p, q);
}

/// Reading a field back after writing a value that fits gives that value.
pub proof fn lemma_field_of_with_field(bits: nat, offset: nat, width: nat, value: nat)
    requires
        value < pow2(width),
    ensures
        field(with_field(bits, offset, width, value), offset, width) == value,
{
    lemma_field_decompose(bits, offset, width);
    lemma_field_unique(
        with_field(bits, offset, width, value),
        offset,
        width,
        bits / pow2(offset + width),
        value,
        bits % pow2(offset),
    );
}

/// Writing back the value a field already holds leaves the bits unchanged.
pub proof fn lemma_with_field_of_field(bits: nat, offset: nat, width: nat)
    ensures
        with_field(bits, offset, width, field(bits, offset, width)) == bits,
{
    lemma_field_decompose(bits, offset, width);
}

/// A second write to a field overrides the first.
pub proof fn lemma_with_field_twice(bits: nat, offset: nat, width: nat, first: nat, second: nat)
    requires
        first < pow2(width),
    ensures
        with_field(with_field(bits, offset, width, first), offset, width, second) == with_field(
            bits,
            offset,
            width,
            second,
        ),
{
    lemma_field_decompose(bits, offset, width);
    lemma_field_unique(
        with_field(bits, offset, width, first),
        offset,
        width,
        bits / pow2(offset + width),
        first,
        bits % pow2(offset),
    );
}

/// Division by `2^a` and then by `2^c` is division by `2^(a + c)`.
proof fn lemma_div_pow2_twice(x: nat, a: nat, c: nat)
    ensures
        x / pow2(a) / pow2(c) == x / pow2(a + c),
{
    lemma_pow2_pos(a);
    lemma_pow2_pos(c);
    lemma_pow2_adds(a, c);
    lemma_div_denominator(x as int, pow2(a) as int, pow2(c) as int);
}

/// A field that lies at or above bit `low` depends only on the bits from `low` up.
proof fn lemma_field_above(x: nat, low: nat, offset: nat, width: nat)
    requires
        low <= offset,
    ensures
        field(x, offset, width) == field(x / pow2(low), (offset - low) as nat, width),
{
    lemma_div_pow2_twice(x, low, (offset - low) as nat);
}

/// A field that lies below bit `high` depends only on the bits below `high`.
pub proof fn lemma_field_below(x: nat, high: nat, offset: nat, width: nat)
    requires
        offset + width <= high,
    ensures
        field(x, offset, width) == field(x % pow2(high), offset, width),
{
    let r = x % pow2(high);
    let k = (high - (offset + width)) as nat;
    lemma_pow2_pos(high);
    lemma_pow2_pos(k);
    lemma_pow2_adds(k, offset + width);
    assert(high == k + (offset + width));
    lemma_fundamental_div_mod(x as int, pow2(high) as int);
    let a = x / pow2(high);
    lemma_field_decompose(r, offset, width);
    let rhi = r / pow2(offset + width);
    let f = field(r, offset, width);
    let rlo = r % pow2(offset);
    let big = pow2(offset + width);
    assert(x == (a * pow2(k) + rhi) * big + f * pow2(offset) + rlo) by (nonlinear_arith)
        requires
            x == pow2(high) * a + r,
            pow2(high) == pow2(k) * big,
            r == rhi * big + f * pow2(offset) + rlo,
    ;
    lemma_field_unique(x, offset, width, a * pow2(k) + rhi, f, rlo);
}

/// The little-endian bytes of `x` stand for the value of the bytes they cover:
/// `n` bytes taken from the bottom of `x` give back `x` modulo `2^(8n)`.
pub proof fn lemma_le_value_of_le_bytes(x: nat, bytes: Seq<u8>)
    requires
        forall|i: int| 0 <= i < bytes.len() ==> bytes[i] as nat == le_byte(x, i as nat),
    ensures
        le_value(bytes) == x % pow2(8 * bytes.len()),
    decreases bytes.len(),
{
    lemma2_to64();
    if bytes.len() == 0 {
        assert(x % 1 == 0);
    } else {
        let rest = bytes.drop_first();
        let n = rest.len();
        assert forall|i: int| 0 <= i < rest.len() implies rest[i] as nat == le_byte(
            x / 256,
            i as nat,
        ) by {
            assert(rest[i] == bytes[i + 1]);
            lemma_field_above(x, 8, 8 * (i + 1) as nat, 8);
            assert((8 * (i + 1) - 8) as nat == 8 * i as nat);
        }
        lemma_le_value_of_le_bytes(x / 256, rest);
        assert(bytes[0] as nat == x % 256) by {
            assert(x / pow2(0) == x);
        }
        lemma_pow2_pos(8 * n);
        lemma_pow2_adds(8, 8 * n);
        assert(8 * bytes.len() == 8 + 8 * n);
        lemma_mod_breakdown(x as int, 256, pow2(8 * n) as int);
    }
}

/// Writing one field leaves every field that does not overlap it unchanged.
pub proof fn lemma_field_of_with_other_field(
    bits: nat,
    offset: nat,
    width: nat,
    value: nat,
    other_offset: nat,
    other_width: nat,
)
    requires
        value < pow2(width),
        offset + width <= other_offset || other_offset + other_width <= offset,
    ensures
        field(with_field(bits, offset, width, value), other_offset, other_width) == field(
            bits,
            other_offset,
            other_width,
        ),
{
    let x = with_field(bits, offset, width, value);
    lemma_field_decompose(bits, offset, width);
    lemma_field_unique(
        x,
        offset,
        width,
        bits / pow2(offset + width),
        value,
        bits % pow2(offset),
    );
    if offset + width <= other_offset {
        lemma_field_above(x, offset + width, other_offset, other_width);
        lemma_field_above(bits, offset + width, other_offset, other_width);
    } else {
        lemma_field_below(x, offset, other_offset, other_width);
        lemma_field_below(bits, offset, other_offset, other_width);
    }
}

/// A written value stays below `2^n` when the old one did and the field lies below bit `n`.
pub proof fn lemma_with_field_bound(bits: nat, offset: nat, width: nat, value: nat, n: nat)
    requires
        bits < pow2(n),
        offset + width <= n,
        value < pow2(width),
    ensures
        with_field(bits, offset, width, value) < pow2(n),
{
    let k = (n - (offset + width)) as nat;
    let big = pow2(offset + width);
    let p = pow2(offset);
    let q = pow2(width);
    lemma_pow2_pos(offset);
    lemma_pow2_pos(width);
    lemma_pow2_adds(offset, width);
    lemma_pow2_adds(k, offset + width);
    assert(n == k + (offset + width));
    lemma_fundamental_div_mod(bits as int, big as int);
    let hi = bits / big;
    assert(hi < pow2(k)) by (nonlinear_arith)
        requires
            bits < pow2(k) * big,
            bits >= big * hi,
            big > 0,
    ;
    lemma_field_decompose(bits, offset, width);
    let lo = bits % p;
    assert(hi * big + value * p + lo < pow2(n)) by (nonlinear_arith)
        requires
            hi + 1 <= pow2(k),
            value + 1 <= q,
            lo + 1 <= p,
            big == p * q,
            pow2(n) == pow2(k) * big,
    ;
}

/// `1 << e` in 16 bits is `2^e` for the shifts that a byte needs.
proof fn lemma_shl_one_u16(e: u16)
    requires
        e <= 8,
    ensures
        (1u16 << e) as nat == pow2(e as nat),
{
    lemma2_to64();
    if e < 8 {
        lemma_pow2_strictly_increases(e as nat, 8);
    }
    vstd::bits::lemma_u16_shl_is_mul(1u16, e);
}

/// Reads the `width` bits of a byte that start at bit `offset`.
pub(crate) fn read_u8(bits: u8, offset: u8, width: u8) -> (r: u8)
    requires
        1 <= width,
        offset + width <= 8,
    ensures
        r as nat == field(bits as nat, offset as nat, width as nat),
{
    let shifted = bits >> offset;
    proof {
        lemma_u8_shr_is_div(bits, offset);
        lemma2_to64();
    }
    if width == 8 {
        assert(shifted as nat % pow2(8) == shifted as nat);
        shifted
    } else {
        assert(1u8 << width >= 1) by (bit_vector)
            requires
                width < 8,
        ;
        let mask: u8 = (1u8 << width) - 1;
        proof {
            lemma_shl_one_u16(width as u16);
            assert((1u8 << width) as u16 == 1u16 << (width as u16)) by (bit_vector)
                requires
                    width < 8,
            ;
            assert(low_bits_mask(width as nat) == pow2(width as nat) - 1);
            lemma_u8_low_bits_mask_is_mod(shifted, width as nat);
        }
        shifted & mask
    }
}

/// Writes `value` into the `width` bits of a byte that start at bit `offset`.
pub(crate) fn write_u8(bits: u8, offset: u8, width: u8, value: u8) -> (r: u8)
    requires
        1 <= width,
        offset + width <= 8,
        (value as nat) < pow2(width as nat),
    ensures
        r as nat == with_field(bits as nat, offset as nat, width as nat, value as nat),
{
    let mask: u8 = if width == 8 {
        0xff
    } else {
        assert(1u8 << width >= 1) by (bit_vector)
            requires
                width < 8,
        ;
        (1u8 << width) - 1
    };
    let r = (bits & !(mask << offset)) | (value << offset);
    proof {
        let o = offset as u16;
        let w = width as u16;
        let b = bits as u16;
        let v = value as u16;
        let p = 1u16 << o;
        let q = 1u16 << w;
        let pq = 1u16 << ((offset + width) as u16);
        lemma_shl_one_u16(o);
        lemma_shl_one_u16(w);
        lemma_shl_one_u16((offset + width) as u16);
        assert(r as u16 == (b / pq) * pq + v * p + b % p) by (bit_vector)
            requires
                1 <= width,
                offset + width <= 8,
                o == offset as u16,
                w == width as u16,
                b == bits as u16,
                v == value as u16,
                p == 1u16 << o,
                q == 1u16 << w,
                pq == 1u16 << ((offset + width) as u16),
                v < q,
                mask == if width == 8 { 0xffu8 } else { ((1u8 << width) - 1) as u8 },
                r == (bits & !(mask << offset)) | (value << offset),
        ;
    }
    r
}

/// Reads the `width` bits of a 64-bit word that start at bit `offset`.
pub(crate) fn read_u64(bits: u64, offset: u64, width: u64) -> (r: u64)
    requires
        1 <= width,
        offset + width <= 64,
    ensures
        r as nat == field(bits as nat, offset as nat, width as nat),
{
    let shifted = bits >> offset;
    proof {
        lemma_u64_shr_is_div(bits, offset);
        lemma2_to64();
        lemma2_to64_rest();
    }
    if width == 64 {
        assert(shifted as nat % pow2(64) == shifted as nat);
        shifted
    } else {
        proof {
            lemma_pow2_strictly_increases(width as nat, 64);
            lemma_u64_shl_is_mul(1u64, width);
        }
        let mask: u64 = (1u64 << width) - 1;
        proof {
            assert(low_bits_mask(width as nat) == pow2(width as nat) - 1);
            lemma_u64_low_bits_mask_is_mod(shifted, width as nat);
        }
        shifted & mask
    }
}

/// Writes `value` into the low `width` bits of a 64-bit word.
pub(crate) fn write_low_u64(bits: u64, width: u64, value: u64) -> (r: u64)
    requires
        1 <= width < 64,
        (value as nat) < pow2(width as nat),
    ensures
        r as nat == with_field(bits as nat, 0, width as nat, value as nat),
{
    proof {
        lemma2_to64();
        lemma2_to64_rest();
        lemma_pow2_strictly_increases(width as nat, 64);
        lemma_u64_shl_is_mul(1u64, width);
    }
    let q = 1u64 << width;
    let mask: u64 = q - 1;
    let r = (bits & !mask) | value;
    proof {
        assert(r == (bits & !mask) + value && bits == (bits & !mask) + (bits & mask))
            by (bit_vector)
            requires
                1 <= width < 64,
                q == 1u64 << width,
                mask == q - 1,
                value < q,
                r == (bits & !mask) | value,
        ;
        assert(low_bits_mask(width as nat) == pow2(width as nat) - 1);
        lemma_u64_low_bits_mask_is_mod(bits, width as nat);
        lemma_fundamental_div_mod(bits as int, q as int);
        assert(pow2(0) == 1);
        assert(q as nat == pow2(width as nat));
        let qn = q as nat;
        let hi = bits as nat / qn;
        assert(r as nat == hi * qn + value as nat);
        assert(bits as nat % pow2(0) == 0) by {
            assert(bits as nat % 1 == 0);
        }
        assert(0 + width as nat == width as nat);
    }
    r
}

} // verus!
