//! Bit and byte helpers shared by the register file and the handlers.

use vstd::prelude::*;

verus! {

/// The place value of bit `n` of a byte: two to the power `n` for `n < 8`.
pub open spec fn weight(n: u8) -> int {
    if n == 0 {
        1
    } else if n == 1 {
        2
    } else if n == 2 {
        4
    } else if n == 3 {
        8
    } else if n == 4 {
        16
    } else if n == 5 {
        32
    } else if n == 6 {
        64
    } else {
        128
    }
}

/// The value of bit `n` of `a`, counted from the least significant bit.
pub open spec fn bit_of(a: u8, n: u8) -> bool {
    (a as int / weight(n)) % 2 == 1
}

/// The byte that has bit `n` equal to `on` and every other bit as in `a`.
pub open spec fn with_bit(a: u8, n: u8, on: bool) -> u8 {
    if bit_of(a, n) == on {
        a
    } else if on {
        (a + weight(n)) as u8
    } else {
        (a - weight(n)) as u8
    }
}

/// The 16-bit value whose high byte is `hi` and whose low byte is `lo`.
pub open spec fn word_of(hi: u8, lo: u8) -> u16 {
    (hi as int * 256 + lo as int) as u16
}

/// The high byte of a 16-bit value.
pub open spec fn high_byte(v: u16) -> u8 {
    (v / 256) as u8
}

/// The low byte of a 16-bit value.
pub open spec fn low_byte(v: u16) -> u8 {
    (v % 256) as u8
}

/// For `n < 8`, shifting one left by `n` gives the place value of bit `n`.
proof fn lemma_shift_weight(n: u8)
    requires
        n < 8,
    ensures
        (1u8 << n) as int == weight(n),
{
    assert(n < 8 ==> (n == 0 ==> (1u8 << n) == 1) && (n == 1 ==> (1u8 << n) == 2) && (n == 2 ==> (1u8
        << n) == 4) && (n == 3 ==> (1u8 << n) == 8) && (n == 4 ==> (1u8 << n) == 16) && (n == 5 ==> (
    1u8 << n) == 32) && (n == 6 ==> (1u8 << n) == 64) && (n == 7 ==> (1u8 << n) == 128))
        by (bit_vector);
}

/// Masking, setting and clearing one bit of a byte, in terms of division
/// by the bit's place value.
proof fn lemma_mask(a: u8, m: u8)
    requires
        m == 1 || m == 2 || m == 4 || m == 8 || m == 16 || m == 32 || m == 64 || m == 128,
    ensures
        ((a & m) != 0) == ((a as int / m as int) % 2 == 1),
        (a & m) != 0 ==> (a | m) == a && (a & !m) as int == a - m,
        (a & m) == 0 ==> (a | m) as int == a + m && (a & !m) == a,
{
    assert((m == 1 || m == 2 || m == 4 || m == 8 || m == 16 || m == 32 || m == 64 || m == 128) ==> (((a
        & m) != 0) == ((a / m) % 2 == 1)) && ((a & m) != 0 ==> (a | m) == a && (a & !m) == a - m)
        && ((a & m) == 0 ==> (a | m) == a + m && (a & !m) == a)) by (bit_vector);
}

/// Whether bit `n` of `a` is set.
pub fn bit(a: u8, n: u8) -> (r: bool)
    requires
        n < 8,
    ensures
        r == bit_of(a, n),
{
    let mask: u8 = 1u8 << n;
    proof {
        lemma_shift_weight(n);
        lemma_mask(a, mask);
    }
    (a & mask) != 0
}

/// Sets bit `n` of `a` when `on`, clears it otherwise; the other bits stay.
pub fn bit_set(a: &mut u8, n: u8, on: bool)
    requires
        n < 8,
    ensures
        *final(a) == with_bit(*old(a), n, on),
{
    let mask: u8 = 1u8 << n;
    proof {
        lemma_shift_weight(n);
        lemma_mask(*a, mask);
    }
    if on {
        *a = *a | mask;
    } else {
        *a = *a & !mask;
    }
}

/// Changing bit `n` leaves it with the value asked for and changes no other bit.
pub proof fn lemma_with_bit(a: u8, n: u8, on: bool, k: u8)
    requires
        n < 8,
        k < 8,
    ensures
        bit_of(with_bit(a, n, on), k) == (if k == n {
            on
        } else {
            bit_of(a, k)
        }),
{
    let m: u8 = 1u8 << n;
    let j: u8 = 1u8 << k;
    lemma_shift_weight(n);
    lemma_shift_weight(k);
    lemma_mask(a, m);
    lemma_mask(a, j);
    lemma_mask(with_bit(a, n, on), j);
    assert(n < 8 && k < 8 && k != n ==> (((a | (1u8 << n)) & (1u8 << k)) == (a & (1u8 << k))) && (((a
        & !(1u8 << n)) & (1u8 << k)) == (a & (1u8 << k)))) by (bit_vector);
    assert(n < 8 ==> ((a | (1u8 << n)) & (1u8 << n)) != 0 && ((a & !(1u8 << n)) & (1u8 << n)) == 0)
        by (bit_vector);
}

/// Changing bit `n` adds or takes the bit's place value, or nothing; so
/// the bits below bit `n` stay.
pub proof fn lemma_with_bit_value(a: u8, n: u8, on: bool)
    requires
        n < 8,
    ensures
        with_bit(a, n, on) as int == a + (if bit_of(a, n) == on {
            0
        } else if on {
            weight(n)
        } else {
            -weight(n)
        }),
        with_bit(a, n, on) as int % weight(n) == a as int % weight(n),
{
    let m: u8 = 1u8 << n;
    lemma_shift_weight(n);
    lemma_mask(a, m);
}

/// Changing one of the four high bits leaves the four low bits.
pub proof fn lemma_with_bit_low_nibble(a: u8, n: u8, on: bool)
    requires
        4 <= n < 8,
    ensures
        with_bit(a, n, on) % 16 == a % 16,
{
    lemma_with_bit_value(a, n, on);
    let b = with_bit(a, n, on);
    if n == 4 {
        assert(b == a || b == a + 16 || b == a - 16);
    } else if n == 5 {
        assert(b == a || b == a + 32 || b == a - 32);
    } else if n == 6 {
        assert(b == a || b == a + 64 || b == a - 64);
    } else {
        assert(b == a || b == a + 128 || b == a - 128);
    }
}

/// Whether `a` lies in the closed range from `b` to `c`.
pub fn between(a: u8, b: u8, c: u8) -> (r: bool)
    ensures
        r == (b <= a && a <= c),
{
    a >= b && a <= c
}

/// Joins two bytes into a 16-bit value, `a` as the high byte and `b` as the low byte.
pub fn convert_to_u16(a: u8, b: u8) -> (r: u16)
    ensures
        r == word_of(a, b),
        r as int == a as int * 256 + b as int,
{
    let hi: u16 = a as u16;
    let lo: u16 = b as u16;
    assert(hi < 256 && lo < 256 ==> ((hi << 8) | lo) == hi * 256 + lo) by (bit_vector);
    (hi << 8) | lo
}

/// The high byte of `v`.
pub fn hi_byte(v: u16) -> (r: u8)
    ensures
        r == high_byte(v),
        r as int == v as int / 256,
{
    assert((v >> 8) == v / 256) by (bit_vector);
    (v >> 8) as u8
}

/// The low byte of `v`.
pub fn lo_byte(v: u16) -> (r: u8)
    ensures
        r == low_byte(v),
        r as int == v as int % 256,
{
    assert((v & 0xFF) == v % 256) by (bit_vector);
    (v & 0xFF) as u8
}

/// A 16-bit value is its high byte times 256 plus its low byte.
pub proof fn lemma_word_bytes(v: u16)
    ensures
        word_of(high_byte(v), low_byte(v)) == v,
{
}

/// The bytes of a joined word are the bytes it was joined from.
pub proof fn lemma_bytes_word(hi: u8, lo: u8)
    ensures
        high_byte(word_of(hi, lo)) == hi,
        low_byte(word_of(hi, lo)) == lo,
{
}

} // verus!
