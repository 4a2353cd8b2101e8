//! Conversions between binary values and packed binary-coded decimal (BCD),
//! the encoding in which the clock registers of the CMOS RTC hold their values.
use vstd::prelude::*;

verus! {

/// A byte is a valid packed BCD value when both of its nibbles are decimal digits.
pub open spec fn is_bcd(b: u8) -> bool {
    b / 16 < 10 && b % 16 < 10
}

/// `b` holds the two decimal digits of `v`: the tens in the high nibble, the units in
/// the low nibble.
pub open spec fn is_bcd_of(b: u8, v: int) -> bool {
    b / 16 == v / 10 && b % 16 == v % 10
}

/// The byte that `bin_to_bcd` yields for `src`: the tens digit shifted into the high
/// nibble (bits shifted out of the byte are lost) plus the units digit.
pub open spec fn spec_bin_to_bcd(src: u8) -> int {
    ((src / 10) * 16) % 256 + src % 10
}

/// The value that `bin_from_bcd` reads from `src`: ten times the high nibble plus the
/// low nibble.
pub open spec fn spec_bin_from_bcd(src: u8) -> int {
    (src / 16) * 10 + src % 16
}

/// Converts a binary value to binary-coded decimal.
pub fn bin_to_bcd(src: u8) -> (r: u8)
    ensures
        r == spec_bin_to_bcd(src),
{
    let tens: u8 = src / 10;
    let units: u8 = src % 10;
    assert(((tens << 4u8) as int) == (tens * 16) % 256 && (tens << 4u8) <= 240) by (bit_vector)
        requires
            tens <= 25u8,
    ;
    (tens << 4u8) + units
}

/// Converts a binary-coded-decimal value back to binary.
pub fn bin_from_bcd(src: u8) -> (r: u8)
    ensures
        r == spec_bin_from_bcd(src),
{
    assert((src >> 4u8) == src / 16 && (src & 0x0fu8) == src % 16) by (bit_vector);
    ((src >> 4u8) * 10) + (src & 0x0fu8)
}

/// Encoding a value below one hundred gives a valid BCD byte, and decoding that byte
/// gives the value back.
pub proof fn lemma_bcd_round_trip(x: u8)
    requires
        x < 100,
    ensures
        0 <= spec_bin_to_bcd(x) < 256,
        is_bcd(spec_bin_to_bcd(x) as u8),
        spec_bin_from_bcd(spec_bin_to_bcd(x) as u8) == x,
{
    let q = x / 10;
    let r = x % 10;
    assert(x == q * 10 + r);
    assert(q * 16 < 256);
    assert((q * 16) % 256 == q * 16);
    let b = (q * 16 + r) as u8;
    assert(b as int == q * 16 + r);
    assert(b / 16 == q && b % 16 == r) by (nonlinear_arith)
        requires
            b as int == q * 16 + r,
            0 <= r < 10,
            0 <= q,
    ;
}

/// Encoding a value below one hundred puts its tens digit in the high nibble and its
/// units digit in the low nibble.
pub proof fn lemma_bcd_digits(x: u8)
    requires
        x < 100,
    ensures
        is_bcd_of(spec_bin_to_bcd(x) as u8, x as int),
{
    lemma_bcd_round_trip(x);
    let q = x / 10;
    let r = x % 10;
    let b = spec_bin_to_bcd(x) as u8;
    assert(b as int == q * 16 + r);
    assert(b / 16 == q && b % 16 == r) by (nonlinear_arith)
        requires
            b as int == q * 16 + r,
            0 <= r < 10,
            0 <= q,
    ;
}

/// Decoding a valid BCD byte and encoding the result gives the byte back.
pub proof fn lemma_bcd_round_trip_rev(b: u8)
    requires
        is_bcd(b),
    ensures
        0 <= spec_bin_from_bcd(b) < 100,
        spec_bin_to_bcd(spec_bin_from_bcd(b) as u8) == b,
{
    let hi = b / 16;
    let lo = b % 16;
    let x = (hi * 10 + lo) as u8;
    assert(x as int == hi * 10 + lo);
    assert(x / 10 == hi && x % 10 == lo) by (nonlinear_arith)
        requires
            x as int == hi * 10 + lo,
            0 <= lo < 10,
            0 <= hi,
    ;
    assert(hi * 16 < 256);
    assert(b == hi * 16 + lo);
}

} // verus!
