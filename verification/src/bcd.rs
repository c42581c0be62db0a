//! Packed binary-coded decimal: one decimal digit in each nibble of a byte.
use vstd::prelude::*;

verus! {

/// The number a packed-BCD byte stands for: ten times its high nibble plus its
/// low nibble. Nibbles above 9 are taken at face value, so the result can be
/// as large as 165.
pub open spec fn bcd_to_decimal(bcd: u8) -> u8 {
    ((bcd / 16) * 10 + bcd % 16) as u8
}

/// The packed-BCD byte of a number: the tens in the high nibble, the units in
/// the low nibble. Tens above 15 do not fit in the nibble and lose their
/// upper bits.
pub open spec fn decimal_to_bcd(dec: u8) -> u8 {
    (((dec / 10) % 16) * 16 + dec % 10) as u8
}

/// Decodes a packed-BCD byte. Never fails: a byte that is no valid BCD still
/// decodes, nibble by nibble.
pub fn packed_bcd_to_decimal(bcd: u8) -> (dec: u8)
    ensures
        dec == bcd_to_decimal(bcd),
{
    assert(bcd >> 4 == bcd / 16 && bcd & 0xF == bcd % 16) by (bit_vector);
    (bcd >> 4) * 10 + (bcd & 0xF)
}

/// Encodes a number as packed BCD. Meant for 0 to 99; a larger number is
/// encoded all the same, with its tens truncated to four bits.
pub fn decimal_to_packed_bcd(dec: u8) -> (bcd: u8)
    ensures
        bcd == decimal_to_bcd(dec),
{
    let tens: u8 = dec / 10;
    let units: u8 = dec % 10;
    assert((tens << 4) | units == (tens % 16) * 16 + units) by (bit_vector)
        requires
            units < 10,
    ;
    (tens << 4) | units
}

/// Decoding undoes encoding for every number of two decimal digits.
pub proof fn lemma_bcd_round_trip(value: u8)
    requires
        value <= 99,
    ensures
        bcd_to_decimal(decimal_to_bcd(value)) == value,
{
    lemma_bcd_round_trip_wide(value);
}

/// Decoding undoes encoding as long as the tens fit in a nibble, which covers
/// 100 to 159 as well.
pub proof fn lemma_bcd_round_trip_wide(value: u8)
    requires
        value <= 159,
    ensures
        decimal_to_bcd(value) == (value / 10) * 16 + value % 10,
        bcd_to_decimal(decimal_to_bcd(value)) == value,
{
}

} // verus!
