use vstd::prelude::*;

verus! {

/// The value denoted by a binary-coded-decimal byte whose nybbles are both digits.
pub open spec fn bcd_value(bcd: u8) -> int {
    (bcd / 16) * 10 + (bcd % 16)
}

/// A byte is valid binary-coded decimal when both nybbles are digits.
pub open spec fn is_bcd(bcd: u8) -> bool {
    bcd / 16 <= 9 && bcd % 16 <= 9
}

/// Convert a binary number to binary coded decimal output.
///
/// Input must be in range 0-99 to get a valid return.
pub fn to_bcd(binary: u8) -> (r: Option<u8>)
    ensures
        binary > 99 ==> r is None,
        binary <= 99 ==> r == Some(((binary / 10) * 16 + binary % 10) as u8),
        binary <= 99 ==> is_bcd(r->0) && bcd_value(r->0) == binary,
{
    if binary > 99 {
        None
    } else {
        let tens = binary / 10;
        let units = binary % 10;
        Some((tens * 0x10) + units)
    }
}

/// Convert a number from binary coded decimal input.
///
/// Input must be in range 0x0-0x9, 0x10-0x19, ...
pub fn from_bcd(bcd: u8) -> (r: Option<u8>)
    ensures
        !is_bcd(bcd) ==> r is None,
        is_bcd(bcd) ==> r == Some(bcd_value(bcd) as u8),
        is_bcd(bcd) ==> r->0 <= 99,
{
    let tens = bcd / 0x10;
    let units = bcd % 0x10;
    if tens > 0x9 || units > 0x9 {
        None
    } else {
        Some(tens * 10 + units)
    }
}

/// Encoding a number of 0-99 as BCD and decoding it again gives the number back.
pub proof fn lemma_bcd_round_trip(binary: u8)
    requires
        binary <= 99,
    ensures
        is_bcd(((binary / 10) * 16 + binary % 10) as u8),
        bcd_value(((binary / 10) * 16 + binary % 10) as u8) == binary,
{
}

/// Decoding a valid BCD byte and encoding the result again gives the byte back.
pub proof fn lemma_bcd_decode_encode(bcd: u8)
    requires
        is_bcd(bcd),
    ensures
        bcd_value(bcd) <= 99,
        ((bcd_value(bcd) / 10) * 16 + bcd_value(bcd) % 10) == bcd,
{
}

} // verus!
