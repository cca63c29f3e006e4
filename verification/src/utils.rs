use vstd::prelude::*;

verus! {

/// Splits a 16-bit number into its high and low byte, in that order.
pub fn split_u16_to_u8(number: u16) -> (bytes: [u8; 2])
    ensures
        bytes[0] as int == number as int / 256,
        bytes[1] as int == number as int % 256,
{
    let high_byte = (number >> 8) as u8;
    let low_byte = (number & 0xFF) as u8;
    assert((number >> 8) < 256 && (number >> 8) == number / 256) by (bit_vector);
    assert((number & 0xFF) < 256 && (number & 0xFF) == number % 256) by (bit_vector);
    [high_byte, low_byte]
}

} // verus!
