use vstd::prelude::*;

verus! {

/// Bit laws of 16 bit flag words.
pub proof fn lemma_flag_bits_u16(a: u16, b: u16, bits: u16, all: u16)
    by (bit_vector)
    ensures
        (a | b) & b == b,
        (a | b) & a == a,
        (a & !b) & b == 0,
        a | b == b | a,
        (bits & all) & !all == 0,
        (bits & all) & all == bits & all,
{
}

/// Bit laws of 32 bit flag words.
pub proof fn lemma_flag_bits_u32(a: u32, b: u32, bits: u32, all: u32)
    by (bit_vector)
    ensures
        (a | b) & b == b,
        (a | b) & a == a,
        (a & !b) & b == 0,
        a | b == b | a,
        (bits & all) & !all == 0,
        (bits & all) & all == bits & all,
{
}

/// Bit laws of signed 32 bit flag words.
pub proof fn lemma_flag_bits_i32(a: i32, b: i32, bits: i32, all: i32)
    by (bit_vector)
    ensures
        (a | b) & b == b,
        (a | b) & a == a,
        (a & !b) & b == 0,
        a | b == b | a,
        (bits & all) & !all == 0,
        (bits & all) & all == bits & all,
{
}

} // verus!
