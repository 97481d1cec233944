//! Reassembly of the raw data registers into signed samples.
//!
//! The device holds each axis as a 16-bit two's-complement number, low byte
//! first.

use vstd::prelude::*;

verus! {

/// The number that a low and a high byte stand for: the high byte fills bits
/// 8 to 15, the low byte bits 0 to 7, and bit 15 is the sign.
pub open spec fn sample_value(low: u8, high: u8) -> int {
    if high < 128 {
        high * 256 + low
    } else {
        high * 256 + low - 65536
    }
}

/// Whether `data` holds exactly the samples that `raw` stands for.
pub open spec fn decodes_to(raw: [u8; 6], data: [i16; 3]) -> bool {
    &&& data[0] == sample_value(raw[0], raw[1])
    &&& data[1] == sample_value(raw[2], raw[3])
    &&& data[2] == sample_value(raw[4], raw[5])
}

/// Combines the two bytes of one axis into its signed sample.
pub fn decode_sample(low: u8, high: u8) -> (value: i16)
    ensures
        value == sample_value(low, high),
        value == (((high as u16) << 8) | (low as u16)) as i16,
{
    let word: u16 = ((high as u16) << 8) | (low as u16);
    assert(word == high * 256 + low) by (bit_vector)
        requires
            word == ((high as u16) << 8) | (low as u16),
    ;
    assert(word as i16 == (if word < 32768 { word as int } else { word as int - 65536 }))
        by (bit_vector);
    #[verifier::truncate]
    (word as i16)
}

/// Decodes the six data registers, X low, X high, Y low, Y high, Z low and
/// Z high, into the samples of the three axes.
pub fn decode(raw: [u8; 6]) -> (data: [i16; 3])
    ensures
        decodes_to(raw, data),
{
    let data: [i16; 3] = [
        decode_sample(raw[0], raw[1]),
        decode_sample(raw[2], raw[3]),
        decode_sample(raw[4], raw[5]),
    ];
    data
}

} // verus!
