//! Decoding of the interrupt source register into named event flags.

use vstd::prelude::*;

verus! {

/// The events that the interrupt source register reports.
///
/// A value of this type is always the decoding of one whole byte; flags of an
/// earlier decoding are never carried over.
#[derive(Clone, Copy, Debug, PartialEq, Eq)]
pub struct EventFlags {
    /// New sample data is available.
    pub data_ready: bool,
    /// A single tap was detected.
    pub tap: bool,
    /// A double tap was detected.
    pub double_tap: bool,
    /// Activity was detected.
    pub activity: bool,
    /// Inactivity was detected.
    pub inactivity: bool,
    /// The FIFO has reached its watermark.
    pub watermark: bool,
    /// Sample data was overwritten before it was read.
    pub overrun: bool,
    /// Reserved for free-fall detection. No bit of the register is mapped to
    /// it, so a decoding always leaves it `false`.
    pub free_fall: bool,
}

/// Whether bit number `position` of `byte` is set, bit 0 being the least
/// significant.
pub open spec fn bit(byte: u8, position: nat) -> bool {
    (byte as nat / vstd::arithmetic::power2::pow2(position)) % 2 == 1
}

/// The flag set that a value of the interrupt source register stands for.
pub open spec fn flags_of(byte: u8) -> EventFlags {
    EventFlags {
        data_ready: bit(byte, 6),
        tap: bit(byte, 5),
        double_tap: bit(byte, 4),
        activity: bit(byte, 3),
        inactivity: bit(byte, 2),
        watermark: bit(byte, 1),
        overrun: bit(byte, 0),
        free_fall: false,
    }
}

impl EventFlags {
    /// The flag set with no event in it.
    pub fn none() -> (flags: EventFlags)
        ensures
            flags == flags_of(0),
    {
        proof {
            vstd::arithmetic::power2::lemma2_to64();
        }
        EventFlags {
            data_ready: false,
            tap: false,
            double_tap: false,
            activity: false,
            inactivity: false,
            watermark: false,
            overrun: false,
            free_fall: false,
        }
    }
}

/// Decodes a value of the interrupt source register: bit 6 is data ready,
/// bit 5 tap, bit 4 double tap, bit 3 activity, bit 2 inactivity, bit 1
/// watermark and bit 0 overrun. Bit 7 is ignored.
pub fn decode_interrupt_source(byte: u8) -> (flags: EventFlags)
    ensures
        flags == flags_of(byte),
{
    proof {
        lemma_bits(byte);
    }
    EventFlags {
        data_ready: (byte & 0b0100_0000) > 0,
        tap: (byte & 0b0010_0000) > 0,
        double_tap: (byte & 0b0001_0000) > 0,
        activity: (byte & 0b0000_1000) > 0,
        inactivity: (byte & 0b0000_0100) > 0,
        watermark: (byte & 0b0000_0010) > 0,
        overrun: (byte & 0b0000_0001) > 0,
        free_fall: false,
    }
}

/// Masking with a single bit tests that bit.
proof fn lemma_bits(byte: u8)
    ensures
        bit(byte, 6) == ((byte & 0b0100_0000) > 0),
        bit(byte, 5) == ((byte & 0b0010_0000) > 0),
        bit(byte, 4) == ((byte & 0b0001_0000) > 0),
        bit(byte, 3) == ((byte & 0b0000_1000) > 0),
        bit(byte, 2) == ((byte & 0b0000_0100) > 0),
        bit(byte, 1) == ((byte & 0b0000_0010) > 0),
        bit(byte, 0) == ((byte & 0b0000_0001) > 0),
{
    vstd::arithmetic::power2::lemma2_to64();
    assert(((byte / 64) % 2 == 1) == ((byte & 0b0100_0000) > 0)) by (bit_vector);
    assert(((byte / 32) % 2 == 1) == ((byte & 0b0010_0000) > 0)) by (bit_vector);
    assert(((byte / 16) % 2 == 1) == ((byte & 0b0001_0000) > 0)) by (bit_vector);
    assert(((byte / 8) % 2 == 1) == ((byte & 0b0000_1000) > 0)) by (bit_vector);
    assert(((byte / 4) % 2 == 1) == ((byte & 0b0000_0100) > 0)) by (bit_vector);
    assert(((byte / 2) % 2 == 1) == ((byte & 0b0000_0010) > 0)) by (bit_vector);
    assert(((byte / 1) % 2 == 1) == ((byte & 0b0000_0001) > 0)) by (bit_vector);
}

} // verus!
