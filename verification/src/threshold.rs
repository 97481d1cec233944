//! The codec between physical quantities and the 8-bit threshold registers.
//!
//! Each threshold register counts in steps of a fixed size. Quantities are
//! integers in micro-units: micro-g for the force thresholds, microseconds
//! for the time thresholds. A step of 62.5 mg is therefore the scale 62 500.

use vstd::prelude::*;
use vstd::arithmetic::div_mod::lemma_fundamental_div_mod;
use vstd::arithmetic::div_mod::lemma_div_by_multiple;
use vstd::arithmetic::div_mod::lemma_div_is_ordered;
use crate::register::Register;

verus! {

/// The motion-detection thresholds of the device.
#[derive(Clone, Copy, Debug, PartialEq, Eq)]
pub enum Threshold {
    /// Force that counts as a tap.
    Tap,
    /// Longest time a tap may last.
    TapDuration,
    /// Wait between a tap and the window for a second one.
    TapLatency,
    /// Time in which a second tap makes a double tap.
    TapWindow,
    /// Force that counts as activity.
    Activity,
    /// Force below which the device counts as inactive.
    Inactivity,
    /// Time below the inactivity threshold that counts as inactivity.
    InactivityTime,
    /// Force below which the device counts as falling.
    FreeFall,
    /// Time below the free-fall threshold that counts as a fall.
    FreeFallTime,
}

impl Threshold {
    /// The register that holds the threshold.
    pub open spec fn reg(self) -> Register {
        match self {
            Threshold::Tap => Register::ThreshTap,
            Threshold::TapDuration => Register::Dur,
            Threshold::TapLatency => Register::Latent,
            Threshold::TapWindow => Register::Window,
            Threshold::Activity => Register::ThreshAct,
            Threshold::Inactivity => Register::ThreshInact,
            Threshold::InactivityTime => Register::TimeInact,
            Threshold::FreeFall => Register::ThreshFf,
            Threshold::FreeFallTime => Register::TimeFf,
        }
    }

    /// The size of one register step, in micro-units: 62.5 mg for forces,
    /// 625 us for the tap duration, 1.25 ms for latency and window, 5 ms for
    /// the free-fall time and one second for the inactivity time.
    pub open spec fn step(self) -> nat {
        match self {
            Threshold::Tap => 62_500,
            Threshold::TapDuration => 625,
            Threshold::TapLatency => 1_250,
            Threshold::TapWindow => 1_250,
            Threshold::Activity => 62_500,
            Threshold::Inactivity => 62_500,
            Threshold::InactivityTime => 1_000_000,
            Threshold::FreeFall => 62_500,
            Threshold::FreeFallTime => 5_000,
        }
    }

    /// The register that holds the threshold.
    pub fn register(self) -> (r: Register)
        ensures
            r == self.reg(),
    {
        match self {
            Threshold::Tap => Register::ThreshTap,
            Threshold::TapDuration => Register::Dur,
            Threshold::TapLatency => Register::Latent,
            Threshold::TapWindow => Register::Window,
            Threshold::Activity => Register::ThreshAct,
            Threshold::Inactivity => Register::ThreshInact,
            Threshold::InactivityTime => Register::TimeInact,
            Threshold::FreeFall => Register::ThreshFf,
            Threshold::FreeFallTime => Register::TimeFf,
        }
    }

    /// The size of one register step, in micro-units.
    pub fn scale(self) -> (s: u32)
        ensures
            s == self.step(),
            s > 0,
    {
        match self {
            Threshold::Tap => 62_500,
            Threshold::TapDuration => 625,
            Threshold::TapLatency => 1_250,
            Threshold::TapWindow => 1_250,
            Threshold::Activity => 62_500,
            Threshold::Inactivity => 62_500,
            Threshold::InactivityTime => 1_000_000,
            Threshold::FreeFall => 62_500,
            Threshold::FreeFallTime => 5_000,
        }
    }
}

/// The register value for a physical value: the number of whole steps in
/// it, held to the range of the register. A negative value gives 0, a value
/// of more than 255 steps gives 255.
pub open spec fn encoded(physical_value: int, scale: int) -> int
    recommends
        scale > 0,
{
    if physical_value < 0 {
        0
    } else if physical_value / scale > 255 {
        255
    } else {
        physical_value / scale
    }
}

/// The physical value that a register value stands for.
pub open spec fn decoded(register_value: int, scale: int) -> int {
    register_value * scale
}

/// Encodes a physical value for a register that counts in steps of `scale`.
/// The quotient is cut off towards zero and saturates at the bounds of the
/// register; it never wraps.
pub fn encode(physical_value: i64, scale: u32) -> (register_value: u8)
    requires
        scale > 0,
    ensures
        register_value == encoded(physical_value as int, scale as int),
{
    if physical_value < 0 {
        0
    } else {
        let steps: u64 = (physical_value as u64) / (scale as u64);
        if steps > 255 {
            255
        } else {
            steps as u8
        }
    }
}

/// Decodes a register value that counts in steps of `scale`.
pub fn decode(register_value: u8, scale: u32) -> (physical_value: u64)
    ensures
        physical_value == decoded(register_value as int, scale as int),
{
    assert(register_value * scale <= 255 * 0xffff_ffff) by (nonlinear_arith)
        requires
            register_value <= 255,
            scale <= 0xffff_ffff,
    ;
    (register_value as u64) * (scale as u64)
}

/// Encoding always lands in the register: out-of-range values saturate.
pub proof fn encode_saturates(physical_value: int, scale: int)
    requires
        scale > 0,
    ensures
        0 <= encoded(physical_value, scale) <= 255,
        physical_value < scale ==> encoded(physical_value, scale) == 0,
        physical_value >= 255 * scale ==> encoded(physical_value, scale) == 255,
{
    if physical_value >= 0 {
        lemma_fundamental_div_mod(physical_value, scale);
        let q = physical_value / scale;
        assert(0 <= q) by (nonlinear_arith)
            requires
                physical_value >= 0,
                scale > 0,
                q == physical_value / scale,
        ;
        if physical_value < scale {
            assert(q == 0) by (nonlinear_arith)
                requires
                    0 <= physical_value < scale,
                    q == physical_value / scale,
            ;
        }
        if physical_value >= 255 * scale {
            lemma_div_is_ordered(255 * scale, physical_value, scale);
            lemma_div_by_multiple(255, scale);
        }
    }
}

/// Encoding undoes decoding: every register value is the encoding of the
/// physical value it stands for.
pub proof fn encode_inverts_decode(register_value: int, scale: int)
    requires
        0 <= register_value <= 255,
        scale > 0,
    ensures
        encoded(decoded(register_value, scale), scale) == register_value,
{
    lemma_div_by_multiple(register_value, scale);
    assert(register_value * scale >= 0) by (nonlinear_arith)
        requires
            register_value >= 0,
            scale > 0,
    ;
}

/// A value in the range of the register comes back from a round trip cut
/// down to a whole number of steps: it loses what it had beyond the last
/// whole step, which is less than one step, and nothing else.
pub proof fn round_trip_loses_less_than_a_step(physical_value: int, scale: int)
    requires
        scale > 0,
        0 <= physical_value <= 255 * scale,
    ensures
        decoded(encoded(physical_value, scale), scale) == physical_value - physical_value % scale,
        0 <= physical_value - decoded(encoded(physical_value, scale), scale) < scale,
{
    lemma_fundamental_div_mod(physical_value, scale);
    lemma_div_is_ordered(physical_value, 255 * scale, scale);
    lemma_div_by_multiple(255, scale);
    let q = physical_value / scale;
    assert(q * scale == scale * q) by (nonlinear_arith);
}

/// A round trip is exact on the whole multiples of the step, and only there.
pub proof fn round_trip_is_exact_on_whole_steps(physical_value: int, scale: int)
    requires
        scale > 0,
        0 <= physical_value <= 255 * scale,
    ensures
        decoded(encoded(physical_value, scale), scale) == physical_value <==> physical_value % scale
            == 0,
{
    round_trip_loses_less_than_a_step(physical_value, scale);
}

/// A round trip is off by at most half a step wherever the value lies no
/// more than half a step above a whole number of steps. Above that the
/// encoding still cuts off, and the error grows towards a whole step.
pub proof fn round_trip_within_half_a_step(physical_value: int, scale: int)
    requires
        scale > 0,
        0 <= physical_value <= 255 * scale,
        2 * (physical_value % scale) <= scale,
    ensures
        2 * (physical_value - decoded(encoded(physical_value, scale), scale)) <= scale,
        2 * (decoded(encoded(physical_value, scale), scale) - physical_value) <= scale,
{
    round_trip_loses_less_than_a_step(physical_value, scale);
}

} // verus!
