//! A hobby servo on a PWM channel: the state of the servo, the commands that
//! each operation sends to the channel, and what each answer of the channel
//! means.
//!
//! Operations that change the channel return the command to send.
//! Operations that depend on the channel take what was read from it.

use vstd::prelude::*;

verus! {

/// The pulse width, in microseconds, that puts a servo into continuous
/// rotation where the servo allows it.
pub const MOTOR_MODE_US: u64 = 2750;

/// How the PWM channel of a new servo is opened: normal polarity, with the
/// period and pulse width given here.
#[derive(Clone, Copy, Debug, PartialEq, Eq)]
pub struct PwmSetup {
    /// The PWM channel, 0 or 1.
    pub channel: u8,
    /// The period, in milliseconds.
    pub period_ms: u64,
    /// The pulse width, in microseconds.
    pub pulse_width_us: u64,
    /// Whether the channel starts enabled.
    pub enabled: bool,
}

/// A command for the PWM channel of a servo.
#[derive(Clone, Copy, Debug, PartialEq, Eq)]
pub enum PwmCommand {
    /// Set the period, in milliseconds.
    SetPeriod { ms: u64 },
    /// Set the pulse width, in microseconds.
    SetPulseWidth { us: u64 },
    /// Switch the channel on.
    Enable,
    /// Switch the channel off.
    Disable,
}

/// Servos have a shortest and a longest pulse width of their own: check the
/// data sheet and adjust `min_us` and `max_us` to it.
#[derive(Clone, Copy, Debug, PartialEq, Eq)]
pub struct Servo {
    /// The pulse width at 0 degrees, in microseconds.
    pub min_us: u16,
    /// The pulse width at 180 degrees, in microseconds.
    pub max_us: u16,
    /// Whether the servo was last switched on or off.
    pub enable: bool,
    /// The period last set, in milliseconds.
    pub period: u64,
    /// The PWM channel that the servo is on, 0 or 1.
    pub channel: u8,
}

/// The pulse width for an angle on a straight line from `min_us` at 0
/// degrees to `max_us` at 180 degrees, rounded down to a whole microsecond.
/// Angles beyond 180 degrees go on along the same line.
pub open spec fn pulse_width(min_us: int, max_us: int, degrees: int) -> int {
    min_us + (degrees * (max_us - min_us)) / 180
}

/// The line runs from `min_us` at 0 degrees to `max_us` at 180 degrees and
/// never falls in between: a larger angle never gives a shorter pulse.
pub proof fn pulse_width_spans_the_range(min_us: int, max_us: int, smaller: int, larger: int)
    requires
        min_us <= max_us,
        0 <= smaller <= larger,
    ensures
        pulse_width(min_us, max_us, 0) == min_us,
        pulse_width(min_us, max_us, 180) == max_us,
        pulse_width(min_us, max_us, smaller) <= pulse_width(min_us, max_us, larger),
{
    let span = max_us - min_us;
    assert((180 * span) / 180 == span);
    assert(smaller * span <= larger * span) by (nonlinear_arith)
        requires
            0 <= span,
            smaller <= larger,
    ;
}

impl Servo {
    /// A servo on PWM channel 0 or 1, for pulses of 500 to 2500 microseconds
    /// in a period of 20 milliseconds. It counts as switched off until
    /// [`Servo::enable`] is called.
    pub fn new(n_channel: u8) -> (servo: Servo)
        requires
            n_channel <= 1,
        ensures
            servo.channel == n_channel,
            servo.min_us == 500,
            servo.max_us == 2500,
            servo.enable == false,
            servo.period == 20,
    {
        Servo { min_us: 500, max_us: 2500, enable: false, period: 20, channel: n_channel }
    }

    /// How to open the PWM channel for a new servo: on its channel, with a
    /// period of 20 milliseconds, a pulse of 2500 microseconds, enabled.
    pub fn pwm_setup(&self) -> (setup: PwmSetup)
        ensures
            setup == (PwmSetup {
                channel: self.channel,
                period_ms: 20,
                pulse_width_us: 2500,
                enabled: true,
            }),
    {
        PwmSetup { channel: self.channel, period_ms: 20, pulse_width_us: 2500, enabled: true }
    }

    /// Changes the shortest and the longest pulse width.
    pub fn set_min_max(&mut self, min: u16, max: u16)
        ensures
            *final(self) == (Servo { min_us: min, max_us: max, ..*old(self) }),
    {
        self.min_us = min;
        self.max_us = max;
    }

    /// Changes the period, in milliseconds.
    pub fn set_period(&mut self, perio: u64) -> (command: PwmCommand)
        ensures
            *final(self) == (Servo { period: perio, ..*old(self) }),
            command == (PwmCommand::SetPeriod { ms: perio }),
    {
        self.period = perio;
        PwmCommand::SetPeriod { ms: perio }
    }

    /// Switches the servo on. `pin_enabled` says whether the channel is
    /// enabled now; a channel that is already enabled is left alone.
    pub fn enable(&mut self, pin_enabled: bool) -> (command: Option<PwmCommand>)
        ensures
            *final(self) == (Servo { enable: true, ..*old(self) }),
            command == (if pin_enabled {
                None
            } else {
                Some(PwmCommand::Enable)
            }),
    {
        self.enable = true;
        if !pin_enabled {
            Some(PwmCommand::Enable)
        } else {
            None
        }
    }

    /// Switches the servo off. `pin_enabled` says whether the channel is
    /// enabled now; a channel that is already disabled is left alone.
    pub fn disable(&mut self, pin_enabled: bool) -> (command: Option<PwmCommand>)
        ensures
            *final(self) == (Servo { enable: false, ..*old(self) }),
            command == (if pin_enabled {
                Some(PwmCommand::Disable)
            } else {
                None
            }),
    {
        self.enable = false;
        if pin_enabled {
            Some(PwmCommand::Disable)
        } else {
            None
        }
    }

    /// Use with caution: some servos spin freely on this pulse.
    pub fn motor_mode(&mut self) -> (command: PwmCommand)
        ensures
            *final(self) == *old(self),
            command == (PwmCommand::SetPulseWidth { us: MOTOR_MODE_US }),
    {
        self.write_pwm(MOTOR_MODE_US)
    }

    /// Moves the servo to an angle in degrees: the pulse width lies on the
    /// line from `min_us` at 0 degrees to `max_us` at 180 degrees.
    pub fn write(&mut self, value: u8) -> (command: PwmCommand)
        requires
            old(self).min_us <= old(self).max_us,
        ensures
            *final(self) == *old(self),
            command matches PwmCommand::SetPulseWidth { us } && us == pulse_width(
                old(self).min_us as int,
                old(self).max_us as int,
                value as int,
            ),
    {
        let span: u64 = (self.max_us - self.min_us) as u64;
        assert(value * span <= 255 * 65535) by (nonlinear_arith)
            requires
                value <= 255,
                span <= 65535,
        ;
        let n_value: u64 = self.min_us as u64 + ((value as u64) * span) / 180;
        PwmCommand::SetPulseWidth { us: n_value }
    }

    /// Sets the pulse width in microseconds, whatever `min_us` and `max_us`
    /// are.
    pub fn write_pwm(&mut self, value: u64) -> (command: PwmCommand)
        ensures
            *final(self) == *old(self),
            command == (PwmCommand::SetPulseWidth { us: value }),
    {
        PwmCommand::SetPulseWidth { us: value }
    }

    /// What a write reports once the channel has answered: the pulse width
    /// asked for, as `Ok` if the channel took it and as `Err` if not.
    pub fn written(pulse_width: u64, accepted: bool) -> (report: Result<u64, u64>)
        ensures
            report == (if accepted {
                Ok::<u64, u64>(pulse_width)
            } else {
                Err::<u64, u64>(pulse_width)
            }),
    {
        if accepted {
            Ok(pulse_width)
        } else {
            Err(pulse_width)
        }
    }

    /// The shortest pulse width.
    pub fn get_min(&mut self) -> (min: u16)
        ensures
            *final(self) == *old(self),
            min == old(self).min_us,
    {
        self.min_us
    }

    /// The longest pulse width.
    pub fn get_max(&mut self) -> (max: u16)
        ensures
            *final(self) == *old(self),
            max == old(self).max_us,
    {
        self.max_us
    }

    /// Checks the period of the channel, in milliseconds, against the one
    /// last set: `Ok` if they agree, `Err` if something else has changed the
    /// channel. Either way the result holds the period of the channel.
    pub fn get_period(&mut self, pin_period: u64) -> (period: Result<u64, u64>)
        ensures
            *final(self) == *old(self),
            period == (if pin_period == old(self).period {
                Ok::<u64, u64>(pin_period)
            } else {
                Err::<u64, u64>(pin_period)
            }),
    {
        if pin_period == self.period {
            Ok(pin_period)
        } else {
            Err(pin_period)
        }
    }

    /// The PWM channel that the servo is on.
    pub fn get_channel(&mut self) -> (channel: u8)
        ensures
            *final(self) == *old(self),
            channel == old(self).channel,
    {
        self.channel
    }
}

} // verus!
