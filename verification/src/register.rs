//! The register map of the ADXL345, as the data sheet numbers it.

use vstd::prelude::*;

verus! {

/// Every register of the device. The names follow the data sheet.
#[derive(Clone, Copy, Debug, PartialEq, Eq)]
pub enum Register {
    /// Device identifier, read only.
    DevId,
    /// Tap threshold.
    ThreshTap,
    /// Offset of the X axis.
    OfsX,
    /// Offset of the Y axis.
    OfsY,
    /// Offset of the Z axis.
    OfsZ,
    /// Tap duration.
    Dur,
    /// Tap latency.
    Latent,
    /// Window for the second tap.
    Window,
    /// Activity threshold.
    ThreshAct,
    /// Inactivity threshold.
    ThreshInact,
    /// Inactivity time.
    TimeInact,
    /// Axis enable control for activity and inactivity detection.
    ActInactCtl,
    /// Free-fall threshold.
    ThreshFf,
    /// Free-fall time.
    TimeFf,
    /// Axis control for single and double tap.
    TapAxes,
    /// Source of a tap or an activity event, read only.
    ActTapStatus,
    /// Data rate and power mode control.
    BwRate,
    /// Power-saving features control.
    PowerCtl,
    /// Interrupt enable control.
    IntEnable,
    /// Interrupt mapping control.
    IntMap,
    /// Source of interrupts, read only.
    IntSource,
    /// Data format control.
    DataFormat,
    /// X axis sample, low byte.
    DataX0,
    /// X axis sample, high byte.
    DataX1,
    /// Y axis sample, low byte.
    DataY0,
    /// Y axis sample, high byte.
    DataY1,
    /// Z axis sample, low byte.
    DataZ0,
    /// Z axis sample, high byte.
    DataZ1,
    /// FIFO control.
    FifoCtl,
    /// FIFO status, read only.
    FifoStatus,
}

impl Register {
    /// The address of the register on the device.
    pub open spec fn addr(self) -> u8 {
        match self {
            Register::DevId => 0,
            Register::ThreshTap => 29,
            Register::OfsX => 30,
            Register::OfsY => 31,
            Register::OfsZ => 32,
            Register::Dur => 33,
            Register::Latent => 34,
            Register::Window => 35,
            Register::ThreshAct => 36,
            Register::ThreshInact => 37,
            Register::TimeInact => 38,
            Register::ActInactCtl => 39,
            Register::ThreshFf => 40,
            Register::TimeFf => 41,
            Register::TapAxes => 42,
            Register::ActTapStatus => 43,
            Register::BwRate => 44,
            Register::PowerCtl => 45,
            Register::IntEnable => 46,
            Register::IntMap => 47,
            Register::IntSource => 48,
            Register::DataFormat => 49,
            Register::DataX0 => 50,
            Register::DataX1 => 51,
            Register::DataY0 => 52,
            Register::DataY1 => 53,
            Register::DataZ0 => 54,
            Register::DataZ1 => 55,
            Register::FifoCtl => 56,
            Register::FifoStatus => 57,
        }
    }

    /// The address of the register on the device: 0 for the identifier, 29
    /// to 57 for all the others.
    pub fn address(self) -> (a: u8)
        ensures
            a == self.addr(),
            a == 0 || 29 <= a <= 57,
    {
        match self {
            Register::DevId => 0,
            Register::ThreshTap => 29,
            Register::OfsX => 30,
            Register::OfsY => 31,
            Register::OfsZ => 32,
            Register::Dur => 33,
            Register::Latent => 34,
            Register::Window => 35,
            Register::ThreshAct => 36,
            Register::ThreshInact => 37,
            Register::TimeInact => 38,
            Register::ActInactCtl => 39,
            Register::ThreshFf => 40,
            Register::TimeFf => 41,
            Register::TapAxes => 42,
            Register::ActTapStatus => 43,
            Register::BwRate => 44,
            Register::PowerCtl => 45,
            Register::IntEnable => 46,
            Register::IntMap => 47,
            Register::IntSource => 48,
            Register::DataFormat => 49,
            Register::DataX0 => 50,
            Register::DataX1 => 51,
            Register::DataY0 => 52,
            Register::DataY1 => 53,
            Register::DataZ0 => 54,
            Register::DataZ1 => 55,
            Register::FifoCtl => 56,
            Register::FifoStatus => 57,
        }
    }
}

/// No two registers share an address.
pub proof fn addresses_are_distinct(a: Register, b: Register)
    requires
        a != b,
    ensures
        a.addr() != b.addr(),
{
}

} // verus!
