//! A bus-independent core for two small Raspberry Pi peripherals: the ADXL345
//! three-axis accelerometer and a hobby servo driven by pulse-width
//! modulation.
//!
//! Nothing in this crate touches hardware. Every operation is split at the
//! wire: a function either says which transfer has to be put on the bus, or
//! takes what a transfer brought back and says what follows from it. The
//! caller owns the bus and the PWM channel and carries the bytes between the
//! two halves.
//!
//! Physical quantities are integers in micro-units (micro-g for forces,
//! microseconds for times), so that every rule of the register encoding is
//! exact.

pub mod adxl;
pub mod bus;
pub mod interrupt;
pub mod register;
pub mod sample;
pub mod servo;
pub mod threshold;
