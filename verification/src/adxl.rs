//! The ADXL345 accelerometer: a mirror of the device state, the transfers
//! that each operation puts on the bus, and what each reply means.
//!
//! Operations that write return the transfer to perform. Operations that
//! read take the reply to the transfer that [`Query::request`] names for
//! them. A reply that is a bus error is handed back unchanged and leaves the
//! mirror as it was.

use vstd::prelude::*;
use crate::bus::BlockRead;
use crate::bus::BlockWrite;
use crate::bus::BusError;
use crate::bus::read_register;
use crate::bus::write_register;
use crate::interrupt::EventFlags;
use crate::interrupt::decode_interrupt_source;
use crate::interrupt::flags_of;
use crate::register::Register;
use crate::sample;
use crate::sample::decodes_to;
use crate::threshold;
use crate::threshold::Threshold;
use crate::threshold::decoded;
use crate::threshold::encoded;

verus! {

/// The bus address of the device unless another one is chosen.
pub const ADXL_ADD: u16 = 0x53;

/// The value of the data format register that the driver works with.
pub const DEFAULT_FORMAT: u8 = 0x08;

/// The value of the rate register for sampling at 100 Hz.
pub const DEFAULT_RATE: u8 = 0x0A;

/// A reading that went through on the bus but looks wrong. It is a warning:
/// the value read is still handed to the caller, who decides what to make of
/// it.
#[derive(Clone, Copy, Debug, PartialEq, Eq)]
pub enum AnomalousReading {
    /// The device identifier read as zero; the device is probably not
    /// responding.
    ZeroId,
    /// A register read back differently from what was written to it.
    ReadBackMismatch { written: u8, read: u8 },
}

/// A byte read from the device together with the anomaly it shows, if any.
#[derive(Clone, Copy, Debug, PartialEq, Eq)]
pub struct Checked {
    pub value: u8,
    pub anomaly: Option<AnomalousReading>,
}

/// What the driver can ask the device for. Each getter of [`Adxl`] names the
/// query whose reply it takes.
#[derive(Clone, Copy, Debug, PartialEq, Eq)]
pub enum Query {
    /// The device identifier.
    Id,
    /// The power control register.
    PowerStatus,
    /// The three offset registers, X first.
    Offsets,
    /// The six data registers, X low byte first.
    Data,
    /// The register of one threshold.
    Threshold(Threshold),
    /// The axis control of activity and inactivity detection.
    ActInact,
    /// The axis control of tap detection.
    TapAxes,
    /// The interrupt mapping.
    IntMap,
    /// The interrupt enable mask.
    IntEnable,
    /// The interrupt source register. Reading it clears the events it shows.
    InterruptSource,
}

impl Query {
    /// The register at which the read for the query starts.
    pub open spec fn first_register(self) -> Register {
        match self {
            Query::Id => Register::DevId,
            Query::PowerStatus => Register::PowerCtl,
            Query::Offsets => Register::OfsX,
            Query::Data => Register::DataX0,
            Query::Threshold(t) => t.reg(),
            Query::ActInact => Register::ActInactCtl,
            Query::TapAxes => Register::TapAxes,
            Query::IntMap => Register::IntMap,
            Query::IntEnable => Register::IntEnable,
            Query::InterruptSource => Register::IntSource,
        }
    }

    /// The number of bytes that answer the query.
    pub open spec fn reply_len(self) -> nat {
        match self {
            Query::Offsets => 3,
            Query::Data => 6,
            _ => 1,
        }
    }

    /// The one block read that answers the query.
    pub fn request(self) -> (request: BlockRead)
        ensures
            request.register == self.first_register().addr(),
            request.len == self.reply_len(),
    {
        match self {
            Query::Id => read_register(Register::DevId.address()),
            Query::PowerStatus => read_register(Register::PowerCtl.address()),
            Query::Offsets => BlockRead { register: Register::OfsX.address(), len: 3 },
            Query::Data => BlockRead { register: Register::DataX0.address(), len: 6 },
            Query::Threshold(t) => read_register(t.register().address()),
            Query::ActInact => read_register(Register::ActInactCtl.address()),
            Query::TapAxes => read_register(Register::TapAxes.address()),
            Query::IntMap => read_register(Register::IntMap.address()),
            Query::IntEnable => read_register(Register::IntEnable.address()),
            Query::InterruptSource => read_register(Register::IntSource.address()),
        }
    }
}

/// The calibration offset that a register byte stands for: the byte read as
/// an 8-bit two's-complement number.
pub open spec fn offset_of(byte: u8) -> int {
    if byte < 128 {
        byte as int
    } else {
        byte - 256
    }
}

/// Reads a register byte as a signed calibration offset.
pub fn offset_from_byte(byte: u8) -> (offset: i8)
    ensures
        offset == offset_of(byte),
{
    if byte < 128 {
        byte as i8
    } else {
        ((byte as i16) - 256) as i8
    }
}

/// The register byte for a signed calibration offset. It undoes
/// [`offset_from_byte`].
pub fn offset_to_byte(offset: i8) -> (byte: u8)
    ensures
        offset_of(byte) == offset,
        byte == (if offset >= 0 { offset as int } else { offset + 256 }),
{
    if offset >= 0 {
        offset as u8
    } else {
        ((offset as i16) + 256) as u8
    }
}

/// The last known state of one device.
#[derive(Clone, Copy, Debug, PartialEq, Eq)]
pub struct Adxl {
    /// The bus address that the device answers on.
    pub address: u16,
    /// The device identifier as last read; zero until it has been read.
    pub id: u8,
    /// The power control register as last read.
    pub power_status: u8,
    /// The calibration offsets of X, Y and Z as last read.
    pub offsets: [i8; 3],
    /// The six data registers as last read.
    pub raw_data: [u8; 6],
    /// The samples of X, Y and Z that `raw_data` stands for.
    pub data: [i16; 3],
    /// The events in the interrupt source register as last read.
    pub flags: EventFlags,
}

impl Adxl {
    /// Whether the samples are the decoding of the raw data. Every operation
    /// keeps this, so it holds of a mirror as long as nobody writes to the
    /// two fields directly.
    pub open spec fn consistent(&self) -> bool {
        decodes_to(self.raw_data, self.data)
    }

    /// The mirror of a device of which nothing has been read yet.
    pub open spec fn is_blank(&self) -> bool {
        &&& self.id == 0
        &&& self.power_status == 0
        &&& forall|i: int| 0 <= i < 3 ==> self.offsets[i] == 0
        &&& forall|i: int| 0 <= i < 6 ==> self.raw_data[i] == 0
        &&& forall|i: int| 0 <= i < 3 ==> self.data[i] == 0
        &&& self.flags == flags_of(0)
    }

    /// A blank mirror for the device at the default address.
    pub fn new() -> (adxl: Adxl)
        ensures
            adxl.address == ADXL_ADD,
            adxl.is_blank(),
            adxl.consistent(),
    {
        Adxl::new_alt_adress(ADXL_ADD)
    }

    /// A blank mirror for the device at `address`.
    pub fn new_alt_adress(address: u16) -> (adxl: Adxl)
        ensures
            adxl.address == address,
            adxl.is_blank(),
            adxl.consistent(),
    {
        Adxl {
            address,
            id: 0,
            power_status: 0,
            offsets: [0, 0, 0],
            raw_data: [0, 0, 0, 0, 0, 0],
            data: [0, 0, 0],
            flags: EventFlags::none(),
        }
    }
}

/// A one-byte write, as a contract reads it: the register and the byte.
pub open spec fn writes(request: BlockWrite, register: Register, value: int) -> bool {
    &&& request.register == register.addr()
    &&& request.payload@.len() == 1
    &&& request.payload@[0] == value
}

/// The registers that [`Adxl::clear_settings`] writes and the value for
/// each, in the order of the writes.
pub open spec fn cleared_registers() -> Seq<(Register, u8)> {
    seq![
        (Register::ThreshTap, 0u8),
        (Register::Dur, 0u8),
        (Register::Window, 0u8),
        (Register::Latent, 0u8),
        (Register::ThreshFf, 0u8),
        (Register::TimeFf, 0u8),
        (Register::TimeInact, 0u8),
        (Register::ThreshInact, 0u8),
        (Register::ThreshAct, 0u8),
        (Register::ActInactCtl, 0u8),
        (Register::TapAxes, 0u8),
        (Register::DataFormat, DEFAULT_FORMAT),
    ]
}

// Operations that write: each returns the transfer to put on the bus.
impl Adxl {
    /// The write of one threshold, encoded for its register.
    fn set_threshold(threshold: Threshold, value: i64) -> (request: BlockWrite)
        ensures
            writes(request, threshold.reg(), encoded(value as int, threshold.step() as int)),
    {
        write_register(
            threshold.register().address(),
            threshold::encode(value, threshold.scale()),
        )
    }

    /// Sets the sampling rate to 100 Hz.
    pub fn set_sampling(&self) -> (request: BlockWrite)
        ensures
            writes(request, Register::BwRate, DEFAULT_RATE as int),
    {
        write_register(Register::BwRate.address(), DEFAULT_RATE)
    }

    /// Sets the default data format.
    pub fn set_format(&self) -> (request: BlockWrite)
        ensures
            writes(request, Register::DataFormat, DEFAULT_FORMAT as int),
    {
        write_register(Register::DataFormat.address(), DEFAULT_FORMAT)
    }

    /// Writes the power control register. The device may refuse or change
    /// some bit patterns: read the register back and hand the reply to
    /// [`Adxl::confirm_power_status`].
    pub fn set_power_status(&self, cmd: u8) -> (request: BlockWrite)
        ensures
            writes(request, Register::PowerCtl, cmd as int),
    {
        write_register(Register::PowerCtl.address(), cmd)
    }

    /// Writes the three calibration offsets in one transfer, X first. The
    /// mirror keeps the offsets last read.
    pub fn set_offsets(&mut self, buffer: [i8; 3]) -> (request: BlockWrite)
        ensures
            *final(self) == *old(self),
            request.register == Register::OfsX.addr(),
            request.payload@.len() == 3,
            forall|i: int| 0 <= i < 3 ==> offset_of(#[trigger] request.payload@[i]) == buffer[i],
    {
        let mut payload: Vec<u8> = Vec::new();
        payload.push(offset_to_byte(buffer[0]));
        payload.push(offset_to_byte(buffer[1]));
        payload.push(offset_to_byte(buffer[2]));
        BlockWrite { register: Register::OfsX.address(), payload }
    }

    /// Sets the tap threshold, in micro-g.
    pub fn set_tap_threshold(&self, cmd: i64) -> (request: BlockWrite)
        ensures
            writes(request, Register::ThreshTap, encoded(cmd as int, 62_500)),
    {
        Adxl::set_threshold(Threshold::Tap, cmd)
    }

    /// Sets the longest duration of a tap, in microseconds.
    pub fn set_tap_duration(&self, cmd: i64) -> (request: BlockWrite)
        ensures
            writes(request, Register::Dur, encoded(cmd as int, 625)),
    {
        Adxl::set_threshold(Threshold::TapDuration, cmd)
    }

    /// Sets the latency before the window of a second tap, in microseconds.
    pub fn set_dtap_latency(&self, cmd: i64) -> (request: BlockWrite)
        ensures
            writes(request, Register::Latent, encoded(cmd as int, 1_250)),
    {
        Adxl::set_threshold(Threshold::TapLatency, cmd)
    }

    /// Sets the window for a second tap, in microseconds.
    pub fn set_dtap_window(&self, cmd: i64) -> (request: BlockWrite)
        ensures
            writes(request, Register::Window, encoded(cmd as int, 1_250)),
    {
        Adxl::set_threshold(Threshold::TapWindow, cmd)
    }

    /// Sets the activity threshold, in micro-g.
    pub fn set_act_threshold(&self, cmd: i64) -> (request: BlockWrite)
        ensures
            writes(request, Register::ThreshAct, encoded(cmd as int, 62_500)),
    {
        Adxl::set_threshold(Threshold::Activity, cmd)
    }

    /// Sets the inactivity threshold, in micro-g.
    pub fn set_inact_threshold(&self, cmd: i64) -> (request: BlockWrite)
        ensures
            writes(request, Register::ThreshInact, encoded(cmd as int, 62_500)),
    {
        Adxl::set_threshold(Threshold::Inactivity, cmd)
    }

    /// Sets the inactivity time, in whole seconds.
    pub fn set_inact_time(&self, cmd: u8) -> (request: BlockWrite)
        ensures
            writes(request, Register::TimeInact, cmd as int),
    {
        write_register(Register::TimeInact.address(), cmd)
    }

    /// Sets the free-fall threshold, in micro-g.
    pub fn set_ff_threshold(&self, cmd: i64) -> (request: BlockWrite)
        ensures
            writes(request, Register::ThreshFf, encoded(cmd as int, 62_500)),
    {
        Adxl::set_threshold(Threshold::FreeFall, cmd)
    }

    /// Sets the free-fall time, in microseconds.
    pub fn set_ff_time(&self, cmd: i64) -> (request: BlockWrite)
        ensures
            writes(request, Register::TimeFf, encoded(cmd as int, 5_000)),
    {
        Adxl::set_threshold(Threshold::FreeFallTime, cmd)
    }

    /// Sets the axis control of activity and inactivity detection.
    pub fn set_act_inact(&self, cmd: u8) -> (request: BlockWrite)
        ensures
            writes(request, Register::ActInactCtl, cmd as int),
    {
        write_register(Register::ActInactCtl.address(), cmd)
    }

    /// Sets the axis control of tap detection.
    pub fn set_tap_axes(&self, cmd: u8) -> (request: BlockWrite)
        ensures
            writes(request, Register::TapAxes, cmd as int),
    {
        write_register(Register::TapAxes.address(), cmd)
    }

    /// Sets the interrupt mapping.
    pub fn set_int_map(&self, cmd: u8) -> (request: BlockWrite)
        ensures
            writes(request, Register::IntMap, cmd as int),
    {
        write_register(Register::IntMap.address(), cmd)
    }

    /// Sets the interrupt enable mask.
    pub fn set_int_enable(&self, cmd: u8) -> (request: BlockWrite)
        ensures
            writes(request, Register::IntEnable, cmd as int),
    {
        write_register(Register::IntEnable.address(), cmd)
    }

    /// Brings the device back to a known baseline: every threshold and both
    /// axis controls to zero, then the default data format.
    ///
    /// The result is a sequence of independent writes, to be performed in
    /// order and given up at the first one that fails. Nothing is rolled
    /// back: after a failure the device holds a mixture of old and cleared
    /// settings.
    pub fn clear_settings(&mut self) -> (requests: Vec<BlockWrite>)
        ensures
            *final(self) == *old(self),
            requests@.len() == cleared_registers().len(),
            forall|i: int|
                0 <= i < requests@.len() ==> writes(
                    #[trigger] requests@[i],
                    cleared_registers()[i].0,
                    cleared_registers()[i].1 as int,
                ),
    {
        let mut requests: Vec<BlockWrite> = Vec::new();
        requests.push(self.set_tap_threshold(0));
        requests.push(self.set_tap_duration(0));
        requests.push(self.set_dtap_window(0));
        requests.push(self.set_dtap_latency(0));
        requests.push(self.set_ff_threshold(0));
        requests.push(self.set_ff_time(0));
        requests.push(self.set_inact_time(0));
        requests.push(self.set_inact_threshold(0));
        requests.push(self.set_act_threshold(0));
        requests.push(self.set_act_inact(0));
        requests.push(self.set_tap_axes(0));
        requests.push(self.set_format());
        requests
    }
}

// Operations that read: each takes the reply to its query.
impl Adxl {
    /// The value of one threshold, decoded from the reply to its query.
    fn get_threshold(threshold: Threshold, reply: Result<u8, BusError>) -> (value: Result<
        u64,
        BusError,
    >)
        ensures
            match reply {
                Ok(byte) => value matches Ok(v) && v == decoded(
                    byte as int,
                    threshold.step() as int,
                ),
                Err(e) => value == Err::<u64, BusError>(e),
            },
    {
        match reply {
            Ok(byte) => Ok(threshold::decode(byte, threshold.scale())),
            Err(e) => Err(e),
        }
    }

    /// Takes the reply to [`Query::Id`] and records the identifier. An
    /// identifier of zero is recorded and returned like any other, with the
    /// warning [`AnomalousReading::ZeroId`] beside it.
    pub fn get_id(&mut self, reply: Result<u8, BusError>) -> (id: Result<Checked, BusError>)
        ensures
            match reply {
                Ok(byte) => {
                    &&& id == Ok::<Checked, BusError>(
                        Checked {
                            value: byte,
                            anomaly: if byte == 0 {
                                Some(AnomalousReading::ZeroId)
                            } else {
                                None
                            },
                        },
                    )
                    &&& *final(self) == (Adxl { id: byte, ..*old(self) })
                },
                Err(e) => id == Err::<Checked, BusError>(e) && *final(self) == *old(self),
            },
            old(self).consistent() ==> final(self).consistent(),
    {
        match reply {
            Ok(byte) => {
                self.id = byte;
                let anomaly: Option<AnomalousReading> = if byte == 0 {
                    Some(AnomalousReading::ZeroId)
                } else {
                    None
                };
                Ok(Checked { value: byte, anomaly })
            },
            Err(e) => Err(e),
        }
    }

    /// Takes the reply to [`Query::PowerStatus`] and records it.
    pub fn get_power_status(&mut self, reply: Result<u8, BusError>) -> (status: Result<
        u8,
        BusError,
    >)
        ensures
            status == reply,
            match reply {
                Ok(byte) => *final(self) == (Adxl { power_status: byte, ..*old(self) }),
                Err(e) => *final(self) == *old(self),
            },
            old(self).consistent() ==> final(self).consistent(),
    {
        match reply {
            Ok(byte) => {
                self.power_status = byte;
                Ok(byte)
            },
            Err(e) => Err(e),
        }
    }

    /// Takes the reply to [`Query::PowerStatus`] made after `cmd` was
    /// written by [`Adxl::set_power_status`], and records it. A byte that
    /// differs from `cmd` is recorded and returned with the warning
    /// [`AnomalousReading::ReadBackMismatch`] beside it; it is no error.
    pub fn confirm_power_status(&mut self, cmd: u8, reply: Result<u8, BusError>) -> (status:
        Result<Checked, BusError>)
        ensures
            match reply {
                Ok(byte) => {
                    &&& status == Ok::<Checked, BusError>(
                        Checked {
                            value: byte,
                            anomaly: if byte != cmd {
                                Some(AnomalousReading::ReadBackMismatch { written: cmd, read: byte })
                            } else {
                                None
                            },
                        },
                    )
                    &&& *final(self) == (Adxl { power_status: byte, ..*old(self) })
                },
                Err(e) => status == Err::<Checked, BusError>(e) && *final(self) == *old(self),
            },
            old(self).consistent() ==> final(self).consistent(),
    {
        match reply {
            Ok(byte) => {
                self.power_status = byte;
                let anomaly: Option<AnomalousReading> = if byte != cmd {
                    Some(AnomalousReading::ReadBackMismatch { written: cmd, read: byte })
                } else {
                    None
                };
                Ok(Checked { value: byte, anomaly })
            },
            Err(e) => Err(e),
        }
    }

    /// Takes the reply to [`Query::Data`], records the raw bytes together
    /// with the samples they stand for, and returns the raw bytes.
    pub fn get_data_raw(&mut self, reply: Result<[u8; 6], BusError>) -> (raw: Result<
        [u8; 6],
        BusError,
    >)
        ensures
            raw == reply,
            match reply {
                Ok(bytes) => {
                    &&& decodes_to(bytes, final(self).data)
                    &&& *final(self) == (Adxl {
                        raw_data: bytes,
                        data: final(self).data,
                        ..*old(self)
                    })
                },
                Err(e) => *final(self) == *old(self),
            },
            reply is Ok ==> final(self).consistent(),
            old(self).consistent() ==> final(self).consistent(),
    {
        match reply {
            Ok(bytes) => {
                self.data = sample::decode(bytes);
                self.raw_data = bytes;
                Ok(bytes)
            },
            Err(e) => Err(e),
        }
    }

    /// Takes the reply to [`Query::Data`], records the raw bytes together
    /// with the samples they stand for, and returns the samples of X, Y and
    /// Z.
    pub fn get_data(&mut self, reply: Result<[u8; 6], BusError>) -> (data: Result<
        [i16; 3],
        BusError,
    >)
        ensures
            match reply {
                Ok(bytes) => {
                    &&& data == Ok::<[i16; 3], BusError>(final(self).data)
                    &&& decodes_to(bytes, final(self).data)
                    &&& *final(self) == (Adxl {
                        raw_data: bytes,
                        data: final(self).data,
                        ..*old(self)
                    })
                },
                Err(e) => data == Err::<[i16; 3], BusError>(e) && *final(self) == *old(self),
            },
            reply is Ok ==> final(self).consistent(),
            old(self).consistent() ==> final(self).consistent(),
    {
        match reply {
            Ok(bytes) => {
                let data: [i16; 3] = sample::decode(bytes);
                self.data = data;
                self.raw_data = bytes;
                Ok(data)
            },
            Err(e) => Err(e),
        }
    }

    /// Takes the reply to [`Query::Offsets`], records the three offsets and
    /// returns them.
    pub fn get_offsets(&mut self, reply: Result<[u8; 3], BusError>) -> (offsets: Result<
        [i8; 3],
        BusError,
    >)
        ensures
            match reply {
                Ok(bytes) => {
                    &&& offsets == Ok::<[i8; 3], BusError>(final(self).offsets)
                    &&& forall|i: int|
                        0 <= i < 3 ==> #[trigger] final(self).offsets[i] == offset_of(bytes[i])
                    &&& *final(self) == (Adxl { offsets: final(self).offsets, ..*old(self) })
                },
                Err(e) => offsets == Err::<[i8; 3], BusError>(e) && *final(self) == *old(self),
            },
            old(self).consistent() ==> final(self).consistent(),
    {
        match reply {
            Ok(bytes) => {
                let offsets: [i8; 3] = [
                    offset_from_byte(bytes[0]),
                    offset_from_byte(bytes[1]),
                    offset_from_byte(bytes[2]),
                ];
                self.offsets = offsets;
                Ok(offsets)
            },
            Err(e) => Err(e),
        }
    }

    /// The tap threshold, in micro-g, from the reply to the query for
    /// [`Threshold::Tap`].
    pub fn get_tap_threshold(&self, reply: Result<u8, BusError>) -> (value: Result<u64, BusError>)
        ensures
            match reply {
                Ok(byte) => value matches Ok(v) && v == decoded(byte as int, 62_500),
                Err(e) => value == Err::<u64, BusError>(e),
            },
    {
        Adxl::get_threshold(Threshold::Tap, reply)
    }

    /// The longest duration of a tap, in microseconds, from the reply to the
    /// query for [`Threshold::TapDuration`].
    pub fn get_tap_duration(&self, reply: Result<u8, BusError>) -> (value: Result<u64, BusError>)
        ensures
            match reply {
                Ok(byte) => value matches Ok(v) && v == decoded(byte as int, 625),
                Err(e) => value == Err::<u64, BusError>(e),
            },
    {
        Adxl::get_threshold(Threshold::TapDuration, reply)
    }

    /// The latency before the window of a second tap, in microseconds, from
    /// the reply to the query for [`Threshold::TapLatency`].
    pub fn get_dtap_latency(&self, reply: Result<u8, BusError>) -> (value: Result<u64, BusError>)
        ensures
            match reply {
                Ok(byte) => value matches Ok(v) && v == decoded(byte as int, 1_250),
                Err(e) => value == Err::<u64, BusError>(e),
            },
    {
        Adxl::get_threshold(Threshold::TapLatency, reply)
    }

    /// The window for a second tap, in microseconds, from the reply to the
    /// query for [`Threshold::TapWindow`].
    pub fn get_dtap_window(&self, reply: Result<u8, BusError>) -> (value: Result<u64, BusError>)
        ensures
            match reply {
                Ok(byte) => value matches Ok(v) && v == decoded(byte as int, 1_250),
                Err(e) => value == Err::<u64, BusError>(e),
            },
    {
        Adxl::get_threshold(Threshold::TapWindow, reply)
    }

    /// The activity threshold, in micro-g, from the reply to the query for
    /// [`Threshold::Activity`].
    pub fn get_act_threshold(&self, reply: Result<u8, BusError>) -> (value: Result<u64, BusError>)
        ensures
            match reply {
                Ok(byte) => value matches Ok(v) && v == decoded(byte as int, 62_500),
                Err(e) => value == Err::<u64, BusError>(e),
            },
    {
        Adxl::get_threshold(Threshold::Activity, reply)
    }

    /// The inactivity threshold, in micro-g, from the reply to the query for
    /// [`Threshold::Inactivity`].
    pub fn get_inact_threshold(&self, reply: Result<u8, BusError>) -> (value: Result<
        u64,
        BusError,
    >)
        ensures
            match reply {
                Ok(byte) => value matches Ok(v) && v == decoded(byte as int, 62_500),
                Err(e) => value == Err::<u64, BusError>(e),
            },
    {
        Adxl::get_threshold(Threshold::Inactivity, reply)
    }

    /// The free-fall threshold, in micro-g, from the reply to the query for
    /// [`Threshold::FreeFall`].
    pub fn get_ff_threshold(&self, reply: Result<u8, BusError>) -> (value: Result<u64, BusError>)
        ensures
            match reply {
                Ok(byte) => value matches Ok(v) && v == decoded(byte as int, 62_500),
                Err(e) => value == Err::<u64, BusError>(e),
            },
    {
        Adxl::get_threshold(Threshold::FreeFall, reply)
    }

    /// The free-fall time, in microseconds, from the reply to the query for
    /// [`Threshold::FreeFallTime`].
    pub fn get_ff_time(&self, reply: Result<u8, BusError>) -> (value: Result<u64, BusError>)
        ensures
            match reply {
                Ok(byte) => value matches Ok(v) && v == decoded(byte as int, 5_000),
                Err(e) => value == Err::<u64, BusError>(e),
            },
    {
        Adxl::get_threshold(Threshold::FreeFallTime, reply)
    }

    /// Takes the reply to [`Query::InterruptSource`], which clears the
    /// pending interrupts on the device, and replaces the whole flag set of
    /// the mirror with the decoding of the byte.
    pub fn clear_interupt(&mut self, reply: Result<u8, BusError>) -> (flags: Result<
        EventFlags,
        BusError,
    >)
        ensures
            match reply {
                Ok(source) => {
                    &&& flags == Ok::<EventFlags, BusError>(flags_of(source))
                    &&& *final(self) == (Adxl { flags: flags_of(source), ..*old(self) })
                },
                Err(e) => flags == Err::<EventFlags, BusError>(e) && *final(self) == *old(self),
            },
            old(self).consistent() ==> final(self).consistent(),
    {
        match reply {
            Ok(source) => {
                let flags: EventFlags = decode_interrupt_source(source);
                self.flags = flags;
                Ok(flags)
            },
            Err(e) => Err(e),
        }
    }
}

} // verus!
