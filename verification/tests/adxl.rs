use rpi_embedded::adxl::Adxl;
use rpi_embedded::adxl::AnomalousReading;
use rpi_embedded::adxl::Checked;
use rpi_embedded::adxl::Query;
use rpi_embedded::adxl::offset_from_byte;
use rpi_embedded::adxl::offset_to_byte;
use rpi_embedded::bus::BlockRead;
use rpi_embedded::bus::BlockWrite;
use rpi_embedded::bus::BusError;
use rpi_embedded::interrupt::EventFlags;
use rpi_embedded::threshold::Threshold;

/// A device that lives in memory: a register file, and a switch that makes
/// every transfer fail.
struct Simulated {
    registers: [u8; 64],
    failure: Option<BusError>,
    transfers: usize,
}

impl Simulated {
    fn new() -> Simulated {
        let mut registers: [u8; 64] = [0; 64];
        registers[0] = 0xE5;
        Simulated { registers, failure: None, transfers: 0 }
    }

    fn read(&mut self, request: BlockRead) -> Result<Vec<u8>, BusError> {
        self.transfers += 1;
        if let Some(e) = self.failure {
            return Err(e);
        }
        let first: usize = request.register as usize;
        Ok(self.registers[first..first + request.len].to_vec())
    }

    fn byte(&mut self, query: Query) -> Result<u8, BusError> {
        let request: BlockRead = query.request();
        assert_eq!(request.len, 1);
        self.read(request).map(|bytes| bytes[0])
    }

    fn three(&mut self, query: Query) -> Result<[u8; 3], BusError> {
        let request: BlockRead = query.request();
        assert_eq!(request.len, 3);
        self.read(request).map(|bytes| [bytes[0], bytes[1], bytes[2]])
    }

    fn six(&mut self, query: Query) -> Result<[u8; 6], BusError> {
        let request: BlockRead = query.request();
        assert_eq!(request.len, 6);
        self.read(request).map(|b| [b[0], b[1], b[2], b[3], b[4], b[5]])
    }

    fn write(&mut self, request: &BlockWrite) -> Result<(), BusError> {
        self.transfers += 1;
        if let Some(e) = self.failure {
            return Err(e);
        }
        for (i, byte) in request.payload.iter().enumerate() {
            self.registers[request.register as usize + i] = *byte;
        }
        Ok(())
    }
}

fn one_byte(register: u8, value: u8) -> BlockWrite {
    BlockWrite { register, payload: vec![value] }
}

#[test]
fn a_new_mirror_is_blank() {
    let adxl: Adxl = Adxl::new();
    assert_eq!(adxl.address, 0x53);
    assert_eq!(adxl.id, 0);
    assert_eq!(adxl.power_status, 0);
    assert_eq!(adxl.offsets, [0, 0, 0]);
    assert_eq!(adxl.raw_data, [0, 0, 0, 0, 0, 0]);
    assert_eq!(adxl.data, [0, 0, 0]);
    assert_eq!(adxl.flags, EventFlags::none());
}

#[test]
fn a_mirror_can_be_bound_to_another_address() {
    let adxl: Adxl = Adxl::new_alt_adress(0x1D);
    assert_eq!(adxl.address, 0x1D);
    assert_eq!(Adxl { address: 0x53, ..adxl }, Adxl::new());
}

#[test]
fn each_query_reads_its_registers() {
    assert_eq!(Query::Id.request(), BlockRead { register: 0, len: 1 });
    assert_eq!(Query::PowerStatus.request(), BlockRead { register: 45, len: 1 });
    assert_eq!(Query::Offsets.request(), BlockRead { register: 30, len: 3 });
    assert_eq!(Query::Data.request(), BlockRead { register: 50, len: 6 });
    assert_eq!(Query::ActInact.request(), BlockRead { register: 39, len: 1 });
    assert_eq!(Query::TapAxes.request(), BlockRead { register: 42, len: 1 });
    assert_eq!(Query::IntMap.request(), BlockRead { register: 47, len: 1 });
    assert_eq!(Query::IntEnable.request(), BlockRead { register: 46, len: 1 });
    assert_eq!(Query::InterruptSource.request(), BlockRead { register: 48, len: 1 });
    let thresholds: [(Threshold, u8); 9] = [
        (Threshold::Tap, 29),
        (Threshold::TapDuration, 33),
        (Threshold::TapLatency, 34),
        (Threshold::TapWindow, 35),
        (Threshold::Activity, 36),
        (Threshold::Inactivity, 37),
        (Threshold::InactivityTime, 38),
        (Threshold::FreeFall, 40),
        (Threshold::FreeFallTime, 41),
    ];
    for (threshold, register) in thresholds {
        assert_eq!(Query::Threshold(threshold).request(), BlockRead { register, len: 1 });
    }
}

#[test]
fn get_id_records_the_identifier() {
    let mut bus: Simulated = Simulated::new();
    let mut adxl: Adxl = Adxl::new();
    let id = adxl.get_id(bus.byte(Query::Id));
    assert_eq!(id, Ok(Checked { value: 0xE5, anomaly: None }));
    assert_eq!(adxl, Adxl { id: 0xE5, ..Adxl::new() });
}

#[test]
fn get_id_warns_of_a_zero_identifier_and_still_returns_it() {
    let mut adxl: Adxl = Adxl::new();
    adxl.get_id(Ok(0xE5)).unwrap();
    let id = adxl.get_id(Ok(0));
    assert_eq!(id, Ok(Checked { value: 0, anomaly: Some(AnomalousReading::ZeroId) }));
    assert_eq!(adxl.id, 0);
}

#[test]
fn get_power_status_records_the_register() {
    let mut bus: Simulated = Simulated::new();
    bus.registers[45] = 8;
    let mut adxl: Adxl = Adxl::new();
    assert_eq!(adxl.get_power_status(bus.byte(Query::PowerStatus)), Ok(8));
    assert_eq!(adxl, Adxl { power_status: 8, ..Adxl::new() });
}

#[test]
fn set_power_status_reads_back_what_it_wrote() {
    let mut bus: Simulated = Simulated::new();
    let mut adxl: Adxl = Adxl::new();
    let request: BlockWrite = adxl.set_power_status(8);
    assert_eq!(request, one_byte(45, 8));
    bus.write(&request).unwrap();
    let status = adxl.confirm_power_status(8, bus.byte(Query::PowerStatus));
    assert_eq!(status, Ok(Checked { value: 8, anomaly: None }));
    assert_eq!(adxl.power_status, 8);
}

#[test]
fn a_read_back_that_differs_is_a_warning_and_no_error() {
    let mut adxl: Adxl = Adxl::new();
    let status = adxl.confirm_power_status(0xFF, Ok(0x3F));
    assert_eq!(
        status,
        Ok(Checked {
            value: 0x3F,
            anomaly: Some(AnomalousReading::ReadBackMismatch { written: 0xFF, read: 0x3F }),
        })
    );
    assert_eq!(adxl, Adxl { power_status: 0x3F, ..Adxl::new() });
}

#[test]
fn get_data_decodes_the_six_data_registers() {
    let mut bus: Simulated = Simulated::new();
    bus.registers[50..56].copy_from_slice(&[0x00, 0x04, 0xFF, 0xFF, 0x00, 0x80]);
    let mut adxl: Adxl = Adxl::new();
    assert_eq!(adxl.get_data(bus.six(Query::Data)), Ok([1024, -1, -32768]));
    assert_eq!(adxl.raw_data, [0x00, 0x04, 0xFF, 0xFF, 0x00, 0x80]);
    assert_eq!(adxl.data, [1024, -1, -32768]);
    assert_eq!(
        adxl,
        Adxl {
            raw_data: [0x00, 0x04, 0xFF, 0xFF, 0x00, 0x80],
            data: [1024, -1, -32768],
            ..Adxl::new()
        }
    );
}

#[test]
fn get_data_raw_keeps_the_samples_in_step_with_the_bytes() {
    let mut adxl: Adxl = Adxl::new();
    let raw: [u8; 6] = [0x10, 0x00, 0x20, 0x00, 0xF0, 0xFF];
    assert_eq!(adxl.get_data_raw(Ok(raw)), Ok(raw));
    assert_eq!(adxl.raw_data, raw);
    assert_eq!(adxl.data, [16, 32, -16]);
}

#[test]
fn a_failed_acquisition_keeps_the_previous_sample() {
    let mut bus: Simulated = Simulated::new();
    bus.registers[50..56].copy_from_slice(&[1, 2, 3, 4, 5, 6]);
    let mut adxl: Adxl = Adxl::new();
    adxl.get_data(bus.six(Query::Data)).unwrap();
    let before: Adxl = adxl;
    bus.registers[50..56].copy_from_slice(&[9, 9, 9, 9, 9, 9]);
    bus.failure = Some(BusError::Nack);
    assert_eq!(adxl.get_data(bus.six(Query::Data)), Err(BusError::Nack));
    assert_eq!(adxl, before);
    assert_eq!(adxl.get_data_raw(bus.six(Query::Data)), Err(BusError::Nack));
    assert_eq!(adxl, before);
    assert_eq!(adxl.data, [0x0201, 0x0403, 0x0605]);
}

#[test]
fn a_bus_failure_comes_back_unchanged_from_every_read() {
    for failure in [BusError::AddressBind, BusError::Nack, BusError::Io] {
        let mut adxl: Adxl = Adxl::new();
        adxl.get_id(Ok(0xE5)).unwrap();
        adxl.get_power_status(Ok(8)).unwrap();
        adxl.get_offsets(Ok([1, 2, 3])).unwrap();
        adxl.get_data(Ok([1, 2, 3, 4, 5, 6])).unwrap();
        adxl.clear_interupt(Ok(0x7F)).unwrap();
        let before: Adxl = adxl;
        assert_eq!(adxl.get_id(Err(failure)), Err(failure));
        assert_eq!(adxl.get_power_status(Err(failure)), Err(failure));
        assert_eq!(adxl.confirm_power_status(8, Err(failure)), Err(failure));
        assert_eq!(adxl.get_offsets(Err(failure)), Err(failure));
        assert_eq!(adxl.get_data_raw(Err(failure)), Err(failure));
        assert_eq!(adxl.get_data(Err(failure)), Err(failure));
        assert_eq!(adxl.clear_interupt(Err(failure)), Err(failure));
        assert_eq!(adxl.get_tap_threshold(Err(failure)), Err(failure));
        assert_eq!(adxl.get_tap_duration(Err(failure)), Err(failure));
        assert_eq!(adxl.get_dtap_latency(Err(failure)), Err(failure));
        assert_eq!(adxl.get_dtap_window(Err(failure)), Err(failure));
        assert_eq!(adxl.get_act_threshold(Err(failure)), Err(failure));
        assert_eq!(adxl.get_inact_threshold(Err(failure)), Err(failure));
        assert_eq!(adxl.get_ff_threshold(Err(failure)), Err(failure));
        assert_eq!(adxl.get_ff_time(Err(failure)), Err(failure));
        assert_eq!(adxl, before);
    }
}

#[test]
fn offsets_are_signed_bytes() {
    assert_eq!(offset_from_byte(0), 0);
    assert_eq!(offset_from_byte(127), 127);
    assert_eq!(offset_from_byte(128), -128);
    assert_eq!(offset_from_byte(255), -1);
    assert_eq!(offset_to_byte(-1), 255);
    assert_eq!(offset_to_byte(-128), 128);
    assert_eq!(offset_to_byte(127), 127);
    for byte in 0..=255u8 {
        assert_eq!(offset_from_byte(byte), byte as i8);
        assert_eq!(offset_to_byte(offset_from_byte(byte)), byte);
    }
}

#[test]
fn offsets_written_are_the_offsets_read() {
    let mut bus: Simulated = Simulated::new();
    let mut adxl: Adxl = Adxl::new();
    let request: BlockWrite = adxl.set_offsets([-3, 0, 100]);
    assert_eq!(request, BlockWrite { register: 30, payload: vec![0xFD, 0, 100] });
    assert_eq!(adxl, Adxl::new());
    bus.write(&request).unwrap();
    assert_eq!(adxl.get_offsets(bus.three(Query::Offsets)), Ok([-3, 0, 100]));
    assert_eq!(adxl, Adxl { offsets: [-3, 0, 100], ..Adxl::new() });
}

#[test]
fn thresholds_are_written_in_register_steps() {
    let adxl: Adxl = Adxl::new();
    assert_eq!(adxl.set_tap_threshold(500_000), one_byte(29, 8));
    assert_eq!(adxl.set_tap_duration(10_000), one_byte(33, 16));
    assert_eq!(adxl.set_dtap_latency(100_000), one_byte(34, 80));
    assert_eq!(adxl.set_dtap_window(200_000), one_byte(35, 160));
    assert_eq!(adxl.set_act_threshold(1_000_000), one_byte(36, 16));
    assert_eq!(adxl.set_inact_threshold(125_000), one_byte(37, 2));
    assert_eq!(adxl.set_inact_time(30), one_byte(38, 30));
    assert_eq!(adxl.set_ff_threshold(437_500), one_byte(40, 7));
    assert_eq!(adxl.set_ff_time(300_000), one_byte(41, 60));
}

#[test]
fn threshold_setters_saturate() {
    let adxl: Adxl = Adxl::new();
    assert_eq!(adxl.set_tap_threshold(-5_000_000), one_byte(29, 0));
    assert_eq!(adxl.set_tap_threshold(100_000_000), one_byte(29, 255));
    assert_eq!(adxl.set_tap_duration(-1), one_byte(33, 0));
    assert_eq!(adxl.set_tap_duration(1_000_000), one_byte(33, 255));
    assert_eq!(adxl.set_dtap_latency(i64::MIN), one_byte(34, 0));
    assert_eq!(adxl.set_dtap_latency(i64::MAX), one_byte(34, 255));
    assert_eq!(adxl.set_dtap_window(-1), one_byte(35, 0));
    assert_eq!(adxl.set_dtap_window(320_000), one_byte(35, 255));
    assert_eq!(adxl.set_act_threshold(-1), one_byte(36, 0));
    assert_eq!(adxl.set_act_threshold(16_000_000), one_byte(36, 255));
    assert_eq!(adxl.set_inact_threshold(-1), one_byte(37, 0));
    assert_eq!(adxl.set_inact_threshold(16_000_000), one_byte(37, 255));
    assert_eq!(adxl.set_ff_threshold(-1), one_byte(40, 0));
    assert_eq!(adxl.set_ff_threshold(16_000_000), one_byte(40, 255));
    assert_eq!(adxl.set_ff_time(-1), one_byte(41, 0));
    assert_eq!(adxl.set_ff_time(1_280_000), one_byte(41, 255));
}

#[test]
fn thresholds_are_read_in_micro_units() {
    let adxl: Adxl = Adxl::new();
    assert_eq!(adxl.get_tap_threshold(Ok(8)), Ok(500_000));
    assert_eq!(adxl.get_tap_duration(Ok(16)), Ok(10_000));
    assert_eq!(adxl.get_dtap_latency(Ok(80)), Ok(100_000));
    assert_eq!(adxl.get_dtap_window(Ok(160)), Ok(200_000));
    assert_eq!(adxl.get_act_threshold(Ok(16)), Ok(1_000_000));
    assert_eq!(adxl.get_inact_threshold(Ok(2)), Ok(125_000));
    assert_eq!(adxl.get_ff_threshold(Ok(7)), Ok(437_500));
    assert_eq!(adxl.get_ff_time(Ok(60)), Ok(300_000));
    assert_eq!(adxl.get_ff_time(Ok(255)), Ok(1_275_000));
    assert_eq!(adxl.get_tap_threshold(Ok(0)), Ok(0));
}

#[test]
fn a_threshold_written_reads_back_cut_to_whole_steps() {
    let mut bus: Simulated = Simulated::new();
    let adxl: Adxl = Adxl::new();
    bus.write(&adxl.set_tap_threshold(100_000)).unwrap();
    let reply = bus.byte(Query::Threshold(Threshold::Tap));
    assert_eq!(adxl.get_tap_threshold(reply), Ok(62_500));
    bus.write(&adxl.set_ff_time(42_000)).unwrap();
    let reply = bus.byte(Query::Threshold(Threshold::FreeFallTime));
    assert_eq!(adxl.get_ff_time(reply), Ok(40_000));
    bus.write(&adxl.set_tap_duration(625 * 200)).unwrap();
    let reply = bus.byte(Query::Threshold(Threshold::TapDuration));
    assert_eq!(adxl.get_tap_duration(reply), Ok(625 * 200));
}

#[test]
fn plain_registers_are_written_as_given() {
    let adxl: Adxl = Adxl::new();
    assert_eq!(adxl.set_sampling(), one_byte(44, 0x0A));
    assert_eq!(adxl.set_format(), one_byte(49, 0x08));
    assert_eq!(adxl.set_power_status(0), one_byte(45, 0));
    assert_eq!(adxl.set_act_inact(0x77), one_byte(39, 0x77));
    assert_eq!(adxl.set_tap_axes(0x07), one_byte(42, 0x07));
    assert_eq!(adxl.set_int_map(0x40), one_byte(47, 0x40));
    assert_eq!(adxl.set_int_enable(0x60), one_byte(46, 0x60));
}

#[test]
fn clear_interupt_replaces_the_whole_flag_set() {
    let mut bus: Simulated = Simulated::new();
    let mut adxl: Adxl = Adxl::new();
    bus.registers[48] = 0b0001_1000;
    adxl.clear_interupt(bus.byte(Query::InterruptSource)).unwrap();
    assert!(adxl.flags.double_tap && adxl.flags.activity);
    bus.registers[48] = 0b0110_0000;
    let flags = adxl.clear_interupt(bus.byte(Query::InterruptSource));
    let expected: EventFlags =
        EventFlags { data_ready: true, tap: true, ..EventFlags::none() };
    assert_eq!(flags, Ok(expected));
    assert_eq!(adxl, Adxl { flags: expected, ..Adxl::new() });
}

#[test]
fn clear_settings_zeroes_the_thresholds_and_restores_the_format() {
    let mut bus: Simulated = Simulated::new();
    for register in 29..=49usize {
        bus.registers[register] = 0xAA;
    }
    let mut adxl: Adxl = Adxl::new();
    let requests: Vec<BlockWrite> = adxl.clear_settings();
    assert_eq!(
        requests,
        vec![
            one_byte(29, 0),
            one_byte(33, 0),
            one_byte(35, 0),
            one_byte(34, 0),
            one_byte(40, 0),
            one_byte(41, 0),
            one_byte(38, 0),
            one_byte(37, 0),
            one_byte(36, 0),
            one_byte(39, 0),
            one_byte(42, 0),
            one_byte(49, 8),
        ]
    );
    assert_eq!(adxl, Adxl::new());
    for request in &requests {
        bus.write(request).unwrap();
    }
    for register in [29usize, 33, 34, 35, 36, 37, 38, 39, 40, 41, 42] {
        assert_eq!(bus.registers[register], 0);
    }
    assert_eq!(bus.registers[49], 8);
    for register in [30usize, 31, 32, 43, 44, 45, 46, 47, 48] {
        assert_eq!(bus.registers[register], 0xAA);
    }
}

#[test]
fn clear_settings_given_up_half_way_leaves_a_mixture() {
    let mut bus: Simulated = Simulated::new();
    for register in 29..=49usize {
        bus.registers[register] = 0xAA;
    }
    let mut adxl: Adxl = Adxl::new();
    let mut outcome: Result<(), BusError> = Ok(());
    for request in &adxl.clear_settings() {
        if bus.transfers == 4 {
            bus.failure = Some(BusError::Io);
        }
        outcome = bus.write(request);
        if outcome.is_err() {
            break;
        }
    }
    assert_eq!(outcome, Err(BusError::Io));
    assert_eq!(bus.transfers, 5);
    for register in [29usize, 33, 34, 35] {
        assert_eq!(bus.registers[register], 0);
    }
    for register in [36usize, 37, 38, 39, 40, 41, 42, 49] {
        assert_eq!(bus.registers[register], 0xAA);
    }
}

#[test]
fn a_device_is_brought_up_by_reading_identifier_and_power_status() {
    let mut bus: Simulated = Simulated::new();
    bus.registers[45] = 8;
    let mut adxl: Adxl = Adxl::new();
    let id = adxl.get_id(bus.byte(Query::Id)).unwrap();
    let power: u8 = adxl.get_power_status(bus.byte(Query::PowerStatus)).unwrap();
    assert_eq!(id.anomaly, None);
    assert_eq!((adxl.id, adxl.power_status, power), (0xE5, 8, 8));
    assert_eq!(bus.transfers, 2);
}
