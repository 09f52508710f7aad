use sensor_node::duty_cycle::{
    deep_sleep_micros, DutyCycleController, DutyCyclePhase, ReportAction, RestPolicy,
};
use sensor_node::report::render_record;
use sensor_node::sensor::{
    interpret_scratchpad, select_device, BusError, DeviceAddress, MeasurementError,
};

const GOOD_SCRATCHPAD: [u8; 9] = [0x91, 0x01, 0x4b, 0x46, 0x7f, 0xff, 0x0c, 0x10, 0x70];

#[test]
fn cycle_with_sensor_present_reports_the_reading() {
    // Networked variant, single sensor present, 12-bit resolution,
    // raw payload 0x0191.
    let mut c = DutyCycleController::new(true, RestPolicy::PowerDown(9));
    c.peripherals_ready();
    assert_eq!(c.phase, DutyCyclePhase::RadioUp);
    c.radio_ready();
    assert_eq!(c.phase, DutyCyclePhase::Measuring);

    let addr = DeviceAddress(0x1234567890abcd28);
    let found = select_device(Some(addr)).expect("sensor address is selected");
    let outcome = interpret_scratchpad(found, &GOOD_SCRATCHPAD);
    let action = c.measurement_done(outcome);
    assert_eq!(c.phase, DutyCyclePhase::Reporting);
    match action {
        ReportAction::Report(reading) => {
            let record = render_record(&reading);
            assert_eq!(
                record,
                "{\"device_id\": \"1234567890ABCD28\", \"temperature\": 25.0625}"
            );
        }
        other => panic!("expected a report action, got {:?}", other),
    }
    c.report_done();
    assert_eq!(c.phase, DutyCyclePhase::RadioDown);
    c.radio_down();
    assert_eq!(c.phase, DutyCyclePhase::Resting);
}

#[test]
fn cycle_with_no_sensor_skips_reporting() {
    let mut c = DutyCycleController::new(true, RestPolicy::PowerDown(9));
    c.peripherals_ready();
    c.radio_ready();

    let outcome = select_device(None).map(|_| unreachable!());
    assert_eq!(outcome, Err(MeasurementError::NoDeviceFound));
    let action = c.measurement_done(outcome);
    // A warning is logged and no record is ever produced; the cycle
    // continues toward rest.
    assert_eq!(action, ReportAction::SkipWarnNoDevice);
    assert_eq!(c.phase, DutyCyclePhase::RadioDown);
    c.radio_down();
    assert_eq!(c.phase, DutyCyclePhase::Resting);
}

#[test]
fn cycle_with_corrupt_scratchpad_skips_reporting() {
    // Local variant this time: a bus fault moves straight to Resting.
    let mut c = DutyCycleController::new(false, RestPolicy::DelayAndContinue(9000));
    c.peripherals_ready();
    assert_eq!(c.phase, DutyCyclePhase::Measuring);

    let addr = DeviceAddress(0x1234567890abcd28);
    let mut corrupted = GOOD_SCRATCHPAD;
    corrupted[2] = 0xaa;
    let outcome = interpret_scratchpad(addr, &corrupted);
    assert_eq!(outcome, Err(MeasurementError::Bus(BusError::CrcMismatch)));
    let action = c.measurement_done(outcome);
    assert_eq!(action, ReportAction::SkipLogBusError);
    assert_eq!(c.phase, DutyCyclePhase::Resting);
}

#[test]
fn continuous_variant_loops_back_to_measuring() {
    let mut c = DutyCycleController::new(false, RestPolicy::DelayAndContinue(9000));
    c.peripherals_ready();
    let action = c.measurement_done(Err(MeasurementError::NoDeviceFound));
    assert_eq!(action, ReportAction::SkipWarnNoDevice);
    assert_eq!(c.phase, DutyCyclePhase::Resting);
    c.rest_done();
    assert_eq!(c.phase, DutyCyclePhase::Measuring);
}

#[test]
fn deep_sleep_duration_in_microseconds() {
    assert_eq!(deep_sleep_micros(9), 9_000_000);
    assert_eq!(deep_sleep_micros(0), 0);
}
