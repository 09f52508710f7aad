use sensor_node::sensor::{
    interpret_scratchpad, interpret_scratchpad_with, select_device, BusError, DeviceAddress,
    MeasurementError, SensorReading, FAMILY_CODE,
};
use sensor_node::temperature::Temperature;

// A scratchpad carrying the payload 0x0191 at 12-bit resolution, with a
// checksum byte that makes the integrity check pass.
const GOOD_SCRATCHPAD: [u8; 9] = [0x91, 0x01, 0x4b, 0x46, 0x7f, 0xff, 0x0c, 0x10, 0x70];

// The bus crate's own reference block: payload 0x0163 (22.1875 degrees),
// 12-bit configuration, valid checksum.
const REFERENCE_SCRATCHPAD: [u8; 9] = [99, 1, 75, 70, 127, 255, 13, 16, 21];

const SENSOR_ADDR: DeviceAddress = DeviceAddress(0x1234567890abcd28);

#[test]
fn empty_search_yields_no_device_found() {
    let r = select_device(None);
    assert_eq!(r, Err(MeasurementError::NoDeviceFound));
}

#[test]
fn sensor_family_address_is_selected() {
    assert_eq!(SENSOR_ADDR.family_code(), FAMILY_CODE);
    let r = select_device(Some(SENSOR_ADDR));
    assert_eq!(r, Ok(SENSOR_ADDR));
}

#[test]
fn foreign_family_address_is_a_bus_fault() {
    let foreign = DeviceAddress(0x1234567890abcd29);
    let r = select_device(Some(foreign));
    assert_eq!(r, Err(MeasurementError::Bus(BusError::FamilyCodeMismatch)));
}

#[test]
fn valid_scratchpad_yields_reading() {
    let r = interpret_scratchpad(SENSOR_ADDR, &GOOD_SCRATCHPAD);
    assert_eq!(
        r,
        Ok(SensorReading {
            device_id: SENSOR_ADDR,
            temperature: Temperature { ten_thousandths: 250625 },
        })
    );
}

#[test]
fn reference_scratchpad_yields_reading() {
    let r = interpret_scratchpad(SENSOR_ADDR, &REFERENCE_SCRATCHPAD);
    assert_eq!(
        r,
        Ok(SensorReading {
            device_id: SENSOR_ADDR,
            temperature: Temperature { ten_thousandths: 221875 },
        })
    );
}

#[test]
fn corrupted_scratchpad_is_a_bus_fault() {
    // Flip one payload byte: the decoded value would still look
    // plausible, but the integrity check fails and no reading comes out.
    let mut corrupted = GOOD_SCRATCHPAD;
    corrupted[0] = 0x92;
    let r = interpret_scratchpad(SENSOR_ADDR, &corrupted);
    assert_eq!(r, Err(MeasurementError::Bus(BusError::CrcMismatch)));
}

#[test]
fn corrupted_checksum_byte_is_a_bus_fault() {
    let mut corrupted = GOOD_SCRATCHPAD;
    corrupted[8] = 0x71;
    let r = interpret_scratchpad(SENSOR_ADDR, &corrupted);
    assert_eq!(r, Err(MeasurementError::Bus(BusError::CrcMismatch)));
}

#[test]
fn nonzero_checksum_never_yields_reading() {
    for crc in [1u8, 7, 0x70, 0xff] {
        let r = interpret_scratchpad_with(SENSOR_ADDR, &GOOD_SCRATCHPAD, crc);
        assert_eq!(r, Err(MeasurementError::Bus(BusError::CrcMismatch)));
    }
}

#[test]
fn invalid_config_register_is_a_bus_fault() {
    // A zero checksum but a configuration byte that encodes no valid
    // resolution: rejected as data corruption.
    let mut block = GOOD_SCRATCHPAD;
    block[4] = 0x00;
    let r = interpret_scratchpad_with(SENSOR_ADDR, &block, 0);
    assert_eq!(r, Err(MeasurementError::Bus(BusError::CrcMismatch)));
}

#[test]
fn negative_payload_scratchpad() {
    // Payload 0xff5e = -162 at 12-bit resolution: -10.125 degrees.
    let block: [u8; 9] = [0x5e, 0xff, 0x4b, 0x46, 0x7f, 0xff, 0x0c, 0x10, 0x00];
    let r = interpret_scratchpad_with(SENSOR_ADDR, &block, 0);
    assert_eq!(
        r,
        Ok(SensorReading {
            device_id: SENSOR_ADDR,
            temperature: Temperature { ten_thousandths: -101250 },
        })
    );
}

#[test]
fn bus_errors_convert_into_measurement_errors() {
    let e = MeasurementError::from(BusError::Timeout);
    assert_eq!(e, MeasurementError::Bus(BusError::Timeout));
}
