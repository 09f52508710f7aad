//! The sensor measurement protocol's decisions.
//!
//! One measurement cycle broadcasts a conversion command, waits the
//! resolution's conversion time, searches the bus for a device, reads
//! that device's scratchpad and validates it, and decodes the payload.
//! The bus transfers themselves happen outside the library; the
//! functions here take their outcomes as plain values and make every
//! decision of the protocol: which device is selected, when a
//! measurement is rejected, and what reading a valid scratchpad yields.

use vstd::prelude::*;
use crate::temperature::{Resolution, Temperature, spec_decode, decode_temperature};

verus! {

/// The family code that identifies the supported thermometer on the
/// bus; the low byte of every device address carries its family code.
pub const FAMILY_CODE: u8 = 0x28;

/// The 8-byte identity of a device on the bus, read during discovery
/// and used only as an opaque identity for reporting.
#[derive(Copy, Clone, PartialEq, Eq, Structural, Debug)]
pub struct DeviceAddress(pub u64);

impl DeviceAddress {
    /// The device's family code: the low byte of the address.
    pub open spec fn spec_family_code(self) -> u64 {
        self.0 % 256
    }

    pub fn family_code(self) -> (r: u8)
        ensures
            r as u64 == self.spec_family_code(),
    {
        (self.0 % 256) as u8
    }

    /// Whether this address belongs to the supported sensor family.
    pub open spec fn spec_is_sensor(self) -> bool {
        self.spec_family_code() == FAMILY_CODE as u64
    }
}

/// An electrical or protocol fault on the shared line, including a
/// failed integrity check on data read back from a device. Every
/// variant is non-fatal to the duty cycle: the current measurement is
/// skipped and the device proceeds to rest.
#[derive(Copy, Clone, PartialEq, Eq, Structural, Debug)]
pub enum BusError {
    /// The line was not pulled high by its pull-up resistor.
    BusNotHigh,
    /// The pin driver reported a fault.
    PinFault,
    /// A device answered a command in an unexpected way.
    UnexpectedResponse,
    /// A discovered address does not belong to the sensor family.
    FamilyCodeMismatch,
    /// Data read from a device failed its integrity check.
    CrcMismatch,
    Timeout,
}

/// Why a measurement cycle produced no reading: a bus fault, or the
/// expected, non-fatal absence of any device on the line.
#[derive(Copy, Clone, PartialEq, Eq, Structural, Debug)]
pub enum MeasurementError {
    Bus(BusError),
    NoDeviceFound,
}

impl From<BusError> for MeasurementError {
    fn from(value: BusError) -> (r: MeasurementError) {
        MeasurementError::Bus(value)
    }
}

impl vstd::std_specs::convert::FromSpecImpl<BusError> for MeasurementError {
    open spec fn obeys_from_spec() -> bool {
        true
    }

    open spec fn from_spec(value: BusError) -> MeasurementError {
        MeasurementError::Bus(value)
    }
}

/// One validated reading: the identity of the device that produced it
/// and its exact decoded temperature. Constructed only from a
/// scratchpad that passed the integrity check.
#[derive(Copy, Clone, PartialEq, Eq, Structural, Debug)]
pub struct SensorReading {
    pub device_id: DeviceAddress,
    pub temperature: Temperature,
}

/// The checksum that the bus protocol appends to every data block.
/// A block of data followed by its own checksum byte sums to zero.
pub uninterp spec fn crc8_of(data: Seq<u8>) -> u8;

/// Relies on the bus crate's crc8: the checksum is a function of the
/// bytes alone.
#[verifier::external_body]
fn bus_crc8(data: &[u8]) -> (r: u8)
    ensures
        r == crc8_of(data@),
{
    one_wire_bus::crc::crc8(data)
}

/// What device selection decides from a bus search's outcome: no
/// discovered device is the expected `NoDeviceFound`; a device outside
/// the sensor family is a bus fault; otherwise the device is selected.
pub open spec fn spec_select_device(found: Option<DeviceAddress>) -> Result<
    DeviceAddress,
    MeasurementError,
> {
    match found {
        Option::None => Err(MeasurementError::NoDeviceFound),
        Option::Some(addr) => if addr.spec_is_sensor() {
            Ok(addr)
        } else {
            Err(MeasurementError::Bus(BusError::FamilyCodeMismatch))
        },
    }
}

/// Selects the device to read from the first address a bus search
/// discovered, if any. When the search found nothing, the measurement
/// fails with `NoDeviceFound` and never yields a reading.
pub fn select_device(found: Option<DeviceAddress>) -> (r: Result<DeviceAddress, MeasurementError>)
    ensures
        r == spec_select_device(found),
        found is None ==> r == Err::<DeviceAddress, MeasurementError>(
            MeasurementError::NoDeviceFound,
        ),
        r is Ok ==> found == Some(r->Ok_0) && r->Ok_0.spec_is_sensor(),
{
    match found {
        Option::None => Err(MeasurementError::NoDeviceFound),
        Option::Some(addr) => {
            if addr.0 % 256 == FAMILY_CODE as u64 {
                Ok(addr)
            } else {
                Err(MeasurementError::Bus(BusError::FamilyCodeMismatch))
            }
        },
    }
}

/// The signed 16-bit payload held in the first two scratchpad bytes,
/// least-significant byte first, read as two's complement.
pub open spec fn spec_raw_payload(bytes: Seq<u8>) -> int {
    let unsigned = bytes[0] + 256 * bytes[1];
    if unsigned >= 32768 {
        unsigned - 65536
    } else {
        unsigned
    }
}

/// What a scratchpad read decides, given the nine bytes and their
/// checksum. A nonzero checksum is a data-corruption fault, handled
/// like an electrical fault; so is a configuration register that
/// encodes no valid resolution. Otherwise the payload is decoded at
/// the resolution the scratchpad itself reports.
pub open spec fn spec_interpret(
    addr: DeviceAddress,
    bytes: Seq<u8>,
    crc: u8,
) -> Result<SensorReading, MeasurementError> {
    if crc != 0 {
        Err(MeasurementError::Bus(BusError::CrcMismatch))
    } else {
        match Resolution::spec_from_config_register(bytes[4]) {
            Option::Some(res) => Ok(
                SensorReading {
                    device_id: addr,
                    temperature: Temperature {
                        ten_thousandths: spec_decode(spec_raw_payload(bytes), res) as i32,
                    },
                },
            ),
            Option::None => Err(MeasurementError::Bus(BusError::CrcMismatch)),
        }
    }
}

/// Interprets a scratchpad whose checksum is already known. Exact on
/// every input: a reading comes out if and only if the checksum is
/// zero and the configuration register is valid, and the reading's
/// temperature is the decoded payload. A failed integrity check never
/// yields a reading, however plausible the payload would decode.
pub fn interpret_scratchpad_with(
    addr: DeviceAddress,
    scratchpad: &[u8; 9],
    crc: u8,
) -> (r: Result<SensorReading, MeasurementError>)
    ensures
        r == spec_interpret(addr, scratchpad@, crc),
        crc != 0 ==> r == Err::<SensorReading, MeasurementError>(
            MeasurementError::Bus(BusError::CrcMismatch),
        ),
        r is Ok ==> crc == 0,
{
    if crc != 0 {
        return Err(MeasurementError::Bus(BusError::CrcMismatch));
    }
    let config: u8 = scratchpad[4];
    match Resolution::from_config_register(config) {
        Option::None => Err(MeasurementError::Bus(BusError::CrcMismatch)),
        Option::Some(res) => {
            let lo: u32 = scratchpad[0] as u32;
            let hi: u32 = scratchpad[1] as u32;
            let magnitude: u32 = lo + 256 * hi;
            let raw: i16 = if magnitude >= 32768 {
                (magnitude as i32 - 65536) as i16
            } else {
                magnitude as i16
            };
            assert(raw as int == spec_raw_payload(scratchpad@));
            let t = decode_temperature(raw, res);
            Ok(SensorReading { device_id: addr, temperature: t })
        },
    }
}

/// Reads the checksum of a scratchpad and interprets it: the complete
/// validation-and-decode step of the measurement cycle, running on the
/// real bus checksum.
pub fn interpret_scratchpad(addr: DeviceAddress, scratchpad: &[u8; 9]) -> (r: Result<
    SensorReading,
    MeasurementError,
>)
    ensures
        r == spec_interpret(addr, scratchpad@, crc8_of(scratchpad@)),
        crc8_of(scratchpad@) != 0 ==> r == Err::<SensorReading, MeasurementError>(
            MeasurementError::Bus(BusError::CrcMismatch),
        ),
        r is Ok ==> crc8_of(scratchpad@) == 0,
{
    let crc = bus_crc8(scratchpad);
    interpret_scratchpad_with(addr, scratchpad, crc)
}

} // verus!
