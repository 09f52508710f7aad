//! Measurement precision and exact temperature decoding.
//!
//! The sensor reports a signed 16-bit fixed-point payload. Each
//! resolution has a fixed scale factor: the temperature in degrees
//! Celsius is the signed payload divided by that scale. The library
//! keeps temperatures exact, in ten-thousandths of a degree, because
//! every scale divides 10000.

use vstd::prelude::*;

verus! {

/// Measurement precision of the sensor, selected once at startup.
/// Higher resolutions need a longer conversion wait.
#[derive(Copy, Clone, PartialEq, Eq, Structural, Debug)]
pub enum Resolution {
    Bits9,
    Bits10,
    Bits11,
    Bits12,
}

impl Resolution {
    /// The fixed divisor that turns a raw payload into degrees Celsius.
    pub open spec fn spec_scale(self) -> int {
        match self {
            Resolution::Bits9 => 2,
            Resolution::Bits10 => 4,
            Resolution::Bits11 => 8,
            Resolution::Bits12 => 16,
        }
    }

    pub fn scale(self) -> (r: u32)
        ensures
            r as int == self.spec_scale(),
    {
        match self {
            Resolution::Bits9 => 2,
            Resolution::Bits10 => 4,
            Resolution::Bits11 => 8,
            Resolution::Bits12 => 16,
        }
    }

    /// Ten-thousandths of a degree per unit of raw payload: 10000
    /// divided by the scale, which is exact for every resolution.
    pub open spec fn spec_unit_ten_thousandths(self) -> int {
        match self {
            Resolution::Bits9 => 5000,
            Resolution::Bits10 => 2500,
            Resolution::Bits11 => 1250,
            Resolution::Bits12 => 625,
        }
    }

    /// The minimum wait, in milliseconds, after a conversion command
    /// before the sensor's result is valid. Returning earlier than this
    /// lower bound yields garbage readings.
    pub open spec fn spec_conversion_time_ms(self) -> int {
        match self {
            Resolution::Bits9 => 94,
            Resolution::Bits10 => 188,
            Resolution::Bits11 => 375,
            Resolution::Bits12 => 750,
        }
    }

    pub fn conversion_time_ms(self) -> (r: u16)
        ensures
            r as int == self.spec_conversion_time_ms(),
    {
        match self {
            Resolution::Bits9 => 94,
            Resolution::Bits10 => 188,
            Resolution::Bits11 => 375,
            Resolution::Bits12 => 750,
        }
    }

    /// The resolution encoded by a scratchpad configuration register,
    /// if the register holds a valid encoding.
    pub open spec fn spec_from_config_register(config: u8) -> Option<Resolution> {
        if config == 0x1f {
            Some(Resolution::Bits9)
        } else if config == 0x3f {
            Some(Resolution::Bits10)
        } else if config == 0x5f {
            Some(Resolution::Bits11)
        } else if config == 0x7f {
            Some(Resolution::Bits12)
        } else {
            None
        }
    }

    pub fn from_config_register(config: u8) -> (r: Option<Resolution>)
        ensures
            r == Self::spec_from_config_register(config),
    {
        if config == 0x1f {
            Some(Resolution::Bits9)
        } else if config == 0x3f {
            Some(Resolution::Bits10)
        } else if config == 0x5f {
            Some(Resolution::Bits11)
        } else if config == 0x7f {
            Some(Resolution::Bits12)
        } else {
            None
        }
    }
}

/// An exact temperature, in ten-thousandths of a degree Celsius.
///
/// One sixteenth of a degree is 625 ten-thousandths, so every value a
/// sensor can report at any resolution is represented exactly.
#[derive(Copy, Clone, PartialEq, Eq, Structural, Debug)]
pub struct Temperature {
    pub ten_thousandths: i32,
}

/// The decoded value, in ten-thousandths of a degree, of a signed raw
/// payload at the given resolution: the payload times the unit weight,
/// which equals the payload divided by the scale in exact arithmetic.
pub open spec fn spec_decode(raw: int, res: Resolution) -> int {
    raw * res.spec_unit_ten_thousandths()
}

/// Decodes a signed raw sensor payload into an exact temperature.
pub fn decode_temperature(raw: i16, res: Resolution) -> (t: Temperature)
    ensures
        t.ten_thousandths as int == spec_decode(raw as int, res),
{
    let unit: i32 = match res {
        Resolution::Bits9 => 5000,
        Resolution::Bits10 => 2500,
        Resolution::Bits11 => 1250,
        Resolution::Bits12 => 625,
    };
    Temperature { ten_thousandths: (raw as i32) * unit }
}

/// The decoded temperature equals the signed payload divided by the
/// resolution's scale factor: as exact rationals,
/// decoded / 10000 == raw / scale.
pub proof fn lemma_decode_is_payload_over_scale(raw: int, res: Resolution)
    ensures
        spec_decode(raw, res) * res.spec_scale() == raw * 10000,
{
    match res {
        Resolution::Bits9 => {
            assert(raw * 5000 * 2 == raw * 10000) by (nonlinear_arith);
        },
        Resolution::Bits10 => {
            assert(raw * 2500 * 4 == raw * 10000) by (nonlinear_arith);
        },
        Resolution::Bits11 => {
            assert(raw * 1250 * 8 == raw * 10000) by (nonlinear_arith);
        },
        Resolution::Bits12 => {
            assert(raw * 625 * 16 == raw * 10000) by (nonlinear_arith);
        },
    }
}

/// Decoding is a pure function of payload and resolution: two decodings
/// of the same payload at the same resolution agree.
pub proof fn lemma_decode_deterministic(raw: int, res: Resolution, first: int, second: int)
    requires
        first == spec_decode(raw, res),
        second == spec_decode(raw, res),
    ensures
        first == second,
{
}

} // verus!
