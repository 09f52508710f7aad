//! Rendering a reading into the report record.
//!
//! Both reporting collaborators carry the same structured text record:
//! the device identity as sixteen uppercase hexadecimal digits, and
//! the temperature as a decimal number, exact because the library
//! keeps temperatures in ten-thousandths of a degree. The record is
//! rendered here, character by character, with its exact contents
//! stated in the contracts; sending it to the log stream or over a
//! datagram socket happens outside the library.

use vstd::prelude::*;
use vstd::string::StringExecFns;
use crate::sensor::{DeviceAddress, SensorReading};
use crate::temperature::Temperature;

verus! {

/// The character for one digit value, 0 to 15, using uppercase letters.
pub open spec fn spec_digit_char(d: int) -> char {
    if d == 0 {
        '0'
    } else if d == 1 {
        '1'
    } else if d == 2 {
        '2'
    } else if d == 3 {
        '3'
    } else if d == 4 {
        '4'
    } else if d == 5 {
        '5'
    } else if d == 6 {
        '6'
    } else if d == 7 {
        '7'
    } else if d == 8 {
        '8'
    } else if d == 9 {
        '9'
    } else if d == 10 {
        'A'
    } else if d == 11 {
        'B'
    } else if d == 12 {
        'C'
    } else if d == 13 {
        'D'
    } else if d == 14 {
        'E'
    } else {
        'F'
    }
}

/// The one-character string for a digit value.
fn digit_str(d: u8) -> (r: &'static str)
    requires
        d < 16,
    ensures
        r@ =~= seq![spec_digit_char(d as int)],
{
    proof {
        reveal_strlit("0");
        reveal_strlit("1");
        reveal_strlit("2");
        reveal_strlit("3");
        reveal_strlit("4");
        reveal_strlit("5");
        reveal_strlit("6");
        reveal_strlit("7");
        reveal_strlit("8");
        reveal_strlit("9");
        reveal_strlit("A");
        reveal_strlit("B");
        reveal_strlit("C");
        reveal_strlit("D");
        reveal_strlit("E");
        reveal_strlit("F");
    }
    if d == 0 {
        "0"
    } else if d == 1 {
        "1"
    } else if d == 2 {
        "2"
    } else if d == 3 {
        "3"
    } else if d == 4 {
        "4"
    } else if d == 5 {
        "5"
    } else if d == 6 {
        "6"
    } else if d == 7 {
        "7"
    } else if d == 8 {
        "8"
    } else if d == 9 {
        "9"
    } else if d == 10 {
        "A"
    } else if d == 11 {
        "B"
    } else if d == 12 {
        "C"
    } else if d == 13 {
        "D"
    } else if d == 14 {
        "E"
    } else {
        "F"
    }
}

/// The value of the i-th hexadecimal digit, from the most significant,
/// of a 64-bit word.
pub open spec fn spec_nibble(v: u64, i: int) -> u64 {
    (v >> ((60 - 4 * i) as u64)) & 0xf
}

/// A 64-bit word as sixteen uppercase hexadecimal digits, zero-padded,
/// most significant first: the form in which a device address is
/// reported.
pub open spec fn spec_hex16(v: u64) -> Seq<char> {
    Seq::new(16, |i: int| spec_digit_char(spec_nibble(v, i) as int))
}

/// Renders a device address as its sixteen uppercase hexadecimal
/// digits.
pub fn device_id_string(addr: &DeviceAddress) -> (s: String)
    ensures
        s@ == spec_hex16(addr.0),
{
    let v: u64 = addr.0;
    let mut s = String::new();
    let mut i: usize = 0;
    while i < 16
        invariant
            i <= 16,
            s@ =~= spec_hex16(v).take(i as int),
        decreases 16 - i,
    {
        let shift: u64 = 60 - 4 * (i as u64);
        let nib: u64 = (v >> shift) & 0xf;
        proof {
            assert((v >> shift) & 0xf < 16) by (bit_vector);
            assert(shift == (60 - 4 * (i as int)) as u64);
            assert(nib == spec_nibble(v, i as int));
            assert(spec_hex16(v).take(i as int + 1) =~= spec_hex16(v).take(i as int).push(
                spec_digit_char(spec_nibble(v, i as int) as int),
            ));
        }
        s.append(digit_str(nib as u8));
        i += 1;
    }
    proof {
        assert(spec_hex16(v).take(16) =~= spec_hex16(v));
    }
    s
}

/// A natural number in decimal, most significant digit first, with no
/// leading zeros (a single zero digit for zero).
pub open spec fn spec_dec(n: nat) -> Seq<char>
    decreases n,
{
    if n < 10 {
        seq![spec_digit_char(n as int)]
    } else {
        spec_dec(n / 10).push(spec_digit_char((n % 10) as int))
    }
}

/// Renders a natural number in decimal.
fn dec_string(n: u32) -> (s: String)
    ensures
        s@ == spec_dec(n as nat),
    decreases n,
{
    if n < 10 {
        String::from_str(digit_str(n as u8))
    } else {
        let mut s = dec_string(n / 10);
        s.append(digit_str((n % 10) as u8));
        proof {
            assert(s@ =~= spec_dec(n as nat));
        }
        s
    }
}

/// The fractional part of a temperature, in ten-thousandths, as one to
/// four decimal digits: four digits zero-padded on the left, with
/// trailing zeros dropped but at least one digit kept, as a binary
/// floating-point printer would render these exactly representable
/// fractions.
pub open spec fn spec_frac(frac: int) -> Seq<char> {
    let d0 = spec_digit_char(frac / 1000);
    let d1 = spec_digit_char((frac / 100) % 10);
    let d2 = spec_digit_char((frac / 10) % 10);
    let d3 = spec_digit_char(frac % 10);
    if frac % 10 != 0 {
        seq![d0, d1, d2, d3]
    } else if (frac / 10) % 10 != 0 {
        seq![d0, d1, d2]
    } else if (frac / 100) % 10 != 0 {
        seq![d0, d1]
    } else {
        seq![d0]
    }
}

/// Renders the fractional part, in ten-thousandths, of a temperature.
fn frac_string(frac: u32) -> (s: String)
    requires
        frac < 10000,
    ensures
        s@ == spec_frac(frac as int),
{
    let d0: u8 = (frac / 1000) as u8;
    let d1: u8 = ((frac / 100) % 10) as u8;
    let d2: u8 = ((frac / 10) % 10) as u8;
    let d3: u8 = (frac % 10) as u8;
    let mut s = String::from_str(digit_str(d0));
    if frac % 10 != 0 {
        s.append(digit_str(d1));
        s.append(digit_str(d2));
        s.append(digit_str(d3));
        proof {
            assert(s@ =~= spec_frac(frac as int));
        }
    } else if (frac / 10) % 10 != 0 {
        s.append(digit_str(d1));
        s.append(digit_str(d2));
        proof {
            assert(s@ =~= spec_frac(frac as int));
        }
    } else if (frac / 100) % 10 != 0 {
        s.append(digit_str(d1));
        proof {
            assert(s@ =~= spec_frac(frac as int));
        }
    } else {
        proof {
            assert(s@ =~= spec_frac(frac as int));
        }
    }
    s
}

/// A temperature in ten-thousandths of a degree as a signed decimal
/// number with a decimal point: integer part, point, fraction with
/// trailing zeros dropped but at least one fraction digit.
pub open spec fn spec_temperature_str(v: int) -> Seq<char> {
    let a = if v < 0 {
        -v
    } else {
        v
    };
    let sign: Seq<char> = if v < 0 {
        "-"@
    } else {
        Seq::<char>::empty()
    };
    sign + spec_dec((a / 10000) as nat) + "."@ + spec_frac(a % 10000)
}

/// Renders a temperature as an exact decimal number.
pub fn temperature_string(t: &Temperature) -> (s: String)
    ensures
        s@ == spec_temperature_str(t.ten_thousandths as int),
{
    let v: i64 = t.ten_thousandths as i64;
    let mut s = String::new();
    let a: u32 = if v < 0 {
        s.append("-");
        (-v) as u32
    } else {
        v as u32
    };
    let whole = dec_string(a / 10000);
    s.append(whole.as_str());
    s.append(".");
    let frac = frac_string(a % 10000);
    s.append(frac.as_str());
    proof {
        assert(s@ =~= spec_temperature_str(t.ten_thousandths as int));
    }
    s
}

/// The report record for one reading: the device identity and the
/// exact decoded temperature, in the structured text form both
/// reporting collaborators carry.
pub open spec fn spec_record(addr: DeviceAddress, t: Temperature) -> Seq<char> {
    "{\"device_id\": \""@ + spec_hex16(addr.0) + "\", \"temperature\": "@
        + spec_temperature_str(t.ten_thousandths as int) + "}"@
}

/// Renders the report record for one validated reading.
pub fn render_record(reading: &SensorReading) -> (s: String)
    ensures
        s@ == spec_record(reading.device_id, reading.temperature),
{
    let mut s = String::from_str("{\"device_id\": \"");
    let id = device_id_string(&reading.device_id);
    s.append(id.as_str());
    s.append("\", \"temperature\": ");
    let temp = temperature_string(&reading.temperature);
    s.append(temp.as_str());
    s.append("}");
    proof {
        assert(s@ =~= spec_record(reading.device_id, reading.temperature));
    }
    s
}

} // verus!
