use sensor_node::temperature::{decode_temperature, Resolution, Temperature};

#[test]
fn decode_full_resolution_example() {
    // Raw payload 0x0191 at 12-bit resolution is 401 / 16 = 25.0625 degrees,
    // which is 250625 ten-thousandths.
    let t = decode_temperature(0x0191, Resolution::Bits12);
    assert_eq!(t.ten_thousandths, 250625);
}

#[test]
fn decode_matches_payload_over_scale_for_every_resolution() {
    let cases: [(Resolution, i32); 4] = [
        (Resolution::Bits9, 2),
        (Resolution::Bits10, 4),
        (Resolution::Bits11, 8),
        (Resolution::Bits12, 16),
    ];
    for (res, scale) in cases {
        for raw in [-32768i16, -162, -1, 0, 1, 401, 1360, 32767] {
            let t = decode_temperature(raw, res);
            // Exact rational equality: decoded / 10000 == raw / scale.
            assert_eq!(t.ten_thousandths as i64 * scale as i64, raw as i64 * 10000);
        }
    }
}

#[test]
fn decode_is_idempotent() {
    let a = decode_temperature(0x0191, Resolution::Bits12);
    let b = decode_temperature(0x0191, Resolution::Bits12);
    assert_eq!(a, b);
}

#[test]
fn decode_negative_payload() {
    // -162 / 16 = -10.125 degrees.
    let t = decode_temperature(-162, Resolution::Bits12);
    assert_eq!(t.ten_thousandths, -101250);
}

#[test]
fn conversion_time_lower_bounds() {
    assert_eq!(Resolution::Bits9.conversion_time_ms(), 94);
    assert_eq!(Resolution::Bits10.conversion_time_ms(), 188);
    assert_eq!(Resolution::Bits11.conversion_time_ms(), 375);
    assert_eq!(Resolution::Bits12.conversion_time_ms(), 750);
}

#[test]
fn scale_factors() {
    assert_eq!(Resolution::Bits9.scale(), 2);
    assert_eq!(Resolution::Bits10.scale(), 4);
    assert_eq!(Resolution::Bits11.scale(), 8);
    assert_eq!(Resolution::Bits12.scale(), 16);
}

#[test]
fn config_register_encodings() {
    assert_eq!(Resolution::from_config_register(0x1f), Some(Resolution::Bits9));
    assert_eq!(Resolution::from_config_register(0x3f), Some(Resolution::Bits10));
    assert_eq!(Resolution::from_config_register(0x5f), Some(Resolution::Bits11));
    assert_eq!(Resolution::from_config_register(0x7f), Some(Resolution::Bits12));
    assert_eq!(Resolution::from_config_register(0x00), None);
    assert_eq!(Resolution::from_config_register(0xff), None);
}

#[test]
fn temperature_is_plain_data() {
    let t = Temperature { ten_thousandths: 850000 };
    assert_eq!(t, t);
}
