use ble_sensors::sensor::{decode_atc, decode_bthome, decode_sensor, SensorReading};

#[test]
fn tagged_fields_in_order() {
    assert_eq!(
        decode_sensor(&[0x01, 0x7D, 0x09, 0x02, 0x3F, 0x03, 0x64, 0x04, 0x1D, 0x09]),
        vec![
            SensorReading::Temperature(2429),
            SensorReading::Humidity(6300),
            SensorReading::Battery(100),
            SensorReading::Voltage(2333),
        ]
    );
}

#[test]
fn tagged_fields_stop_at_unknown_tag() {
    assert_eq!(
        decode_bthome(&[0x03, 0x64, 0x09, 0x01, 0x7D, 0x09]),
        vec![SensorReading::Battery(100)]
    );
}

#[test]
fn tagged_fields_stop_where_cut_short() {
    assert_eq!(decode_bthome(&[0x02, 0x3F, 0x01, 0x7D]), vec![SensorReading::Humidity(6300)]);
    assert_eq!(decode_bthome(&[0x02, 0x3F, 0x03]), vec![SensorReading::Humidity(6300)]);
    assert_eq!(decode_bthome(&[0x04, 0x1D]), vec![]);
    assert_eq!(decode_bthome(&[]), vec![]);
}

#[test]
fn negative_temperature_field() {
    assert_eq!(decode_bthome(&[0x01, 0x9C, 0xFF]), vec![SensorReading::Temperature(-100)]);
}

#[test]
fn atc_layout() {
    assert_eq!(
        decode_atc(&[0xAA, 0xBB, 0xF2, 0x08, 0x40, 0x11, 0x5A]),
        vec![
            SensorReading::Temperature(2290),
            SensorReading::Humidity(6400),
            SensorReading::Battery(0x5A),
        ]
    );
    assert_eq!(
        decode_atc(&[0xAA, 0xBB, 0xFF, 0xFF, 0x40]),
        vec![
            SensorReading::Temperature(65535),
            SensorReading::Humidity(6400),
            SensorReading::Battery(0x40),
        ]
    );
}

#[test]
fn atc_needs_five_bytes() {
    for len in 0..5usize {
        assert_eq!(decode_atc(&vec![0x10u8; len]), vec![]);
    }
}

#[test]
fn falls_back_to_atc_where_no_field_is_found() {
    assert_eq!(
        decode_sensor(&[0xAA, 0xBB, 0xF2, 0x08, 0x40, 0x11, 0x5A]),
        vec![
            SensorReading::Temperature(2290),
            SensorReading::Humidity(6400),
            SensorReading::Battery(0x5A),
        ]
    );
    assert_eq!(decode_sensor(&[0xAA, 0xBB]), vec![]);
    assert_eq!(decode_sensor(&[0x03, 0x64, 0xF2, 0x08, 0x40]), vec![SensorReading::Battery(100)]);
}
