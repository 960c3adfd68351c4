//! Readings as a list, from a payload whose layout is not known beforehand:
//! a stream of tagged fields is tried first, the fixed ATC layout second.

use crate::bytes::{le_i16, le_u16, read_i16_le, read_u16_le};
use vstd::prelude::*;

verus! {

/// One measured quantity.
#[derive(Debug, Clone, Copy, PartialEq, Eq)]
pub enum SensorReading {
    /// Hundredths of a degree Celsius.
    Temperature(i32),
    /// Hundredths of a percent of relative humidity.
    Humidity(u32),
    /// Battery level in percent.
    Battery(u8),
    /// Supply voltage in millivolts.
    Voltage(u16),
}

/// The readings of an ATC payload: none below five bytes, else the
/// temperature in bytes 2 and 3, the humidity in whole percent in byte 4 and
/// the battery level in the last byte.
pub open spec fn atc_readings(data: Seq<u8>) -> Seq<SensorReading> {
    if data.len() < 5 {
        Seq::empty()
    } else {
        seq![
            SensorReading::Temperature(le_u16(data[2], data[3]) as i32),
            SensorReading::Humidity((data[4] * 100) as u32),
            SensorReading::Battery(data.last()),
        ]
    }
}

/// Whether `tag` is the tag of a field, and the number of bytes of its value.
pub open spec fn field_width(tag: u8) -> Option<int> {
    if tag == 0x01 || tag == 0x04 {
        Some(2)
    } else if tag == 0x02 || tag == 0x03 {
        Some(1)
    } else {
        None
    }
}

/// The reading of the field with tag `tag` whose value starts with the bytes
/// `first` and `second`: 0x01 is the temperature, 0x02 the humidity in whole
/// percent, 0x03 the battery level, anything else the voltage.
pub open spec fn field_reading(tag: u8, first: u8, second: u8) -> SensorReading {
    if tag == 0x01 {
        SensorReading::Temperature(le_i16(first, second) as i32)
    } else if tag == 0x02 {
        SensorReading::Humidity((first * 100) as u32)
    } else if tag == 0x03 {
        SensorReading::Battery(first)
    } else {
        SensorReading::Voltage(le_u16(first, second) as u16)
    }
}

/// The readings of the tagged fields of `data` from offset `at` on. Reading
/// ends at the first unknown tag and at the first field that is cut short.
pub open spec fn field_readings(data: Seq<u8>, at: int) -> Seq<SensorReading>
    decreases data.len() - at,
{
    if at < 0 || at >= data.len() {
        Seq::empty()
    } else {
        match field_width(data[at]) {
            Some(width) => if at + 1 + width <= data.len() {
                seq![
                    field_reading(
                        data[at],
                        data[at + 1],
                        if width == 2 {
                            data[at + 2]
                        } else {
                            0
                        },
                    ),
                ] + field_readings(data, at + 1 + width)
            } else {
                Seq::empty()
            },
            None => Seq::empty(),
        }
    }
}

/// The readings of a payload: those of its tagged fields, or, where there is
/// none, those of the ATC layout.
pub open spec fn sensor_readings(data: Seq<u8>) -> Seq<SensorReading> {
    if field_readings(data, 0).len() > 0 {
        field_readings(data, 0)
    } else {
        atc_readings(data)
    }
}

/// Decodes a payload of the ATC layout.
pub fn decode_atc(data: &[u8]) -> (readings: Vec<SensorReading>)
    ensures
        readings@ == atc_readings(data@),
{
    let mut readings: Vec<SensorReading> = Vec::new();
    if data.len() < 5 {
        return readings;
    }
    let temperature = read_u16_le(data[2], data[3]);
    readings.push(SensorReading::Temperature(temperature as i32));
    readings.push(SensorReading::Humidity((data[4] as u32) * 100));
    readings.push(SensorReading::Battery(data[data.len() - 1]));
    assert(readings@ =~= atc_readings(data@));
    readings
}

/// Decodes a payload as a stream of tagged fields.
pub fn decode_bthome(data: &[u8]) -> (readings: Vec<SensorReading>)
    ensures
        readings@ == field_readings(data@, 0),
{
    let mut readings: Vec<SensorReading> = Vec::new();
    let len = data.len();
    let mut i: usize = 0;
    assert(readings@ + field_readings(data@, 0) =~= field_readings(data@, 0));
    while i < len
        invariant
            len == data@.len(),
            i <= len,
            readings@ + field_readings(data@, i as int) == field_readings(data@, 0),
        ensures
            readings@ == field_readings(data@, 0),
        decreases len - i,
    {
        let key = data[i];
        let ghost before = readings@;
        let ghost at = i as int;
        if key == 0x01 || key == 0x04 {
            if len - i < 3 {
                assert(before + Seq::<SensorReading>::empty() =~= before);
                break ;
            }
            let first = data[i + 1];
            let second = data[i + 2];
            if key == 0x01 {
                readings.push(SensorReading::Temperature(read_i16_le(first, second) as i32));
            } else {
                readings.push(SensorReading::Voltage(read_u16_le(first, second)));
            }
            i += 3;
        } else if key == 0x02 || key == 0x03 {
            if len - i < 2 {
                assert(before + Seq::<SensorReading>::empty() =~= before);
                break ;
            }
            let first = data[i + 1];
            if key == 0x02 {
                readings.push(SensorReading::Humidity((first as u32) * 100));
            } else {
                readings.push(SensorReading::Battery(first));
            }
            i += 2;
        } else {
            assert(before + Seq::<SensorReading>::empty() =~= before);
            break ;
        }
        assert(readings@ + field_readings(data@, i as int) =~= before + field_readings(data@, at));
    }
    readings
}

/// Decodes a payload: as tagged fields first, as ATC where that gives nothing.
pub fn decode_sensor(data: &[u8]) -> (readings: Vec<SensorReading>)
    ensures
        readings@ == sensor_readings(data@),
{
    let fields = decode_bthome(data);
    if fields.len() > 0 {
        fields
    } else {
        decode_atc(data)
    }
}

} // verus!
