//! Classification of an advertisement by its service identifiers and the
//! decoders of the three payload layouts.

use crate::bytes::{le_i16, le_u16, read_i16_le, read_u16_le};
use std::collections::HashMap;
use uuid::Uuid;
use vstd::prelude::*;

verus! {

/// The payload layouts that an advertisement can carry.
#[derive(Debug, Clone, Copy, PartialEq, Eq)]
pub enum BlePacketType {
    /// Service identifier 0xFE95.
    Mijia,
    /// Service identifier 0xFCD2.
    BTHome,
    /// Service identifier 0x181A.
    Pvvx,
    /// None of the above.
    Other,
}

/// One reading. Every field may be absent on its own.
#[derive(Debug, Clone, Copy, PartialEq, Eq)]
pub struct SensorData {
    /// Hundredths of a degree Celsius.
    pub temperature: Option<i32>,
    /// Hundredths of a percent of relative humidity.
    pub humidity: Option<u32>,
    /// Battery level in percent, as sent.
    pub battery: Option<u8>,
    /// Supply voltage in millivolts.
    pub voltage: Option<u16>,
}

/// Why a Mijia payload gave no reading.
#[derive(Debug, Clone, Copy, PartialEq, Eq)]
pub enum MijiaError {
    /// The payload ends at or before the type identifier.
    TooShort { len: usize },
    /// The type identifier is unknown, or the payload is too short for the
    /// layout that it selects.
    Unrecognized { type_id: u8, len: usize },
}

/// Why an advertisement gave no reading.
#[derive(Debug, Clone, Copy, PartialEq, Eq)]
pub enum DecodeFailure {
    /// The advertisement carries none of the three service identifiers.
    Unclassified,
    /// The Mijia payload was refused.
    Mijia(MijiaError),
    /// The PVVX payload has fewer than fifteen bytes.
    PvvxTooShort { len: usize },
}

/// The 128-bit value of the Mijia service identifier.
pub const MIJIA_SERVICE_UUID: u128 = 0x0000FE95_0000_1000_8000_00805F9B34FB;

/// The 128-bit value of the BTHome service identifier.
pub const BTHOME_SERVICE_UUID: u128 = 0x0000FCD2_0000_1000_8000_00805F9B34FB;

/// The 128-bit value of the PVVX service identifier.
pub const PVVX_SERVICE_UUID: u128 = 0x0000181A_0000_1000_8000_00805F9B34FB;

/// Offset of the type identifier in a Mijia payload.
pub const MIJIA_TYPE_OFFSET: usize = 11;

/// Least length of a PVVX payload.
pub const PVVX_MIN_LENGTH: usize = 15;

/// Length of the device address that opens a PVVX payload.
pub const PVVX_MAC_LENGTH: usize = 6;

/// The reading in which every field is absent.
pub open spec fn no_fields() -> SensorData {
    SensorData { temperature: None, humidity: None, battery: None, voltage: None }
}

/// What a PVVX payload decodes to: nothing below fifteen bytes, else the four
/// fields that follow the six address bytes.
pub open spec fn pvvx_reading(p: Seq<u8>) -> Option<SensorData> {
    if p.len() < 15 {
        None
    } else {
        Some(
            SensorData {
                temperature: Some(le_i16(p[6], p[7]) as i32),
                humidity: Some(le_u16(p[8], p[9]) as u32),
                battery: Some(p[12]),
                voltage: Some(le_u16(p[10], p[11]) as u16),
            },
        )
    }
}

/// Decodes a PVVX payload.
pub fn decode_pvvx(payload: &Vec<u8>) -> (reading: Option<SensorData>)
    ensures
        reading == pvvx_reading(payload@),
        reading is None <==> payload@.len() < 15,
{
    if payload.len() < PVVX_MIN_LENGTH {
        return None;
    }
    let temperature = read_i16_le(payload[PVVX_MAC_LENGTH], payload[PVVX_MAC_LENGTH + 1]);
    let humidity = read_u16_le(payload[PVVX_MAC_LENGTH + 2], payload[PVVX_MAC_LENGTH + 3]);
    let voltage = read_u16_le(payload[PVVX_MAC_LENGTH + 4], payload[PVVX_MAC_LENGTH + 5]);
    let battery = payload[PVVX_MAC_LENGTH + 6];
    Some(
        SensorData {
            temperature: Some(temperature as i32),
            humidity: Some(humidity as u32),
            battery: Some(battery),
            voltage: Some(voltage),
        },
    )
}

/// What a Mijia payload decodes to. The byte at offset 11 selects the layout;
/// temperature and humidity are sent in tenths.
pub open spec fn mijia_reading(p: Seq<u8>) -> Result<SensorData, MijiaError> {
    if p.len() <= 11 {
        Err(MijiaError::TooShort { len: p.len() as usize })
    } else if p[11] == 0x0D && p.len() >= 18 {
        Ok(
            SensorData {
                temperature: Some((le_i16(p[14], p[15]) * 10) as i32),
                humidity: Some((le_u16(p[16], p[17]) * 10) as u32),
                battery: None,
                voltage: None,
            },
        )
    } else if p[11] == 0x04 && p.len() >= 16 {
        Ok(
            SensorData {
                temperature: Some((le_i16(p[14], p[15]) * 10) as i32),
                humidity: None,
                battery: None,
                voltage: None,
            },
        )
    } else if p[11] == 0x06 && p.len() >= 16 {
        Ok(
            SensorData {
                temperature: None,
                humidity: Some((le_u16(p[14], p[15]) * 10) as u32),
                battery: None,
                voltage: None,
            },
        )
    } else if p[11] == 0x0A && p.len() >= 15 {
        Ok(SensorData { temperature: None, humidity: None, battery: Some(p[14]), voltage: None })
    } else {
        Err(MijiaError::Unrecognized { type_id: p[11], len: p.len() as usize })
    }
}

/// The least length of a Mijia payload of the layout that `type_id` selects:
/// 0x0D is temperature and humidity, 0x04 temperature, 0x06 humidity, 0x0A
/// battery level. No other type identifier selects a layout.
pub open spec fn mijia_min_length(type_id: u8) -> Option<nat> {
    if type_id == 0x0D {
        Some(18)
    } else if type_id == 0x04 || type_id == 0x06 {
        Some(16)
    } else if type_id == 0x0A {
        Some(15)
    } else {
        None
    }
}

/// Whether a Mijia payload gives a reading: it holds a type identifier, the
/// identifier selects a layout, and the payload is long enough for it.
pub open spec fn mijia_accepted(p: Seq<u8>) -> bool {
    p.len() > 11 && match mijia_min_length(p[11]) {
        Some(least) => p.len() >= least,
        None => false,
    }
}

/// Decodes a Mijia payload. A payload that is refused gives the reason: that
/// it is too short to hold a type identifier, or else the type identifier
/// and the length that do not go together.
pub fn decode_mijia(payload: &Vec<u8>) -> (reading: Result<SensorData, MijiaError>)
    ensures
        reading == mijia_reading(payload@),
        reading is Ok <==> mijia_accepted(payload@),
        payload@.len() <= 11 ==> reading == Err::<SensorData, MijiaError>(
            MijiaError::TooShort { len: payload.len() },
        ),
        payload@.len() > 11 && !mijia_accepted(payload@) ==> reading == Err::<
            SensorData,
            MijiaError,
        >(MijiaError::Unrecognized { type_id: payload@[11], len: payload.len() }),
{
    let len = payload.len();
    if len <= MIJIA_TYPE_OFFSET {
        return Err(MijiaError::TooShort { len });
    }
    let type_id = payload[MIJIA_TYPE_OFFSET];
    if type_id == 0x0D && len >= 18 {
        let temperature = read_i16_le(payload[14], payload[15]);
        let humidity = read_u16_le(payload[16], payload[17]);
        Ok(
            SensorData {
                temperature: Some((temperature as i32) * 10),
                humidity: Some((humidity as u32) * 10),
                battery: None,
                voltage: None,
            },
        )
    } else if type_id == 0x04 && len >= 16 {
        let temperature = read_i16_le(payload[14], payload[15]);
        Ok(
            SensorData {
                temperature: Some((temperature as i32) * 10),
                humidity: None,
                battery: None,
                voltage: None,
            },
        )
    } else if type_id == 0x06 && len >= 16 {
        let humidity = read_u16_le(payload[14], payload[15]);
        Ok(
            SensorData {
                temperature: None,
                humidity: Some((humidity as u32) * 10),
                battery: None,
                voltage: None,
            },
        )
    } else if type_id == 0x0A && len >= 15 {
        Ok(
            SensorData {
                temperature: None,
                humidity: None,
                battery: Some(payload[14]),
                voltage: None,
            },
        )
    } else {
        Err(MijiaError::Unrecognized { type_id, len })
    }
}

/// The four bytes that precede a BTHome payload in the full frame.
pub open spec fn bthome_preamble() -> Seq<u8> {
    seq![0x16u8, 0xd2u8, 0xfcu8, 0x40u8]
}

/// The full BTHome frame: the preamble, then the payload as received.
pub open spec fn bthome_frame(payload: Seq<u8>) -> Seq<u8> {
    bthome_preamble() + payload
}

/// Reads the records of `data` from offset `at` on, starting from the fields
/// in `acc`. A record is a tag and its value; a later record of a field
/// replaces an earlier one. An unknown tag is taken to have a value of one
/// byte. Reading ends where fewer than two bytes are left, or where a value of
/// two bytes is cut short.
pub open spec fn bthome_records(data: Seq<u8>, at: int, acc: SensorData) -> SensorData
    decreases data.len() - at,
{
    if at < 0 || at + 1 >= data.len() {
        acc
    } else if data[at] == 0x01 {
        bthome_records(data, at + 2, SensorData { battery: Some(data[at + 1]), ..acc })
    } else if data[at] == 0x02 || data[at] == 0x03 || data[at] == 0x0C {
        if at + 2 >= data.len() {
            acc
        } else {
            bthome_records(data, at + 3, bthome_field(data[at], data[at + 1], data[at + 2], acc))
        }
    } else {
        bthome_records(data, at + 2, acc)
    }
}

/// `acc` with the field of a two-byte record set: tag 0x02 is the
/// temperature, 0x03 the humidity, 0x0C the voltage. Other tags change nothing.
pub open spec fn bthome_field(tag: u8, lo: u8, hi: u8, acc: SensorData) -> SensorData {
    if tag == 0x02 {
        SensorData { temperature: Some(le_i16(lo, hi) as i32), ..acc }
    } else if tag == 0x03 {
        SensorData { humidity: Some(le_u16(lo, hi) as u32), ..acc }
    } else if tag == 0x0C {
        SensorData { voltage: Some(le_u16(lo, hi) as u16), ..acc }
    } else {
        acc
    }
}

/// What a BTHome payload decodes to: the records of the full frame behind its
/// first byte.
pub open spec fn bthome_reading(payload: Seq<u8>) -> SensorData {
    bthome_records(bthome_frame(payload), 1, no_fields())
}

/// Reading the frame from offset `at + 4` gives what reading the payload from
/// offset `at` gives.
pub proof fn lemma_bthome_frame_shift(payload: Seq<u8>, at: int, acc: SensorData)
    requires
        0 <= at,
    ensures
        bthome_records(bthome_frame(payload), at + 4, acc) == bthome_records(payload, at, acc),
    decreases payload.len() - at,
{
    let frame = bthome_frame(payload);
    assert(frame.len() == payload.len() + 4);
    if at + 1 < payload.len() {
        assert(frame[at + 4] == payload[at]);
        assert(frame[at + 5] == payload[at + 1]);
        let tag = payload[at];
        if tag == 0x01 {
            lemma_bthome_frame_shift(
                payload,
                at + 2,
                SensorData { battery: Some(payload[at + 1]), ..acc },
            );
        } else if tag == 0x02 || tag == 0x03 || tag == 0x0C {
            if at + 2 < payload.len() {
                assert(frame[at + 6] == payload[at + 2]);
                lemma_bthome_frame_shift(
                    payload,
                    at + 3,
                    bthome_field(tag, payload[at + 1], payload[at + 2], acc),
                );
            }
        } else {
            lemma_bthome_frame_shift(payload, at + 2, acc);
        }
    }
}

/// The preamble holds no known tag where the reader meets it, so the records
/// of the frame are those of the payload behind its first byte.
pub proof fn lemma_bthome_skips_header(payload: Seq<u8>)
    ensures
        bthome_reading(payload) == bthome_records(payload, 1, no_fields()),
{
    let frame = bthome_frame(payload);
    assert(frame.len() == payload.len() + 4);
    assert(frame[1] == 0xd2u8);
    assert(frame[3] == 0x40u8);
    assert(bthome_records(frame, 1, no_fields()) == bthome_records(frame, 3, no_fields()));
    if payload.len() == 0 {
        assert(bthome_records(frame, 3, no_fields()) == no_fields());
        assert(bthome_records(payload, 1, no_fields()) == no_fields());
    } else {
        assert(bthome_records(frame, 3, no_fields()) == bthome_records(frame, 5, no_fields()));
        lemma_bthome_frame_shift(payload, 1, no_fields());
    }
}

/// Decodes a BTHome payload. Every payload gives a reading, possibly one with
/// no field.
pub fn decode_bthome(payload: &Vec<u8>) -> (reading: Option<SensorData>)
    ensures
        reading == Some(bthome_reading(payload@)),
{
    let len = payload.len();
    let mut result = SensorData { temperature: None, humidity: None, battery: None, voltage: None };
    let mut i: usize = 1;
    proof {
        lemma_bthome_skips_header(payload@);
    }
    while i < len && len - i >= 2
        invariant
            len == payload@.len(),
            1 <= i,
            i <= len || i == 1,
            bthome_records(payload@, i as int, result) == bthome_reading(payload@),
        ensures
            result == bthome_reading(payload@),
        decreases len + 1 - i,
    {
        let tag = payload[i];
        if tag == 0x01 {
            result.battery = Some(payload[i + 1]);
            i += 2;
        } else if tag == 0x02 || tag == 0x03 || tag == 0x0C {
            if len - i < 3 {
                break ;
            }
            let lo = payload[i + 1];
            let hi = payload[i + 2];
            if tag == 0x02 {
                result.temperature = Some(read_i16_le(lo, hi) as i32);
            } else if tag == 0x03 {
                result.humidity = Some(read_u16_le(lo, hi) as u32);
            } else {
                result.voltage = Some(read_u16_le(lo, hi));
            }
            i += 3;
        } else {
            i += 2;
        }
    }
    Some(result)
}

/// `uuid::Uuid`, a value of sixteen bytes that Verus does not look into.
#[verifier::external_type_specification]
#[verifier::external_body]
pub struct ExUuid(uuid::Uuid);

/// The service data of an advertisement as a map from the 128-bit value of
/// each key (`Uuid::as_u128`) to the bytes stored under it.
pub uninterp spec fn service_entries(data: HashMap<Uuid, Vec<u8>>) -> Map<u128, Seq<u8>>;

/// Looks up the identifier with the 128-bit value `id`: `Uuid::from_u128`
/// makes the key and `HashMap::get` finds it. Taken on trust: a `Uuid` is
/// compared and hashed by its sixteen bytes, which are the 128-bit value in
/// big-endian order, so the entry comes back exactly when the map holds a key
/// of that value, and nothing comes back when it holds none.
#[verifier::external_body]
fn find_service<'a>(data: &'a HashMap<Uuid, Vec<u8>>, id: u128) -> (found: Option<&'a Vec<u8>>)
    ensures
        found matches Some(bytes) ==> service_entries(*data).contains_key(id) && service_entries(
            *data,
        )[id] == bytes@,
        found is None ==> !service_entries(*data).contains_key(id),
{
    data.get(&Uuid::from_u128(id))
}

/// The layout of an advertisement and the payload stored under its
/// identifier. Mijia goes before BTHome, BTHome before PVVX; the first
/// identifier present decides.
pub open spec fn classify(entries: Map<u128, Seq<u8>>) -> (BlePacketType, Option<Seq<u8>>) {
    if entries.contains_key(MIJIA_SERVICE_UUID) {
        (BlePacketType::Mijia, Some(entries[MIJIA_SERVICE_UUID]))
    } else if entries.contains_key(BTHOME_SERVICE_UUID) {
        (BlePacketType::BTHome, Some(entries[BTHOME_SERVICE_UUID]))
    } else if entries.contains_key(PVVX_SERVICE_UUID) {
        (BlePacketType::Pvvx, Some(entries[PVVX_SERVICE_UUID]))
    } else {
        (BlePacketType::Other, None)
    }
}

/// The bytes behind an optional payload.
pub open spec fn payload_bytes(payload: Option<&Vec<u8>>) -> Option<Seq<u8>> {
    match payload {
        Some(bytes) => Some(bytes@),
        None => None,
    }
}

/// Classifies an advertisement by the identifiers of its service data.
pub fn get_packet_type<'a>(service_data: &'a HashMap<Uuid, Vec<u8>>) -> (found: (
    BlePacketType,
    Option<&'a Vec<u8>>,
))
    ensures
        found.0 == classify(service_entries(*service_data)).0,
        payload_bytes(found.1) == classify(service_entries(*service_data)).1,
        found.1 is None <==> found.0 == BlePacketType::Other,
{
    if let Some(data) = find_service(service_data, MIJIA_SERVICE_UUID) {
        return (BlePacketType::Mijia, Some(data));
    }
    if let Some(data) = find_service(service_data, BTHOME_SERVICE_UUID) {
        return (BlePacketType::BTHome, Some(data));
    }
    if let Some(data) = find_service(service_data, PVVX_SERVICE_UUID) {
        return (BlePacketType::Pvvx, Some(data));
    }
    (BlePacketType::Other, None)
}

/// What a payload of a given layout decodes to.
pub open spec fn packet_reading(packet_type: BlePacketType, p: Seq<u8>) -> Result<
    SensorData,
    DecodeFailure,
> {
    match packet_type {
        BlePacketType::Mijia => match mijia_reading(p) {
            Ok(reading) => Ok(reading),
            Err(e) => Err(DecodeFailure::Mijia(e)),
        },
        BlePacketType::BTHome => Ok(bthome_reading(p)),
        BlePacketType::Pvvx => match pvvx_reading(p) {
            Some(reading) => Ok(reading),
            None => Err(DecodeFailure::PvvxTooShort { len: p.len() as usize }),
        },
        BlePacketType::Other => Err(DecodeFailure::Unclassified),
    }
}

/// Decodes a payload by the decoder of its layout.
pub fn decode_packet(packet_type: BlePacketType, payload: &Vec<u8>) -> (reading: Result<
    SensorData,
    DecodeFailure,
>)
    ensures
        reading == packet_reading(packet_type, payload@),
{
    match packet_type {
        BlePacketType::Mijia => match decode_mijia(payload) {
            Ok(reading) => Ok(reading),
            Err(e) => Err(DecodeFailure::Mijia(e)),
        },
        BlePacketType::BTHome => match decode_bthome(payload) {
            Some(reading) => Ok(reading),
            None => unreached(),
        },
        BlePacketType::Pvvx => match decode_pvvx(payload) {
            Some(reading) => Ok(reading),
            None => Err(DecodeFailure::PvvxTooShort { len: payload.len() }),
        },
        BlePacketType::Other => Err(DecodeFailure::Unclassified),
    }
}

/// What the service data of an advertisement decodes to: the reading of the
/// payload under the first identifier present.
pub open spec fn service_reading(entries: Map<u128, Seq<u8>>) -> Result<SensorData, DecodeFailure> {
    match classify(entries).1 {
        Some(p) => packet_reading(classify(entries).0, p),
        None => Err(DecodeFailure::Unclassified),
    }
}

/// Classifies an advertisement and decodes its payload, with the reason where
/// there is no reading.
pub fn decode_service_data(data: &HashMap<Uuid, Vec<u8>>) -> (reading: Result<
    SensorData,
    DecodeFailure,
>)
    ensures
        reading == service_reading(service_entries(*data)),
{
    let (packet_type, payload) = get_packet_type(data);
    match payload {
        Some(bytes) => decode_packet(packet_type, bytes),
        None => Err(DecodeFailure::Unclassified),
    }
}

/// Classifies an advertisement and decodes its payload.
pub fn handle_service_data(data: &HashMap<Uuid, Vec<u8>>) -> (reading: Option<SensorData>)
    ensures
        reading == match service_reading(service_entries(*data)) {
            Ok(decoded) => Some(decoded),
            Err(_) => None,
        },
{
    match decode_service_data(data) {
        Ok(decoded) => Some(decoded),
        Err(_) => None,
    }
}

/// An advertisement with none of the three identifiers is of no known layout:
/// it has no payload to decode and gives no reading.
pub proof fn lemma_unrecognized_is_other(entries: Map<u128, Seq<u8>>)
    requires
        !entries.contains_key(MIJIA_SERVICE_UUID),
        !entries.contains_key(BTHOME_SERVICE_UUID),
        !entries.contains_key(PVVX_SERVICE_UUID),
    ensures
        classify(entries) == (BlePacketType::Other, None::<Seq<u8>>),
        service_reading(entries) == Err::<SensorData, DecodeFailure>(DecodeFailure::Unclassified),
{
}

} // verus!
