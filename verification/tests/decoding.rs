use cats_log::cursor::{read_u16_le, read_u32_le, read_u8_le, ByteCursor, DecodeError};
use cats_log::datatypes::{classify_tag, CATSFlightState, FlightMode, RecordType};
use cats_log::records::{decode_payload, payload_width_of, RecordPayload};

fn le16(v: u16) -> Vec<u8> {
    v.to_le_bytes().to_vec()
}

fn le32(v: u32) -> Vec<u8> {
    v.to_le_bytes().to_vec()
}

#[test]
fn free_readers_little_endian() {
    let buf: Vec<u8> = vec![0x01, 0x02, 0x03, 0x04, 0xFF];
    assert_eq!(read_u8_le(&buf, 0), 0x01);
    assert_eq!(read_u16_le(&buf, 0), 0x0201);
    assert_eq!(read_u16_le(&buf, 2), 0x0403);
    assert_eq!(read_u32_le(&buf, 0), 0x04030201);
    assert_eq!(read_u32_le(&buf, 1), 0xFF040302);
}

#[test]
fn cursor_reads_advance_by_width() {
    let buf: Vec<u8> = vec![0x10, 0x20, 0x30, 0x40, 0x50, 0x60, 0x70];
    let mut cur = ByteCursor::new(buf);
    assert_eq!(cur.read_u8(), Ok(0x10));
    assert_eq!(cur.position(), 1);
    assert_eq!(cur.read_u16(), Ok(0x3020));
    assert_eq!(cur.position(), 3);
    assert_eq!(cur.read_u32(), Ok(0x70605040));
    assert_eq!(cur.position(), 7);
    assert_eq!(cur.remaining(), 0);
    assert_eq!(cur.read_u8(), Err(DecodeError::BufferTooShort));
    assert_eq!(cur.position(), 7);
}

#[test]
fn cursor_read_too_short_consumes_nothing() {
    let mut cur = ByteCursor::new(vec![0xAA, 0xBB, 0xCC]);
    assert_eq!(cur.read_u32(), Err(DecodeError::BufferTooShort));
    assert_eq!(cur.position(), 0);
    assert_eq!(cur.remaining(), 3);
}

#[test]
fn classify_imu_with_sensor_id() {
    // Tag 0x12: selector 0x10 names the inertial kind, low bits carry id 2.
    let (kind, sensor_id) = classify_tag(0x12);
    assert_eq!(kind, RecordType::Imu);
    assert_eq!(sensor_id, 2);
    // Every sensor id classifies the same way.
    for id in 0u32..16 {
        let (kind, sensor_id) = classify_tag(0x10 | id);
        assert_eq!(kind, RecordType::Imu);
        assert_eq!(sensor_id, id as u8);
    }
}

#[test]
fn classify_all_selectors() {
    assert_eq!(RecordType::from(0x10), RecordType::Imu);
    assert_eq!(RecordType::from(0x20), RecordType::Baro);
    assert_eq!(RecordType::from(0x40), RecordType::FlightInfo);
    assert_eq!(RecordType::from(0x80), RecordType::OrientationInfo);
    assert_eq!(RecordType::from(0x100), RecordType::FilteredDataInfo);
    assert_eq!(RecordType::from(0x200), RecordType::FlightState);
    assert_eq!(RecordType::from(0x400), RecordType::EventInfo);
    assert_eq!(RecordType::from(0x800), RecordType::ErrorInfo);
    assert_eq!(RecordType::from(0x1000), RecordType::GNSSInfo);
    assert_eq!(RecordType::from(0x2000), RecordType::VoltageInfo);
    // A combination of selector bits is not a kind: matching is exact.
    assert_eq!(RecordType::from(0x30), RecordType::UnknownError);
    assert_eq!(RecordType::from(0x0), RecordType::UnknownError);
    assert_eq!(RecordType::from(0x4000), RecordType::UnknownError);
}

#[test]
fn decode_consumes_declared_width_per_kind() {
    // Payload bytes for the widest kind, reused as a prefix for the rest.
    let payload: Vec<u8> = (0u8..16).collect();
    let cases: Vec<(RecordType, usize)> = vec![
        (RecordType::Imu, 12),
        (RecordType::Baro, 8),
        (RecordType::FlightInfo, 12),
        (RecordType::OrientationInfo, 8),
        (RecordType::FilteredDataInfo, 8),
        (RecordType::FlightState, 4),
        (RecordType::EventInfo, 8),
        (RecordType::ErrorInfo, 4),
        (RecordType::GNSSInfo, 9),
        (RecordType::VoltageInfo, 2),
    ];
    for (kind, width) in cases {
        assert_eq!(payload_width_of(kind), width);
        let mut cur = ByteCursor::new(payload.clone());
        let decoded = decode_payload(kind, &mut cur);
        assert!(decoded.is_ok());
        assert_eq!(cur.position(), width, "kind {:?}", kind);
    }
}

#[test]
fn decode_imu_fields() {
    let mut bytes: Vec<u8> = Vec::new();
    for v in [100u16, 200, 300, 400, 500, 600] {
        bytes.extend(le16(v));
    }
    let mut cur = ByteCursor::new(bytes);
    match decode_payload(RecordType::Imu, &mut cur) {
        Ok(RecordPayload::Imu(d)) => {
            assert_eq!(d.acc_x, 100);
            assert_eq!(d.acc_y, 200);
            assert_eq!(d.acc_z, 300);
            assert_eq!(d.gyro_x, 400);
            assert_eq!(d.gyro_y, 500);
            assert_eq!(d.gyro_z, 600);
        }
        other => panic!("unexpected {:?}", other),
    }
}

#[test]
fn decode_baro_fields() {
    let mut bytes = le32(98_600);
    bytes.extend(le32(2_345));
    let mut cur = ByteCursor::new(bytes);
    match decode_payload(RecordType::Baro, &mut cur) {
        Ok(RecordPayload::Baro(d)) => {
            assert_eq!(d.pressure, 98_600);
            assert_eq!(d.temp, 2_345);
            // The declared scale divisor for temperature is 100.
            assert_eq!(d.temp as f32 / 100.0, 23.45);
        }
        other => panic!("unexpected {:?}", other),
    }
}

#[test]
fn decode_flight_info_bit_patterns() {
    let mut bytes = le32(1250.5f32.to_bits());
    bytes.extend(le32(88.25f32.to_bits()));
    bytes.extend(le32((-9.5f32).to_bits()));
    let mut cur = ByteCursor::new(bytes);
    match decode_payload(RecordType::FlightInfo, &mut cur) {
        Ok(RecordPayload::FlightInfo(d)) => {
            assert_eq!(f32::from_bits(d.height_bits), 1250.5);
            assert_eq!(f32::from_bits(d.velocity_bits), 88.25);
            assert_eq!(f32::from_bits(d.acceleration_bits), -9.5);
        }
        other => panic!("unexpected {:?}", other),
    }
}

#[test]
fn decode_voltage_scaled_value() {
    // Selector 0x2000 names the voltage kind; payload E8 03 is 1000.
    let (kind, _) = classify_tag(0x2000);
    assert_eq!(kind, RecordType::VoltageInfo);
    let mut cur = ByteCursor::new(vec![0xE8, 0x03]);
    match decode_payload(kind, &mut cur) {
        Ok(RecordPayload::VoltageInfo(d)) => {
            assert_eq!(d.voltage, 1000);
            // The declared scale divisor for voltage is 1000.
            assert_eq!(d.voltage as f32 / 1000.0, 1.0);
        }
        other => panic!("unexpected {:?}", other),
    }
}

#[test]
fn decode_gnss_short_buffer_fails_without_consuming() {
    // A position fix needs 9 payload bytes; only 8 remain.
    let bytes: Vec<u8> = vec![0; 8];
    let mut cur = ByteCursor::new(bytes);
    let decoded = decode_payload(RecordType::GNSSInfo, &mut cur);
    assert_eq!(decoded, Err(DecodeError::BufferTooShort));
    assert_eq!(cur.position(), 0);
    assert_eq!(cur.remaining(), 8);
}

#[test]
fn decode_gnss_fields() {
    let mut bytes = le32(47.5f32.to_bits());
    bytes.extend(le32(8.25f32.to_bits()));
    bytes.push(11);
    let mut cur = ByteCursor::new(bytes);
    match decode_payload(RecordType::GNSSInfo, &mut cur) {
        Ok(RecordPayload::GNSSInfo(d)) => {
            assert_eq!(f32::from_bits(d.latitude_bits), 47.5);
            assert_eq!(f32::from_bits(d.longitude_bits), 8.25);
            assert_eq!(d.satellites, 11);
        }
        other => panic!("unexpected {:?}", other),
    }
    assert_eq!(cur.position(), 9);
}

#[test]
fn flight_state_codes_map_to_modes() {
    let expected = [
        (1u8, CATSFlightState::Calibrating, FlightMode::Idle),
        (2, CATSFlightState::Ready, FlightMode::Armed),
        (3, CATSFlightState::Thrust, FlightMode::Burn),
        (4, CATSFlightState::Coast, FlightMode::Coast),
        (5, CATSFlightState::Drogue, FlightMode::RecoveryDrogue),
        (6, CATSFlightState::Main, FlightMode::RecoveryMain),
        (7, CATSFlightState::Touchdown, FlightMode::Landed),
    ];
    for (code, state, mode) in expected {
        assert_eq!(CATSFlightState::from(code), state);
        assert_eq!(FlightMode::from(state), mode);
    }
    // Codes outside 1..=7 fall back to the default state.
    assert_eq!(CATSFlightState::from(0), CATSFlightState::Calibrating);
    assert_eq!(CATSFlightState::from(8), CATSFlightState::Calibrating);
    assert_eq!(CATSFlightState::from(255), CATSFlightState::Calibrating);
    assert_eq!(FlightMode::from(CATSFlightState::from(0)), FlightMode::Idle);
}
