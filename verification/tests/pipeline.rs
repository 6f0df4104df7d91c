use cats_log::assembler::assemble_log;
use cats_log::cursor::DecodeError;
use cats_log::normalize::{normalize_all, TimestampNormalizer};
use cats_log::orchestrator::{decode_log_batch, decode_log_stream, StopReason};
use cats_log::projector::{project_all, TelemetryEvent};
use cats_log::records::{RawRecord, RecordPayload, VoltageData};

fn push_u16(buf: &mut Vec<u8>, v: u16) {
    buf.extend(v.to_le_bytes());
}

fn push_u32(buf: &mut Vec<u8>, v: u32) {
    buf.extend(v.to_le_bytes());
}

fn push_f32(buf: &mut Vec<u8>, v: f32) {
    buf.extend(v.to_bits().to_le_bytes());
}

fn push_header(buf: &mut Vec<u8>, ts: u32, tag: u32) {
    push_u32(buf, ts);
    push_u32(buf, tag);
}

/// A buffer holding the version header and one frame of every emitting
/// kind, in a fixed order.
fn sample_log() -> Vec<u8> {
    let mut buf: Vec<u8> = b"V1.2".to_vec();
    buf.push(0);
    // Inertial frame.
    push_header(&mut buf, 1000, 0x10);
    for v in [10u16, 20, 30, 40, 50, 60] {
        push_u16(&mut buf, v);
    }
    // Barometric frame.
    push_header(&mut buf, 1500, 0x21);
    push_u32(&mut buf, 98_000);
    push_u32(&mut buf, 2_100);
    // Estimated flight picture.
    push_header(&mut buf, 2000, 0x40);
    push_f32(&mut buf, 330.5);
    push_f32(&mut buf, 40.0);
    push_f32(&mut buf, 5.5);
    // Vendor event, diagnostic-only.
    push_header(&mut buf, 2500, 0x400);
    push_u32(&mut buf, 7);
    push_u16(&mut buf, 1);
    push_u16(&mut buf, 2);
    // Vendor error, diagnostic-only.
    push_header(&mut buf, 3000, 0x800);
    push_u32(&mut buf, 42);
    // Battery voltage.
    push_header(&mut buf, 3500, 0x2000);
    push_u16(&mut buf, 3700);
    buf
}

#[test]
fn stream_decodes_sample_log() {
    let out = decode_log_stream(sample_log()).unwrap();
    assert_eq!(out.version, b"V1.2".to_vec());
    assert_eq!(out.frames_start, 5);
    assert_eq!(out.stop.reason, StopReason::NormalEnd);
    // One snapshot per emitting record, two for the barometric one, none
    // for the event and error records. Emitted times are rebased to whole
    // seconds from the first record's raw timestamp of 1000 ms.
    assert_eq!(out.events.len(), 5);
    match &out.events[0] {
        TelemetryEvent::RawSensors(s) => {
            assert_eq!(s.time, 0);
            assert_eq!(s.acc_x, 10);
            assert_eq!(s.gyro_z, 60);
            assert_eq!(s.pressure, 0);
        }
        other => panic!("unexpected {:?}", other),
    }
    match &out.events[1] {
        TelemetryEvent::RawSensors(s) => {
            assert_eq!(s.time, 0);
            assert_eq!(s.pressure, 98_000);
            // Fields of the earlier inertial record stay as they were.
            assert_eq!(s.acc_x, 10);
        }
        other => panic!("unexpected {:?}", other),
    }
    match &out.events[2] {
        TelemetryEvent::Diagnostics(d) => {
            assert_eq!(d.time, 0);
            assert_eq!(d.temperature, 2_100);
            assert_eq!(d.battery_voltage, 0);
        }
        other => panic!("unexpected {:?}", other),
    }
    match &out.events[3] {
        TelemetryEvent::Main(m) => {
            assert_eq!(m.time, 1);
            assert_eq!(f32::from_bits(m.altitude_bits), 330.5);
            assert_eq!(f32::from_bits(m.vertical_speed_bits), 40.0);
            assert_eq!(f32::from_bits(m.vertical_accel_bits), 5.5);
            assert!(m.orientation.is_none());
        }
        other => panic!("unexpected {:?}", other),
    }
    match &out.events[4] {
        TelemetryEvent::Diagnostics(d) => {
            assert_eq!(d.time, 2);
            assert_eq!(d.battery_voltage, 3700);
            // The temperature from the earlier barometric record stays.
            assert_eq!(d.temperature, 2_100);
        }
        other => panic!("unexpected {:?}", other),
    }
}

#[test]
fn batch_groups_by_kind_and_rebases() {
    let out = decode_log_batch(sample_log()).unwrap();
    assert_eq!(out.version, b"V1.2".to_vec());
    assert_eq!(out.stop.reason, StopReason::NormalEnd);
    assert_eq!(out.log.imu.len(), 1);
    assert_eq!(out.log.baro.len(), 1);
    assert_eq!(out.log.flight_info.len(), 1);
    assert_eq!(out.log.event_info.len(), 1);
    assert_eq!(out.log.error_info.len(), 1);
    assert_eq!(out.log.voltage_info.len(), 1);
    assert_eq!(out.log.orientation_info.len(), 0);
    assert_eq!(out.log.gnss_info.len(), 0);
    // Raw timestamps 1000..3500 rebase against 1000 and truncate to
    // seconds.
    assert_eq!(out.log.imu[0].timestamp, 0);
    assert_eq!(out.log.baro[0].timestamp, 0);
    assert_eq!(out.log.flight_info[0].timestamp, 1);
    assert_eq!(out.log.voltage_info[0].timestamp, 2);
    // The bounds are the raw extremes in seconds, before rebasing.
    assert_eq!(out.log.first_timestamp, 1);
    assert_eq!(out.log.last_timestamp, 3);
}

#[test]
fn unknown_selector_stops_early_and_reports_offset() {
    let mut buf: Vec<u8> = b"V9".to_vec();
    buf.push(0);
    let frames_start = buf.len();
    // One good voltage frame (10 bytes).
    push_header(&mut buf, 100, 0x2003);
    push_u16(&mut buf, 1234);
    let bad_frame_at = buf.len();
    // A frame whose selector matches no kind, followed by junk.
    push_header(&mut buf, 200, 0x30);
    buf.extend([0xAB; 24]);
    let out = decode_log_stream(buf).unwrap();
    assert_eq!(out.frames_start, frames_start);
    assert_eq!(out.stop.reason, StopReason::UnknownRecord);
    assert_eq!(out.stop.offset, bad_frame_at);
    // Everything decoded before the stop is still returned.
    assert_eq!(out.events.len(), 1);
    match &out.events[0] {
        TelemetryEvent::Diagnostics(d) => assert_eq!(d.battery_voltage, 1234),
        other => panic!("unexpected {:?}", other),
    }
}

#[test]
fn truncated_payload_stops_with_frame_offset() {
    let mut buf: Vec<u8> = b"V".to_vec();
    buf.push(0);
    let frame_at = buf.len();
    // A position-fix frame announces 9 payload bytes but only 8 follow.
    push_header(&mut buf, 100, 0x1000);
    buf.extend([0u8; 8]);
    let out = decode_log_stream(buf).unwrap();
    assert_eq!(out.stop.reason, StopReason::TruncatedFrame);
    assert_eq!(out.stop.offset, frame_at);
    assert_eq!(out.events.len(), 0);
}

#[test]
fn short_tail_ends_normally_with_no_records() {
    // Fewer than 8 bytes follow the version header: no frame header fits.
    let mut buf: Vec<u8> = b"V3".to_vec();
    buf.push(0);
    buf.extend([1, 2, 3, 4, 5, 6, 7]);
    let out = decode_log_stream(buf).unwrap();
    assert_eq!(out.stop.reason, StopReason::NormalEnd);
    assert_eq!(out.stop.offset, 3);
    assert_eq!(out.events.len(), 0);
    let out = decode_log_batch({
        let mut buf: Vec<u8> = b"V3".to_vec();
        buf.push(0);
        buf.extend([1, 2, 3, 4, 5, 6, 7]);
        buf
    })
    .unwrap();
    assert_eq!(out.stop.reason, StopReason::NormalEnd);
    assert_eq!(out.log.imu.len() + out.log.baro.len() + out.log.flight_info.len(), 0);
}

#[test]
fn out_of_range_flight_state_maps_to_default_mode() {
    // Any state code outside 1..=7 falls back to the default mode; in
    // particular 258 must not be read as 2 (armed) through truncation.
    let cases = [
        (258u32, cats_log::datatypes::FlightMode::Idle),
        (0, cats_log::datatypes::FlightMode::Idle),
        (8, cats_log::datatypes::FlightMode::Idle),
        (0x0100_0003, cats_log::datatypes::FlightMode::Idle),
        (4, cats_log::datatypes::FlightMode::Coast),
        (7, cats_log::datatypes::FlightMode::Landed),
    ];
    for (code, mode) in cases {
        let mut buf: Vec<u8> = b"V".to_vec();
        buf.push(0);
        push_header(&mut buf, 10, 0x200);
        push_u32(&mut buf, code);
        let out = decode_log_stream(buf).unwrap();
        assert_eq!(out.events.len(), 1);
        match &out.events[0] {
            TelemetryEvent::Main(m) => assert_eq!(m.mode, mode, "state code {}", code),
            other => panic!("unexpected {:?}", other),
        }
    }
}

#[test]
fn gnss_record_emits_gps_snapshot() {
    let mut buf: Vec<u8> = b"V".to_vec();
    buf.push(0);
    push_header(&mut buf, 7000, 0x1005);
    push_f32(&mut buf, 47.5);
    push_f32(&mut buf, 8.25);
    buf.push(9);
    let out = decode_log_stream(buf).unwrap();
    assert_eq!(out.stop.reason, StopReason::NormalEnd);
    assert_eq!(out.events.len(), 1);
    match &out.events[0] {
        TelemetryEvent::Gps(g) => {
            assert_eq!(g.time, 0);
            assert_eq!(f32::from_bits(g.latitude_bits), 47.5);
            assert_eq!(f32::from_bits(g.longitude_bits), 8.25);
            assert_eq!(g.fix_and_sats, 9);
        }
        other => panic!("unexpected {:?}", other),
    }
}

#[test]
fn missing_terminator_is_recoverable_error() {
    let buf: Vec<u8> = b"NO TERMINATOR HERE".to_vec();
    match decode_log_stream(buf.clone()) {
        Err(e) => assert_eq!(e, DecodeError::MissingTerminator),
        Ok(_) => panic!("a buffer without a terminator must not parse"),
    }
    match decode_log_batch(buf) {
        Err(e) => assert_eq!(e, DecodeError::MissingTerminator),
        Ok(_) => panic!("a buffer without a terminator must not parse"),
    }
}

#[test]
fn consumed_percent_reports_share_before_stop() {
    let mut buf: Vec<u8> = b"V".to_vec();
    buf.push(0);
    // One voltage frame, then an unmatched tag at offset 12 of 40 bytes.
    push_header(&mut buf, 100, 0x2000);
    push_u16(&mut buf, 1);
    push_header(&mut buf, 200, 0x31);
    buf.extend([0u8; 12]);
    let total = buf.len();
    assert_eq!(total, 32);
    let out = decode_log_stream(buf).unwrap();
    assert_eq!(out.stop.offset, 12);
    assert_eq!(out.stop.consumed_percent(total), 37);
}

#[test]
fn normalizer_rebases_and_flags_backward_steps() {
    let mut norm = TimestampNormalizer::new();
    assert_eq!(norm.observe(5000), (0, false));
    assert_eq!(norm.observe(6500), (1, false));
    assert_eq!(norm.observe(9100), (4, false));
    // A step before the zero point clamps to 0 and is flagged, not fatal.
    assert_eq!(norm.observe(4000), (0, true));
    assert_eq!(norm.observe(9999), (4, false));
}

#[test]
fn normalize_all_starts_at_zero_and_keeps_order() {
    let raws: Vec<u32> = vec![5000, 5000, 6500, 9100, 12_000];
    let secs = normalize_all(&raws);
    assert_eq!(secs, vec![0, 0, 1, 4, 7]);
    assert_eq!(secs[0], 0);
    for w in secs.windows(2) {
        assert!(w[0] <= w[1]);
    }
    assert_eq!(normalize_all(&Vec::new()), Vec::<u32>::new());
}

#[test]
fn projector_counts_events_by_kind() {
    let recs: Vec<RawRecord> = vec![
        RawRecord {
            timestamp: 1,
            sensor_id: 0,
            payload: RecordPayload::VoltageInfo(VoltageData { voltage: 10 }),
        },
        RawRecord {
            timestamp: 2,
            sensor_id: 0,
            payload: RecordPayload::VoltageInfo(VoltageData { voltage: 20 }),
        },
    ];
    let events = project_all(&recs);
    assert_eq!(events.len(), 2);
    match &events[1] {
        TelemetryEvent::Diagnostics(d) => {
            assert_eq!(d.battery_voltage, 20);
            // Both records fall within the zero point's first second.
            assert_eq!(d.time, 0);
        }
        other => panic!("unexpected {:?}", other),
    }
}

#[test]
fn assemble_empty_stream() {
    let log = assemble_log(&Vec::new());
    assert_eq!(log.first_timestamp, 0);
    assert_eq!(log.last_timestamp, 0);
    assert_eq!(log.imu.len(), 0);
}

#[test]
fn projector_flight_state_updates_mode() {
    let mut buf: Vec<u8> = b"V".to_vec();
    buf.push(0);
    push_header(&mut buf, 50, 0x200);
    push_u32(&mut buf, 3);
    let out = decode_log_stream(buf).unwrap();
    assert_eq!(out.events.len(), 1);
    match &out.events[0] {
        TelemetryEvent::Main(m) => {
            assert_eq!(m.mode, cats_log::datatypes::FlightMode::Burn);
            // The lone record defines the zero point: its time rebases
            // to 0.
            assert_eq!(m.time, 0);
        }
        other => panic!("unexpected {:?}", other),
    }
}
