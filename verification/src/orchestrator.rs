//! The frame loop: header, classification, payload decode, dispatch.
//!
//! The loop runs while at least 8 bytes remain, so a timestamp and a tag
//! can always be read before giving up; shorter tails end the run
//! normally. An unmatched tag selector ends the run early and successfully
//! at that frame's header, the documented tolerance for trailing
//! corruption. A known frame whose payload runs past the buffer end stops
//! the run with its header offset as the diagnostic. Whatever ends the
//! run, everything decoded before it is returned.

use vstd::prelude::*;
use crate::assembler::{
    assemble_log, batch_first_timestamp, batch_kind, batch_last_timestamp, FlightLog,
};
use crate::cursor::{le32, ByteCursor, DecodeError};
use crate::datatypes::{record_type_of, selector_of, sensor_id_of, RecordType};
use crate::header::parse_version;
use crate::normalize::{batch_zero, rebased};
use crate::projector::{projected_events, project_all, StateProjector, TelemetryEvent};
use crate::records::{decode_payload, decoded_payload, payload_width, RawRecord};

verus! {

/// How a decode run ended.
#[derive(Clone, Copy, PartialEq, Eq, Structural, Debug)]
pub enum StopReason {
    /// Fewer than 8 bytes remained: no further frame header fits.
    NormalEnd,
    /// A tag selector matched no known kind; decoding stopped there,
    /// successfully, as the tolerance policy for trailing corruption.
    UnknownRecord,
    /// A known frame's declared payload ran past the buffer end.
    TruncatedFrame,
}

/// Where and why a decode run ended. The offset names the byte at which
/// the run gave up: the header start of the frame it could not take, or
/// the position past the last whole frame on a normal end.
#[derive(Clone, Copy, PartialEq, Eq, Structural, Debug)]
pub struct DecodeStop {
    pub reason: StopReason,
    pub offset: usize,
}

/// Ghost image of a `DecodeStop`, with an unbounded offset.
pub struct SpecStop {
    pub reason: StopReason,
    pub offset: int,
}

/// Where and why the frame walk starting at offset `i` of `s` ends.
pub open spec fn spec_stop(s: Seq<u8>, i: int) -> SpecStop
    decreases s.len() - i,
{
    if i < 0 || i + 8 > s.len() {
        SpecStop { reason: StopReason::NormalEnd, offset: i }
    } else {
        let kind = record_type_of(selector_of(le32(s, i + 4)));
        if kind is UnknownError {
            SpecStop { reason: StopReason::UnknownRecord, offset: i }
        } else if i + 8 + payload_width(kind) > s.len() {
            SpecStop { reason: StopReason::TruncatedFrame, offset: i }
        } else {
            spec_stop(s, i + 8 + payload_width(kind))
        }
    }
}

/// The records the frame walk starting at offset `i` of `s` yields, in
/// frame order.
pub open spec fn decoded_records(s: Seq<u8>, i: int) -> Seq<RawRecord>
    decreases s.len() - i,
{
    if i < 0 || i + 8 > s.len() {
        Seq::empty()
    } else {
        let tag = le32(s, i + 4);
        let kind = record_type_of(selector_of(tag));
        if kind is UnknownError || i + 8 + payload_width(kind) > s.len() {
            Seq::empty()
        } else {
            seq![
                RawRecord {
                    timestamp: le32(s, i),
                    sensor_id: sensor_id_of(tag),
                    payload: decoded_payload(kind, s, i + 8),
                },
            ] + decoded_records(s, i + 8 + payload_width(kind))
        }
    }
}

/// Law: the stop of a walk characterises how it ended. The reported
/// offset lies between the walk's start and the buffer end; a normal end
/// leaves fewer than 8 bytes; a stop on an unmatched selector points at a
/// whole header whose tag matches no known kind; a truncated stop points
/// at a known frame whose declared payload passes the buffer end.
pub proof fn lemma_stop_characterised(s: Seq<u8>, i: int)
    requires
        0 <= i <= s.len(),
    ensures
        i <= spec_stop(s, i).offset <= s.len(),
        spec_stop(s, i).reason is NormalEnd ==> s.len() - spec_stop(s, i).offset < 8,
        spec_stop(s, i).reason is UnknownRecord ==> {
            &&& spec_stop(s, i).offset + 8 <= s.len()
            &&& record_type_of(selector_of(le32(s, spec_stop(s, i).offset + 4))) is UnknownError
        },
        spec_stop(s, i).reason is TruncatedFrame ==> {
            let kind = record_type_of(selector_of(le32(s, spec_stop(s, i).offset + 4)));
            &&& spec_stop(s, i).offset + 8 <= s.len()
            &&& !(kind is UnknownError)
            &&& spec_stop(s, i).offset + 8 + payload_width(kind) > s.len()
        },
    decreases s.len() - i,
{
    if i + 8 <= s.len() {
        let kind = record_type_of(selector_of(le32(s, i + 4)));
        if !(kind is UnknownError) && i + 8 + payload_width(kind) <= s.len() {
            lemma_stop_characterised(s, i + 8 + payload_width(kind));
        }
    }
}

/// Walks frames from the cursor position until the walk ends, returning
/// every decoded record in frame order and where and why the walk ended.
/// The cursor is left just past the last consumed header.
pub fn decode_records(cur: &mut ByteCursor) -> (r: (Vec<RawRecord>, DecodeStop))
    requires
        old(cur).wf(),
    ensures
        final(cur).bytes() == old(cur).bytes(),
        final(cur).wf(),
        r.0@ == decoded_records(old(cur).bytes(), old(cur).pos()),
        r.1.reason == spec_stop(old(cur).bytes(), old(cur).pos()).reason,
        r.1.offset == spec_stop(old(cur).bytes(), old(cur).pos()).offset,
{
    let ghost s = old(cur).bytes();
    let ghost start = old(cur).pos();
    let mut records: Vec<RawRecord> = Vec::new();
    proof {
        assert(records@ + decoded_records(s, start) =~= decoded_records(s, start));
    }
    loop
        invariant
            s == old(cur).bytes(),
            start == old(cur).pos(),
            cur.wf(),
            cur.bytes() == s,
            records@ + decoded_records(s, cur.pos()) == decoded_records(s, start),
            spec_stop(s, cur.pos()) == spec_stop(s, start),
        decreases s.len() - cur.pos(),
    {
        let offset = cur.position();
        if cur.remaining() < 8 {
            return (records, DecodeStop { reason: StopReason::NormalEnd, offset });
        }
        let ghost pre_records = records@;
        let (ts, tag) = cur.read_frame_header();
        let (kind, sensor_id) = crate::datatypes::classify_tag(tag);
        if kind == RecordType::UnknownError {
            return (records, DecodeStop { reason: StopReason::UnknownRecord, offset });
        }
        match decode_payload(kind, cur) {
            Ok(payload) => {
                records.push(RawRecord { timestamp: ts, sensor_id, payload });
                proof {
                    assert(decoded_records(s, offset as int) =~= seq![
                        RawRecord {
                            timestamp: le32(s, offset as int),
                            sensor_id: sensor_id_of(le32(s, offset + 4)),
                            payload: decoded_payload(kind, s, offset + 8),
                        },
                    ] + decoded_records(s, cur.pos()));
                    assert(records@ + decoded_records(s, cur.pos()) =~= pre_records
                        + decoded_records(s, offset as int));
                }
            }
            Err(_) => {
                return (records, DecodeStop { reason: StopReason::TruncatedFrame, offset });
            }
        }
    }
}

/// Everything one decode run of a whole buffer produced in streaming
/// mode.
pub struct StreamDecode {
    /// The version bytes from the leading header.
    pub version: Vec<u8>,
    /// The offset just past the version string's NUL terminator, where
    /// frame decoding started.
    pub frames_start: usize,
    /// Every emitted telemetry snapshot, in input frame order, with its
    /// timestamp rebased to whole seconds from the first record.
    pub events: Vec<TelemetryEvent>,
    /// Where and why frame decoding ended.
    pub stop: DecodeStop,
}

/// Decodes a whole log buffer in streaming-replay mode: parses the
/// version header, walks every frame, and projects each record into the
/// emitted snapshot sequence. Fails only when the buffer holds no NUL
/// terminator; every other ending is reported in `stop`.
pub fn decode_log_stream(buf: Vec<u8>) -> (r: Result<StreamDecode, DecodeError>)
    ensures
        r matches Ok(out) ==> {
            &&& 1 <= out.frames_start <= buf@.len()
            &&& buf@[out.frames_start - 1] == 0
            &&& out.version@ == buf@.subrange(0, out.frames_start - 1)
            &&& forall|j: int| 0 <= j < out.frames_start - 1 ==> buf@[j] != 0
            &&& out.events@ == projected_events(
                StateProjector::init_spec(),
                rebased(
                    decoded_records(buf@, out.frames_start as int),
                    batch_zero(decoded_records(buf@, out.frames_start as int)),
                ),
            )
            &&& out.stop.reason == spec_stop(buf@, out.frames_start as int).reason
            &&& out.stop.offset == spec_stop(buf@, out.frames_start as int).offset
        },
        r matches Err(e) ==> {
            &&& e == DecodeError::MissingTerminator
            &&& forall|j: int| 0 <= j < buf@.len() ==> buf@[j] != 0
        },
        r is Ok <==> exists|j: int| 0 <= j < buf@.len() && buf@[j] == 0,
{
    let (version, frames_start) = match parse_version(&buf) {
        Ok(p) => p,
        Err(e) => {
            return Err(e);
        }
    };
    let mut cur = ByteCursor::new_at(buf, frames_start);
    let (records, stop) = decode_records(&mut cur);
    let events = project_all(&records);
    Ok(StreamDecode { version, frames_start, events, stop })
}

/// Everything one decode run of a whole buffer produced in batch mode.
pub struct BatchDecode {
    /// The version bytes from the leading header.
    pub version: Vec<u8>,
    /// The offset just past the version string's NUL terminator, where
    /// frame decoding started.
    pub frames_start: usize,
    /// The aggregate grouped by kind, with rebased timestamps.
    pub log: FlightLog,
    /// Where and why frame decoding ended.
    pub stop: DecodeStop,
}

/// Decodes a whole log buffer in batch mode: parses the version header,
/// walks every frame, groups the records by kind and rebases their
/// timestamps. Fails only when the buffer holds no NUL terminator; every
/// other ending is reported in `stop`.
pub fn decode_log_batch(buf: Vec<u8>) -> (r: Result<BatchDecode, DecodeError>)
    ensures
        r matches Ok(out) ==> {
            let recs = decoded_records(buf@, out.frames_start as int);
            &&& 1 <= out.frames_start <= buf@.len()
            &&& buf@[out.frames_start - 1] == 0
            &&& out.version@ == buf@.subrange(0, out.frames_start - 1)
            &&& forall|j: int| 0 <= j < out.frames_start - 1 ==> buf@[j] != 0
            &&& out.log.imu@ == batch_kind(recs, RecordType::Imu)
            &&& out.log.baro@ == batch_kind(recs, RecordType::Baro)
            &&& out.log.flight_info@ == batch_kind(recs, RecordType::FlightInfo)
            &&& out.log.orientation_info@ == batch_kind(recs, RecordType::OrientationInfo)
            &&& out.log.filtered_data_info@ == batch_kind(recs, RecordType::FilteredDataInfo)
            &&& out.log.flight_state@ == batch_kind(recs, RecordType::FlightState)
            &&& out.log.event_info@ == batch_kind(recs, RecordType::EventInfo)
            &&& out.log.error_info@ == batch_kind(recs, RecordType::ErrorInfo)
            &&& out.log.gnss_info@ == batch_kind(recs, RecordType::GNSSInfo)
            &&& out.log.voltage_info@ == batch_kind(recs, RecordType::VoltageInfo)
            &&& out.log.first_timestamp == batch_first_timestamp(recs)
            &&& out.log.last_timestamp == batch_last_timestamp(recs)
            &&& out.stop.reason == spec_stop(buf@, out.frames_start as int).reason
            &&& out.stop.offset == spec_stop(buf@, out.frames_start as int).offset
        },
        r matches Err(e) ==> {
            &&& e == DecodeError::MissingTerminator
            &&& forall|j: int| 0 <= j < buf@.len() ==> buf@[j] != 0
        },
        r is Ok <==> exists|j: int| 0 <= j < buf@.len() && buf@[j] == 0,
{
    let (version, frames_start) = match parse_version(&buf) {
        Ok(p) => p,
        Err(e) => {
            return Err(e);
        }
    };
    let mut cur = ByteCursor::new_at(buf, frames_start);
    let (records, stop) = decode_records(&mut cur);
    let log = assemble_log(&records);
    Ok(BatchDecode { version, frames_start, log, stop })
}

impl DecodeStop {
    /// The share of a buffer of `buffer_len` bytes that lies before the
    /// stop offset, in whole (truncated) percent.
    pub fn consumed_percent(&self, buffer_len: usize) -> (p: u32)
        requires
            0 < buffer_len,
            self.offset <= buffer_len,
        ensures
            p == self.offset * 100 / buffer_len as int,
            p <= 100,
    {
        proof {
            vstd::arithmetic::div_mod::lemma_div_is_ordered(
                self.offset * 100,
                buffer_len * 100,
                buffer_len as int,
            );
            vstd::arithmetic::div_mod::lemma_div_multiples_vanish(100, buffer_len as int);
        }
        let p128 = (self.offset as u128) * 100 / (buffer_len as u128);
        p128 as u32
    }
}

} // verus!
