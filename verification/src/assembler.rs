//! Batch sink: groups decoded records by kind, preserving arrival order,
//! then rebases every stored timestamp in a post-pass.

use vstd::prelude::*;
use crate::datatypes::RecordType;
use crate::normalize::{batch_zero, normalized_sec, rebased};
use crate::records::RawRecord;

verus! {

/// The records of `recs` whose payload is of `kind`, in arrival order.
pub open spec fn of_kind(recs: Seq<RawRecord>, kind: RecordType) -> Seq<RawRecord>
    decreases recs.len(),
{
    if recs.len() == 0 {
        Seq::empty()
    } else if recs[0].kind() == kind {
        seq![recs[0]] + of_kind(recs.drop_first(), kind)
    } else {
        of_kind(recs.drop_first(), kind)
    }
}

/// The smaller of two raw timestamps.
pub open spec fn ts_min(a: u32, b: u32) -> u32 {
    if a <= b {
        a
    } else {
        b
    }
}

/// The larger of two raw timestamps.
pub open spec fn ts_max(a: u32, b: u32) -> u32 {
    if a >= b {
        a
    } else {
        b
    }
}

/// The smallest raw timestamp of `recs`; the empty sequence gives the
/// neutral element.
pub open spec fn min_raw_ts(recs: Seq<RawRecord>) -> u32
    decreases recs.len(),
{
    if recs.len() == 0 {
        u32::MAX
    } else {
        ts_min(recs[0].timestamp, min_raw_ts(recs.drop_first()))
    }
}

/// The largest raw timestamp of `recs`; the empty sequence gives the
/// neutral element.
pub open spec fn max_raw_ts(recs: Seq<RawRecord>) -> u32
    decreases recs.len(),
{
    if recs.len() == 0 {
        0
    } else {
        ts_max(recs[0].timestamp, max_raw_ts(recs.drop_first()))
    }
}

/// The aggregate's lower timestamp bound: the smallest raw timestamp of
/// the stream, before rebasing, in whole seconds.
pub open spec fn batch_first_timestamp(recs: Seq<RawRecord>) -> u32 {
    if recs.len() == 0 {
        0
    } else {
        (min_raw_ts(recs) / 1000) as u32
    }
}

/// The aggregate's upper timestamp bound: the largest raw timestamp of
/// the stream, before rebasing, in whole seconds.
pub open spec fn batch_last_timestamp(recs: Seq<RawRecord>) -> u32 {
    if recs.len() == 0 {
        0
    } else {
        (max_raw_ts(recs) / 1000) as u32
    }
}

/// The per-kind group a finished batch holds: the records of that kind in
/// arrival order, rebased against the stream's first raw timestamp.
pub open spec fn batch_kind(recs: Seq<RawRecord>, kind: RecordType) -> Seq<RawRecord> {
    rebased(of_kind(recs, kind), batch_zero(recs))
}

/// The batch aggregate: one ordered record group per kind, with the
/// stream's timestamp bounds in seconds. Every stored record's timestamp
/// has been rebased to the stream's zero point.
pub struct FlightLog {
    pub imu: Vec<RawRecord>,
    pub baro: Vec<RawRecord>,
    pub flight_info: Vec<RawRecord>,
    pub orientation_info: Vec<RawRecord>,
    pub filtered_data_info: Vec<RawRecord>,
    pub flight_state: Vec<RawRecord>,
    pub event_info: Vec<RawRecord>,
    pub error_info: Vec<RawRecord>,
    pub gnss_info: Vec<RawRecord>,
    pub voltage_info: Vec<RawRecord>,
    pub first_timestamp: u32,
    pub last_timestamp: u32,
}

/// Rebases every record of `v` against `zero`, keeping order and every
/// other field.
fn rebase_records(v: Vec<RawRecord>, zero: u32) -> (r: Vec<RawRecord>)
    ensures
        r@ == rebased(v@, zero),
{
    let mut out: Vec<RawRecord> = Vec::new();
    let n: usize = v.len();
    let mut i: usize = 0;
    while i < n
        invariant
            n == v@.len(),
            i <= n,
            out@.len() == i,
            forall|k: int|
                0 <= k < i ==> out@[k] == (RawRecord {
                    timestamp: normalized_sec(zero, v@[k].timestamp),
                    ..v@[k]
                }),
        decreases n - i,
    {
        let rec = v[i];
        let ts = rec.timestamp;
        let sec = if ts >= zero {
            (ts - zero) / 1000
        } else {
            0
        };
        out.push(RawRecord { timestamp: sec, sensor_id: rec.sensor_id, payload: rec.payload });
        i = i + 1;
    }
    proof {
        assert(out@ =~= rebased(v@, zero));
    }
    out
}

/// Groups a decoded record stream by kind, preserving arrival order, then
/// rebases every stored timestamp against the stream's first raw
/// timestamp and records the stream's bounds in seconds.
pub fn assemble_log(records: &Vec<RawRecord>) -> (log: FlightLog)
    ensures
        log.imu@ == batch_kind(records@, RecordType::Imu),
        log.baro@ == batch_kind(records@, RecordType::Baro),
        log.flight_info@ == batch_kind(records@, RecordType::FlightInfo),
        log.orientation_info@ == batch_kind(records@, RecordType::OrientationInfo),
        log.filtered_data_info@ == batch_kind(records@, RecordType::FilteredDataInfo),
        log.flight_state@ == batch_kind(records@, RecordType::FlightState),
        log.event_info@ == batch_kind(records@, RecordType::EventInfo),
        log.error_info@ == batch_kind(records@, RecordType::ErrorInfo),
        log.gnss_info@ == batch_kind(records@, RecordType::GNSSInfo),
        log.voltage_info@ == batch_kind(records@, RecordType::VoltageInfo),
        log.first_timestamp == batch_first_timestamp(records@),
        log.last_timestamp == batch_last_timestamp(records@),
{
    let mut imu: Vec<RawRecord> = Vec::new();
    let mut baro: Vec<RawRecord> = Vec::new();
    let mut flight_info: Vec<RawRecord> = Vec::new();
    let mut orientation_info: Vec<RawRecord> = Vec::new();
    let mut filtered_data_info: Vec<RawRecord> = Vec::new();
    let mut flight_state: Vec<RawRecord> = Vec::new();
    let mut event_info: Vec<RawRecord> = Vec::new();
    let mut error_info: Vec<RawRecord> = Vec::new();
    let mut gnss_info: Vec<RawRecord> = Vec::new();
    let mut voltage_info: Vec<RawRecord> = Vec::new();
    let mut min_raw: u32 = u32::MAX;
    let mut max_raw: u32 = 0;
    let n: usize = records.len();
    let mut i: usize = 0;
    proof {
        assert(records@.skip(0) =~= records@);
    }
    while i < n
        invariant
            n == records@.len(),
            i <= n,
            of_kind(records@, RecordType::Imu) == imu@ + of_kind(
                records@.skip(i as int),
                RecordType::Imu,
            ),
            of_kind(records@, RecordType::Baro) == baro@ + of_kind(
                records@.skip(i as int),
                RecordType::Baro,
            ),
            of_kind(records@, RecordType::FlightInfo) == flight_info@ + of_kind(
                records@.skip(i as int),
                RecordType::FlightInfo,
            ),
            of_kind(records@, RecordType::OrientationInfo) == orientation_info@ + of_kind(
                records@.skip(i as int),
                RecordType::OrientationInfo,
            ),
            of_kind(records@, RecordType::FilteredDataInfo) == filtered_data_info@ + of_kind(
                records@.skip(i as int),
                RecordType::FilteredDataInfo,
            ),
            of_kind(records@, RecordType::FlightState) == flight_state@ + of_kind(
                records@.skip(i as int),
                RecordType::FlightState,
            ),
            of_kind(records@, RecordType::EventInfo) == event_info@ + of_kind(
                records@.skip(i as int),
                RecordType::EventInfo,
            ),
            of_kind(records@, RecordType::ErrorInfo) == error_info@ + of_kind(
                records@.skip(i as int),
                RecordType::ErrorInfo,
            ),
            of_kind(records@, RecordType::GNSSInfo) == gnss_info@ + of_kind(
                records@.skip(i as int),
                RecordType::GNSSInfo,
            ),
            of_kind(records@, RecordType::VoltageInfo) == voltage_info@ + of_kind(
                records@.skip(i as int),
                RecordType::VoltageInfo,
            ),
            min_raw_ts(records@) == ts_min(min_raw, min_raw_ts(records@.skip(i as int))),
            max_raw_ts(records@) == ts_max(max_raw, max_raw_ts(records@.skip(i as int))),
        decreases n - i,
    {
        let ghost suffix = records@.skip(i as int);
        let rec = records[i];
        proof {
            assert(suffix[0] == records@[i as int]);
            assert(suffix.drop_first() =~= records@.skip(i + 1));
        }
        match rec.payload {
            crate::records::RecordPayload::Imu(_) => {
                let ghost pre = imu@;
                imu.push(rec);
                proof {
                    assert(imu@ + of_kind(records@.skip(i + 1), RecordType::Imu) =~= pre + of_kind(
                        suffix,
                        RecordType::Imu,
                    ));
                }
            }
            crate::records::RecordPayload::Baro(_) => {
                let ghost pre = baro@;
                baro.push(rec);
                proof {
                    assert(baro@ + of_kind(records@.skip(i + 1), RecordType::Baro) =~= pre
                        + of_kind(suffix, RecordType::Baro));
                }
            }
            crate::records::RecordPayload::FlightInfo(_) => {
                let ghost pre = flight_info@;
                flight_info.push(rec);
                proof {
                    assert(flight_info@ + of_kind(records@.skip(i + 1), RecordType::FlightInfo)
                        =~= pre + of_kind(suffix, RecordType::FlightInfo));
                }
            }
            crate::records::RecordPayload::OrientationInfo(_) => {
                let ghost pre = orientation_info@;
                orientation_info.push(rec);
                proof {
                    assert(orientation_info@ + of_kind(
                        records@.skip(i + 1),
                        RecordType::OrientationInfo,
                    ) =~= pre + of_kind(suffix, RecordType::OrientationInfo));
                }
            }
            crate::records::RecordPayload::FilteredDataInfo(_) => {
                let ghost pre = filtered_data_info@;
                filtered_data_info.push(rec);
                proof {
                    assert(filtered_data_info@ + of_kind(
                        records@.skip(i + 1),
                        RecordType::FilteredDataInfo,
                    ) =~= pre + of_kind(suffix, RecordType::FilteredDataInfo));
                }
            }
            crate::records::RecordPayload::FlightState(_) => {
                let ghost pre = flight_state@;
                flight_state.push(rec);
                proof {
                    assert(flight_state@ + of_kind(records@.skip(i + 1), RecordType::FlightState)
                        =~= pre + of_kind(suffix, RecordType::FlightState));
                }
            }
            crate::records::RecordPayload::EventInfo(_) => {
                let ghost pre = event_info@;
                event_info.push(rec);
                proof {
                    assert(event_info@ + of_kind(records@.skip(i + 1), RecordType::EventInfo)
                        =~= pre + of_kind(suffix, RecordType::EventInfo));
                }
            }
            crate::records::RecordPayload::ErrorInfo(_) => {
                let ghost pre = error_info@;
                error_info.push(rec);
                proof {
                    assert(error_info@ + of_kind(records@.skip(i + 1), RecordType::ErrorInfo)
                        =~= pre + of_kind(suffix, RecordType::ErrorInfo));
                }
            }
            crate::records::RecordPayload::GNSSInfo(_) => {
                let ghost pre = gnss_info@;
                gnss_info.push(rec);
                proof {
                    assert(gnss_info@ + of_kind(records@.skip(i + 1), RecordType::GNSSInfo) =~= pre
                        + of_kind(suffix, RecordType::GNSSInfo));
                }
            }
            crate::records::RecordPayload::VoltageInfo(_) => {
                let ghost pre = voltage_info@;
                voltage_info.push(rec);
                proof {
                    assert(voltage_info@ + of_kind(records@.skip(i + 1), RecordType::VoltageInfo)
                        =~= pre + of_kind(suffix, RecordType::VoltageInfo));
                }
            }
        }
        if rec.timestamp < min_raw {
            min_raw = rec.timestamp;
        }
        if rec.timestamp > max_raw {
            max_raw = rec.timestamp;
        }
        i = i + 1;
    }
    proof {
        assert(records@.skip(n as int) =~= Seq::<RawRecord>::empty());
        assert(of_kind(records@, RecordType::Imu) =~= imu@);
        assert(of_kind(records@, RecordType::Baro) =~= baro@);
        assert(of_kind(records@, RecordType::FlightInfo) =~= flight_info@);
        assert(of_kind(records@, RecordType::OrientationInfo) =~= orientation_info@);
        assert(of_kind(records@, RecordType::FilteredDataInfo) =~= filtered_data_info@);
        assert(of_kind(records@, RecordType::FlightState) =~= flight_state@);
        assert(of_kind(records@, RecordType::EventInfo) =~= event_info@);
        assert(of_kind(records@, RecordType::ErrorInfo) =~= error_info@);
        assert(of_kind(records@, RecordType::GNSSInfo) =~= gnss_info@);
        assert(of_kind(records@, RecordType::VoltageInfo) =~= voltage_info@);
    }
    let zero = if records.len() > 0 {
        records[0].timestamp
    } else {
        0
    };
    let first_timestamp = if records.len() > 0 {
        min_raw / 1000
    } else {
        0
    };
    let last_timestamp = if records.len() > 0 {
        max_raw / 1000
    } else {
        0
    };
    FlightLog {
        imu: rebase_records(imu, zero),
        baro: rebase_records(baro, zero),
        flight_info: rebase_records(flight_info, zero),
        orientation_info: rebase_records(orientation_info, zero),
        filtered_data_info: rebase_records(filtered_data_info, zero),
        flight_state: rebase_records(flight_state, zero),
        event_info: rebase_records(event_info, zero),
        error_info: rebase_records(error_info, zero),
        gnss_info: rebase_records(gnss_info, zero),
        voltage_info: rebase_records(voltage_info, zero),
        first_timestamp,
        last_timestamp,
    }
}

} // verus!
