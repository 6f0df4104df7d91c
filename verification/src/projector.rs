//! Streaming-replay sink: per-family snapshot templates, updated in place
//! by each decoded record, with an immutable copy emitted per update.
//!
//! A template only ever changes in the fields the record touches; the rest
//! keep their last value, so an emitted snapshot may carry stale fields
//! from earlier, unrelated records. Emission order equals input order.

use vstd::prelude::*;
use crate::datatypes::{cats_flight_state_of, flight_mode_of, FlightMode, RecordType};
use crate::normalize::{batch_zero, rebased, TimestampNormalizer};
use crate::records::{OrientationData, RawRecord, RecordPayload};

verus! {

/// The vendor flight-state code narrowed for the state table: any u32
/// outside 1..=7 becomes 0, which names no state and so maps to the
/// default (calibrating, hence the idle mode).
pub open spec fn flight_state_code(state: u32) -> u8 {
    if 1 <= state <= 7 {
        state as u8
    } else {
        0
    }
}

/// Main snapshot family: the filtered flight picture.
#[derive(Clone, Copy, PartialEq, Eq, Debug)]
pub struct MainTemplate {
    pub time: u32,
    pub altitude_bits: u32,
    pub vertical_speed_bits: u32,
    pub vertical_accel_bits: u32,
    pub vertical_accel_filtered_bits: u32,
    pub orientation: Option<OrientationData>,
    pub mode: FlightMode,
}

/// Raw-sensor snapshot family: inertial sample plus barometric pressure.
#[derive(Clone, Copy, PartialEq, Eq, Structural, Debug)]
pub struct RawSensorsTemplate {
    pub time: u32,
    pub acc_x: u16,
    pub acc_y: u16,
    pub acc_z: u16,
    pub gyro_x: u16,
    pub gyro_y: u16,
    pub gyro_z: u16,
    pub pressure: u32,
}

/// Diagnostics snapshot family: temperature and battery voltage.
#[derive(Clone, Copy, PartialEq, Eq, Structural, Debug)]
pub struct DiagnosticsTemplate {
    pub time: u32,
    pub temperature: u32,
    pub battery_voltage: u16,
}

/// GPS snapshot family: position fix and satellite count.
#[derive(Clone, Copy, PartialEq, Eq, Structural, Debug)]
pub struct GpsTemplate {
    pub time: u32,
    pub latitude_bits: u32,
    pub longitude_bits: u32,
    pub fix_and_sats: u8,
}

/// One emitted telemetry snapshot, tagged by its family.
#[derive(Clone, Copy, PartialEq, Eq, Debug)]
pub enum TelemetryEvent {
    Main(MainTemplate),
    RawSensors(RawSensorsTemplate),
    Diagnostics(DiagnosticsTemplate),
    Gps(GpsTemplate),
}

/// The four mutable templates of one decode run.
#[derive(Clone, Copy, PartialEq, Eq, Debug)]
pub struct StateProjector {
    pub main: MainTemplate,
    pub raw_sensors: RawSensorsTemplate,
    pub diagnostics: DiagnosticsTemplate,
    pub gps: GpsTemplate,
}

impl StateProjector {
    /// The state every run starts from: all fields zero, no orientation,
    /// idle mode.
    pub open spec fn init_spec() -> StateProjector {
        StateProjector {
            main: MainTemplate {
                time: 0,
                altitude_bits: 0,
                vertical_speed_bits: 0,
                vertical_accel_bits: 0,
                vertical_accel_filtered_bits: 0,
                orientation: None,
                mode: FlightMode::Idle,
            },
            raw_sensors: RawSensorsTemplate {
                time: 0,
                acc_x: 0,
                acc_y: 0,
                acc_z: 0,
                gyro_x: 0,
                gyro_y: 0,
                gyro_z: 0,
                pressure: 0,
            },
            diagnostics: DiagnosticsTemplate { time: 0, temperature: 0, battery_voltage: 0 },
            gps: GpsTemplate { time: 0, latitude_bits: 0, longitude_bits: 0, fix_and_sats: 0 },
        }
    }

    /// The templates after merging one record: exactly the fields the
    /// record's kind touches change, every other field keeps its value.
    pub open spec fn step_spec(self, rec: RawRecord) -> StateProjector {
        match rec.payload {
            RecordPayload::Imu(d) => StateProjector {
                raw_sensors: RawSensorsTemplate {
                    time: rec.timestamp,
                    acc_x: d.acc_x,
                    acc_y: d.acc_y,
                    acc_z: d.acc_z,
                    gyro_x: d.gyro_x,
                    gyro_y: d.gyro_y,
                    gyro_z: d.gyro_z,
                    pressure: self.raw_sensors.pressure,
                },
                ..self
            },
            RecordPayload::Baro(d) => StateProjector {
                raw_sensors: RawSensorsTemplate {
                    time: rec.timestamp,
                    pressure: d.pressure,
                    ..self.raw_sensors
                },
                diagnostics: DiagnosticsTemplate {
                    time: rec.timestamp,
                    temperature: d.temp,
                    ..self.diagnostics
                },
                ..self
            },
            RecordPayload::FlightInfo(d) => StateProjector {
                main: MainTemplate {
                    time: rec.timestamp,
                    altitude_bits: d.height_bits,
                    vertical_speed_bits: d.velocity_bits,
                    vertical_accel_bits: d.acceleration_bits,
                    ..self.main
                },
                ..self
            },
            RecordPayload::OrientationInfo(d) => StateProjector {
                main: MainTemplate { time: rec.timestamp, orientation: Some(d), ..self.main },
                ..self
            },
            RecordPayload::FilteredDataInfo(d) => StateProjector {
                main: MainTemplate {
                    time: rec.timestamp,
                    altitude_bits: d.filtered_altitude_agl_bits,
                    vertical_accel_filtered_bits: d.filtered_acceleration_bits,
                    ..self.main
                },
                ..self
            },
            RecordPayload::FlightState(d) => StateProjector {
                main: MainTemplate {
                    time: rec.timestamp,
                    mode: flight_mode_of(cats_flight_state_of(flight_state_code(d.state))),
                    ..self.main
                },
                ..self
            },
            RecordPayload::EventInfo(_) => self,
            RecordPayload::ErrorInfo(_) => self,
            RecordPayload::GNSSInfo(d) => StateProjector {
                gps: GpsTemplate {
                    time: rec.timestamp,
                    latitude_bits: d.latitude_bits,
                    longitude_bits: d.longitude_bits,
                    fix_and_sats: d.satellites,
                },
                ..self
            },
            RecordPayload::VoltageInfo(d) => StateProjector {
                diagnostics: DiagnosticsTemplate {
                    time: rec.timestamp,
                    battery_voltage: d.voltage,
                    ..self.diagnostics
                },
                ..self
            },
        }
    }

    /// The snapshots one record emits: copies of the just-updated
    /// templates. A barometric record updates two families and emits two
    /// snapshots; event and error records are diagnostic-only and emit
    /// none.
    pub open spec fn emitted_spec(self, rec: RawRecord) -> Seq<TelemetryEvent> {
        let next = self.step_spec(rec);
        match rec.payload {
            RecordPayload::Imu(_) => seq![TelemetryEvent::RawSensors(next.raw_sensors)],
            RecordPayload::Baro(_) => seq![
                TelemetryEvent::RawSensors(next.raw_sensors),
                TelemetryEvent::Diagnostics(next.diagnostics),
            ],
            RecordPayload::FlightInfo(_) => seq![TelemetryEvent::Main(next.main)],
            RecordPayload::OrientationInfo(_) => seq![TelemetryEvent::Main(next.main)],
            RecordPayload::FilteredDataInfo(_) => seq![TelemetryEvent::Main(next.main)],
            RecordPayload::FlightState(_) => seq![TelemetryEvent::Main(next.main)],
            RecordPayload::EventInfo(_) => Seq::empty(),
            RecordPayload::ErrorInfo(_) => Seq::empty(),
            RecordPayload::GNSSInfo(_) => seq![TelemetryEvent::Gps(next.gps)],
            RecordPayload::VoltageInfo(_) => seq![TelemetryEvent::Diagnostics(next.diagnostics)],
        }
    }

    pub fn new() -> (p: StateProjector)
        ensures
            p == StateProjector::init_spec(),
    {
        StateProjector {
            main: MainTemplate {
                time: 0,
                altitude_bits: 0,
                vertical_speed_bits: 0,
                vertical_accel_bits: 0,
                vertical_accel_filtered_bits: 0,
                orientation: None,
                mode: FlightMode::Idle,
            },
            raw_sensors: RawSensorsTemplate {
                time: 0,
                acc_x: 0,
                acc_y: 0,
                acc_z: 0,
                gyro_x: 0,
                gyro_y: 0,
                gyro_z: 0,
                pressure: 0,
            },
            diagnostics: DiagnosticsTemplate { time: 0, temperature: 0, battery_voltage: 0 },
            gps: GpsTemplate { time: 0, latitude_bits: 0, longitude_bits: 0, fix_and_sats: 0 },
        }
    }

    /// Merges one record into the templates and appends the emitted
    /// snapshot copies to `out`.
    pub fn project(&mut self, rec: &RawRecord, out: &mut Vec<TelemetryEvent>)
        ensures
            *final(self) == old(self).step_spec(*rec),
            final(out)@ == old(out)@ + old(self).emitted_spec(*rec),
    {
        let ts = rec.timestamp;
        match rec.payload {
            RecordPayload::Imu(d) => {
                self.raw_sensors.time = ts;
                self.raw_sensors.acc_x = d.acc_x;
                self.raw_sensors.acc_y = d.acc_y;
                self.raw_sensors.acc_z = d.acc_z;
                self.raw_sensors.gyro_x = d.gyro_x;
                self.raw_sensors.gyro_y = d.gyro_y;
                self.raw_sensors.gyro_z = d.gyro_z;
                out.push(TelemetryEvent::RawSensors(self.raw_sensors));
            }
            RecordPayload::Baro(d) => {
                self.raw_sensors.time = ts;
                self.raw_sensors.pressure = d.pressure;
                out.push(TelemetryEvent::RawSensors(self.raw_sensors));
                self.diagnostics.time = ts;
                self.diagnostics.temperature = d.temp;
                out.push(TelemetryEvent::Diagnostics(self.diagnostics));
            }
            RecordPayload::FlightInfo(d) => {
                self.main.time = ts;
                self.main.altitude_bits = d.height_bits;
                self.main.vertical_speed_bits = d.velocity_bits;
                self.main.vertical_accel_bits = d.acceleration_bits;
                out.push(TelemetryEvent::Main(self.main));
            }
            RecordPayload::OrientationInfo(d) => {
                self.main.time = ts;
                self.main.orientation = Some(d);
                out.push(TelemetryEvent::Main(self.main));
            }
            RecordPayload::FilteredDataInfo(d) => {
                self.main.time = ts;
                self.main.altitude_bits = d.filtered_altitude_agl_bits;
                self.main.vertical_accel_filtered_bits = d.filtered_acceleration_bits;
                out.push(TelemetryEvent::Main(self.main));
            }
            RecordPayload::FlightState(d) => {
                self.main.time = ts;
                let code: u8 = if 1 <= d.state && d.state <= 7 {
                    d.state as u8
                } else {
                    0
                };
                self.main.mode = FlightMode::from(crate::datatypes::CATSFlightState::from(code));
                out.push(TelemetryEvent::Main(self.main));
            }
            RecordPayload::EventInfo(_) => {}
            RecordPayload::ErrorInfo(_) => {}
            RecordPayload::GNSSInfo(d) => {
                self.gps.time = ts;
                self.gps.latitude_bits = d.latitude_bits;
                self.gps.longitude_bits = d.longitude_bits;
                self.gps.fix_and_sats = d.satellites;
                out.push(TelemetryEvent::Gps(self.gps));
            }
            RecordPayload::VoltageInfo(d) => {
                self.diagnostics.time = ts;
                self.diagnostics.battery_voltage = d.voltage;
                out.push(TelemetryEvent::Diagnostics(self.diagnostics));
            }
        }
    }
}

/// The snapshots a whole record sequence emits, threading the template
/// state from record to record, starting from `st`.
pub open spec fn projected_events(st: StateProjector, recs: Seq<RawRecord>) -> Seq<TelemetryEvent>
    decreases recs.len(),
{
    if recs.len() == 0 {
        Seq::empty()
    } else {
        st.emitted_spec(recs[0]) + projected_events(st.step_spec(recs[0]), recs.drop_first())
    }
}

/// How many snapshots one record of `kind` emits: two for a barometric
/// record, none for event or error records, one for every other known
/// kind.
pub open spec fn event_count(kind: RecordType) -> int {
    match kind {
        RecordType::Baro => 2,
        RecordType::EventInfo => 0,
        RecordType::ErrorInfo => 0,
        RecordType::UnknownError => 0,
        _ => 1,
    }
}

/// The snapshot count a whole record sequence emits, by the per-kind
/// counts.
pub open spec fn total_event_count(recs: Seq<RawRecord>) -> int
    decreases recs.len(),
{
    if recs.len() == 0 {
        0
    } else {
        event_count(recs[0].kind()) + total_event_count(recs.drop_first())
    }
}

/// Law: however the run starts, the number of emitted snapshots equals the
/// number of decoded records weighted by kind: two per barometric record,
/// none per event or error record, one per record of every other kind.
pub proof fn lemma_projected_event_count(st: StateProjector, recs: Seq<RawRecord>)
    ensures
        projected_events(st, recs).len() == total_event_count(recs),
    decreases recs.len(),
{
    if recs.len() > 0 {
        lemma_projected_event_count(st.step_spec(recs[0]), recs.drop_first());
    }
}

/// Law: rebasing timestamps changes no record's kind, so the weighted
/// snapshot count of a record stream is unchanged by it.
pub proof fn lemma_rebased_event_count(recs: Seq<RawRecord>, zero: u32)
    ensures
        total_event_count(rebased(recs, zero)) == total_event_count(recs),
    decreases recs.len(),
{
    if recs.len() > 0 {
        lemma_rebased_event_count(recs.drop_first(), zero);
        assert(rebased(recs, zero).drop_first() =~= rebased(recs.drop_first(), zero));
    }
}

/// Feeds every record of `records`, in order, to one projector run
/// starting from the initial templates, and returns the emitted
/// snapshots. Each record's raw timestamp is rebased inline, against the
/// first record's, before it reaches a template: the zero point exists
/// from the first record on, so every emission carries whole seconds.
pub fn project_all(records: &Vec<RawRecord>) -> (events: Vec<TelemetryEvent>)
    ensures
        events@ == projected_events(
            StateProjector::init_spec(),
            rebased(records@, batch_zero(records@)),
        ),
{
    let ghost rrecs = rebased(records@, batch_zero(records@));
    let mut events: Vec<TelemetryEvent> = Vec::new();
    let mut state = StateProjector::new();
    let mut norm = TimestampNormalizer::new();
    let n: usize = records.len();
    let mut i: usize = 0;
    proof {
        assert(rrecs.skip(0) =~= rrecs);
        assert(events@ + projected_events(state, rrecs.skip(0)) =~= projected_events(
            StateProjector::init_spec(),
            rrecs,
        ));
    }
    while i < n
        invariant
            n == records@.len(),
            i <= n,
            rrecs == rebased(records@, batch_zero(records@)),
            norm.zero_spec() == (if i == 0 {
                None::<u32>
            } else {
                Some(batch_zero(records@))
            }),
            events@ + projected_events(state, rrecs.skip(i as int)) == projected_events(
                StateProjector::init_spec(),
                rrecs,
            ),
        decreases n - i,
    {
        let rec = records[i];
        let (sec, _) = norm.observe(rec.timestamp);
        let adjusted = RawRecord { timestamp: sec, sensor_id: rec.sensor_id, payload: rec.payload };
        let ghost pre_events = events@;
        let ghost pre_state = state;
        let ghost suffix = rrecs.skip(i as int);
        proof {
            assert(suffix[0] == rrecs[i as int]);
            assert(adjusted == rrecs[i as int]);
            assert(suffix.drop_first() =~= rrecs.skip(i + 1));
        }
        state.project(&adjusted, &mut events);
        proof {
            assert(events@ + projected_events(state, rrecs.skip(i + 1)) =~= pre_events
                + projected_events(pre_state, suffix));
        }
        i = i + 1;
    }
    proof {
        assert(rrecs.skip(n as int) =~= Seq::<RawRecord>::empty());
        assert(events@ =~= projected_events(StateProjector::init_spec(), rrecs));
    }
    events
}

} // verus!
