//! Record kinds, vendor flight states, and the flight-mode mapping.

use vstd::prelude::*;

verus! {

/// The closed set of record kinds a frame's tag can select.
#[derive(Clone, Copy, PartialEq, Eq, Structural, Debug)]
pub enum RecordType {
    Imu,
    Baro,
    FlightInfo,
    OrientationInfo,
    FilteredDataInfo,
    FlightState,
    EventInfo,
    ErrorInfo,
    GNSSInfo,
    VoltageInfo,
    UnknownError,
}

/// The record kind selected by the tag bits above the sensor id.
/// Each kind has exactly one fixed selector value; anything else is unknown.
pub open spec fn record_type_of(selector: u32) -> RecordType {
    if selector == 0x10 {
        RecordType::Imu
    } else if selector == 0x20 {
        RecordType::Baro
    } else if selector == 0x40 {
        RecordType::FlightInfo
    } else if selector == 0x80 {
        RecordType::OrientationInfo
    } else if selector == 0x100 {
        RecordType::FilteredDataInfo
    } else if selector == 0x200 {
        RecordType::FlightState
    } else if selector == 0x400 {
        RecordType::EventInfo
    } else if selector == 0x800 {
        RecordType::ErrorInfo
    } else if selector == 0x1000 {
        RecordType::GNSSInfo
    } else if selector == 0x2000 {
        RecordType::VoltageInfo
    } else {
        RecordType::UnknownError
    }
}

impl From<u32> for RecordType {
    /// Maps a tag's selector bits to the record kind they name.
    fn from(x: u32) -> (r: Self)
        ensures
            r == record_type_of(x),
    {
        match x {
            0x10 => RecordType::Imu,
            0x20 => RecordType::Baro,
            0x40 => RecordType::FlightInfo,
            0x80 => RecordType::OrientationInfo,
            0x100 => RecordType::FilteredDataInfo,
            0x200 => RecordType::FlightState,
            0x400 => RecordType::EventInfo,
            0x800 => RecordType::ErrorInfo,
            0x1000 => RecordType::GNSSInfo,
            0x2000 => RecordType::VoltageInfo,
            _ => RecordType::UnknownError,
        }
    }
}

impl vstd::std_specs::convert::FromSpecImpl<u32> for RecordType {
    open spec fn obeys_from_spec() -> bool {
        true
    }

    open spec fn from_spec(x: u32) -> Self {
        record_type_of(x)
    }
}

/// The low four bits of a tag: the sensor id, kept for information only.
pub open spec fn sensor_id_of(tag: u32) -> u8 {
    (tag % 16) as u8
}

/// A tag with its sensor id bits cleared: the kind selector.
pub open spec fn selector_of(tag: u32) -> u32 {
    (tag - tag % 16) as u32
}

/// Splits a 32-bit tag into its record kind and its sensor id.
pub fn classify_tag(tag: u32) -> (r: (RecordType, u8))
    ensures
        r.0 == record_type_of(selector_of(tag)),
        r.1 == sensor_id_of(tag),
{
    let sensor_id = (tag % 16) as u8;
    let selector = tag - tag % 16;
    (RecordType::from(selector), sensor_id)
}

/// The flight phases the vendor's flight computer reports, by their codes
/// 1 through 7.
#[derive(Clone, Copy, PartialEq, Eq, Structural, Debug)]
pub enum CATSFlightState {
    Calibrating,
    Ready,
    Thrust,
    Coast,
    Drogue,
    Main,
    Touchdown,
}

/// The flight state a vendor code names; codes outside 1..=7 fall back to
/// the calibration state, the recorder's default.
pub open spec fn cats_flight_state_of(x: u8) -> CATSFlightState {
    if x == 1 {
        CATSFlightState::Calibrating
    } else if x == 2 {
        CATSFlightState::Ready
    } else if x == 3 {
        CATSFlightState::Thrust
    } else if x == 4 {
        CATSFlightState::Coast
    } else if x == 5 {
        CATSFlightState::Drogue
    } else if x == 6 {
        CATSFlightState::Main
    } else if x == 7 {
        CATSFlightState::Touchdown
    } else {
        CATSFlightState::Calibrating
    }
}

impl From<u8> for CATSFlightState {
    fn from(x: u8) -> (r: Self)
        ensures
            r == cats_flight_state_of(x),
    {
        match x {
            1 => CATSFlightState::Calibrating,
            2 => CATSFlightState::Ready,
            3 => CATSFlightState::Thrust,
            4 => CATSFlightState::Coast,
            5 => CATSFlightState::Drogue,
            6 => CATSFlightState::Main,
            7 => CATSFlightState::Touchdown,
            _ => CATSFlightState::Calibrating,
        }
    }
}

impl vstd::std_specs::convert::FromSpecImpl<u8> for CATSFlightState {
    open spec fn obeys_from_spec() -> bool {
        true
    }

    open spec fn from_spec(x: u8) -> Self {
        cats_flight_state_of(x)
    }
}

/// The telemetry flight modes emitted downstream, one per vendor flight
/// state.
#[derive(Clone, Copy, PartialEq, Eq, Structural, Debug)]
pub enum FlightMode {
    Idle,
    Armed,
    Burn,
    Coast,
    RecoveryDrogue,
    RecoveryMain,
    Landed,
}

/// The fixed mapping from a vendor flight state to the emitted flight mode.
pub open spec fn flight_mode_of(x: CATSFlightState) -> FlightMode {
    match x {
        CATSFlightState::Calibrating => FlightMode::Idle,
        CATSFlightState::Ready => FlightMode::Armed,
        CATSFlightState::Thrust => FlightMode::Burn,
        CATSFlightState::Coast => FlightMode::Coast,
        CATSFlightState::Drogue => FlightMode::RecoveryDrogue,
        CATSFlightState::Main => FlightMode::RecoveryMain,
        CATSFlightState::Touchdown => FlightMode::Landed,
    }
}

impl From<CATSFlightState> for FlightMode {
    fn from(x: CATSFlightState) -> (r: Self)
        ensures
            r == flight_mode_of(x),
    {
        match x {
            CATSFlightState::Calibrating => FlightMode::Idle,
            CATSFlightState::Ready => FlightMode::Armed,
            CATSFlightState::Thrust => FlightMode::Burn,
            CATSFlightState::Coast => FlightMode::Coast,
            CATSFlightState::Drogue => FlightMode::RecoveryDrogue,
            CATSFlightState::Main => FlightMode::RecoveryMain,
            CATSFlightState::Touchdown => FlightMode::Landed,
        }
    }
}

impl vstd::std_specs::convert::FromSpecImpl<CATSFlightState> for FlightMode {
    open spec fn obeys_from_spec() -> bool {
        true
    }

    open spec fn from_spec(x: CATSFlightState) -> Self {
        flight_mode_of(x)
    }
}

} // verus!
