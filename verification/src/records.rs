//! Decoded record values and the fixed-width decode routine per kind.
//!
//! All fields are kept exactly as the file stores them: integers stay raw
//! (their scale divisors are documented next to each field), and quantities
//! stored as IEEE-754 `f32` are carried as 32-bit patterns in fields named
//! `*_bits`.

use vstd::prelude::*;
use crate::cursor::{le16, le32, ByteCursor, DecodeError};
use crate::datatypes::RecordType;

verus! {

/// Inertial sample. Accelerations scale by 1024/9.81, rates by 14.28.
#[derive(Clone, Copy, PartialEq, Eq, Structural, Debug)]
pub struct ImuData {
    pub acc_x: u16,
    pub acc_y: u16,
    pub acc_z: u16,
    pub gyro_x: u16,
    pub gyro_y: u16,
    pub gyro_z: u16,
}

/// Barometric sample. Pressure is raw; temperature scales by 100.
#[derive(Clone, Copy, PartialEq, Eq, Structural, Debug)]
pub struct BaroData {
    pub pressure: u32,
    pub temp: u32,
}

/// Estimated height, velocity and acceleration, each an `f32` bit pattern.
#[derive(Clone, Copy, PartialEq, Eq, Structural, Debug)]
pub struct FlightInfoData {
    pub height_bits: u32,
    pub velocity_bits: u32,
    pub acceleration_bits: u32,
}

/// Orientation quaternion components, each scaling by 1000.
#[derive(Clone, Copy, PartialEq, Eq, Structural, Debug)]
pub struct OrientationData {
    pub q0: u16,
    pub q1: u16,
    pub q2: u16,
    pub q3: u16,
}

/// Filtered altitude and acceleration, each an `f32` bit pattern.
#[derive(Clone, Copy, PartialEq, Eq, Structural, Debug)]
pub struct FilteredDataInfoData {
    pub filtered_altitude_agl_bits: u32,
    pub filtered_acceleration_bits: u32,
}

/// Vendor flight-state code.
#[derive(Clone, Copy, PartialEq, Eq, Structural, Debug)]
pub struct FlightStateData {
    pub state: u32,
}

/// Vendor event code with its action and argument.
#[derive(Clone, Copy, PartialEq, Eq, Structural, Debug)]
pub struct EventInfoData {
    pub event: u32,
    pub action: u16,
    pub argument: u16,
}

/// Vendor error code.
#[derive(Clone, Copy, PartialEq, Eq, Structural, Debug)]
pub struct ErrorInfoData {
    pub error: u32,
}

/// Position fix: latitude and longitude as `f32` bit patterns, plus the
/// satellite count.
#[derive(Clone, Copy, PartialEq, Eq, Structural, Debug)]
pub struct GnssData {
    pub latitude_bits: u32,
    pub longitude_bits: u32,
    pub satellites: u8,
}

/// Battery voltage, scaling by 1000.
#[derive(Clone, Copy, PartialEq, Eq, Structural, Debug)]
pub struct VoltageData {
    pub voltage: u16,
}

/// The kind-specific payload of one decoded frame.
#[derive(Clone, Copy, PartialEq, Eq, Structural, Debug)]
pub enum RecordPayload {
    Imu(ImuData),
    Baro(BaroData),
    FlightInfo(FlightInfoData),
    OrientationInfo(OrientationData),
    FilteredDataInfo(FilteredDataInfoData),
    FlightState(FlightStateData),
    EventInfo(EventInfoData),
    ErrorInfo(ErrorInfoData),
    GNSSInfo(GnssData),
    VoltageInfo(VoltageData),
}

/// One decoded frame: its raw device timestamp in milliseconds, the sensor
/// id from the tag's low bits, and the kind-specific payload.
#[derive(Clone, Copy, PartialEq, Eq, Structural, Debug)]
pub struct RawRecord {
    pub timestamp: u32,
    pub sensor_id: u8,
    pub payload: RecordPayload,
}

impl RecordPayload {
    /// The kind this payload belongs to.
    pub open spec fn kind(self) -> RecordType {
        match self {
            RecordPayload::Imu(_) => RecordType::Imu,
            RecordPayload::Baro(_) => RecordType::Baro,
            RecordPayload::FlightInfo(_) => RecordType::FlightInfo,
            RecordPayload::OrientationInfo(_) => RecordType::OrientationInfo,
            RecordPayload::FilteredDataInfo(_) => RecordType::FilteredDataInfo,
            RecordPayload::FlightState(_) => RecordType::FlightState,
            RecordPayload::EventInfo(_) => RecordType::EventInfo,
            RecordPayload::ErrorInfo(_) => RecordType::ErrorInfo,
            RecordPayload::GNSSInfo(_) => RecordType::GNSSInfo,
            RecordPayload::VoltageInfo(_) => RecordType::VoltageInfo,
        }
    }
}

impl RawRecord {
    /// The kind of this record's payload.
    pub open spec fn kind(self) -> RecordType {
        self.payload.kind()
    }
}

/// The declared payload width of each kind, in bytes. The unknown kind has
/// no payload: decoding stops at its header.
pub open spec fn payload_width(kind: RecordType) -> int {
    match kind {
        RecordType::Imu => 12,
        RecordType::Baro => 8,
        RecordType::FlightInfo => 12,
        RecordType::OrientationInfo => 8,
        RecordType::FilteredDataInfo => 8,
        RecordType::FlightState => 4,
        RecordType::EventInfo => 8,
        RecordType::ErrorInfo => 4,
        RecordType::GNSSInfo => 9,
        RecordType::VoltageInfo => 2,
        RecordType::UnknownError => 0,
    }
}

/// The declared payload width of `kind`, as a run-time value.
pub fn payload_width_of(kind: RecordType) -> (w: usize)
    ensures
        w == payload_width(kind),
{
    match kind {
        RecordType::Imu => 12,
        RecordType::Baro => 8,
        RecordType::FlightInfo => 12,
        RecordType::OrientationInfo => 8,
        RecordType::FilteredDataInfo => 8,
        RecordType::FlightState => 4,
        RecordType::EventInfo => 8,
        RecordType::ErrorInfo => 4,
        RecordType::GNSSInfo => 9,
        RecordType::VoltageInfo => 2,
        RecordType::UnknownError => 0,
    }
}

/// The payload value that decoding `kind` at byte offset `i` of `s` yields.
pub open spec fn decoded_payload(kind: RecordType, s: Seq<u8>, i: int) -> RecordPayload {
    match kind {
        RecordType::Imu => RecordPayload::Imu(
            ImuData {
                acc_x: le16(s, i),
                acc_y: le16(s, i + 2),
                acc_z: le16(s, i + 4),
                gyro_x: le16(s, i + 6),
                gyro_y: le16(s, i + 8),
                gyro_z: le16(s, i + 10),
            },
        ),
        RecordType::Baro => RecordPayload::Baro(
            BaroData { pressure: le32(s, i), temp: le32(s, i + 4) },
        ),
        RecordType::FlightInfo => RecordPayload::FlightInfo(
            FlightInfoData {
                height_bits: le32(s, i),
                velocity_bits: le32(s, i + 4),
                acceleration_bits: le32(s, i + 8),
            },
        ),
        RecordType::OrientationInfo => RecordPayload::OrientationInfo(
            OrientationData {
                q0: le16(s, i),
                q1: le16(s, i + 2),
                q2: le16(s, i + 4),
                q3: le16(s, i + 6),
            },
        ),
        RecordType::FilteredDataInfo => RecordPayload::FilteredDataInfo(
            FilteredDataInfoData {
                filtered_altitude_agl_bits: le32(s, i),
                filtered_acceleration_bits: le32(s, i + 4),
            },
        ),
        RecordType::FlightState => RecordPayload::FlightState(
            FlightStateData { state: le32(s, i) },
        ),
        RecordType::EventInfo => RecordPayload::EventInfo(
            EventInfoData { event: le32(s, i), action: le16(s, i + 4), argument: le16(s, i + 6) },
        ),
        RecordType::ErrorInfo => RecordPayload::ErrorInfo(
            ErrorInfoData { error: le32(s, i) },
        ),
        RecordType::GNSSInfo => RecordPayload::GNSSInfo(
            GnssData {
                latitude_bits: le32(s, i),
                longitude_bits: le32(s, i + 4),
                satellites: s[i + 8],
            },
        ),
        RecordType::VoltageInfo => RecordPayload::VoltageInfo(
            VoltageData { voltage: le16(s, i) },
        ),
        // Never decoded: the frame walk stops at an unknown selector.
        RecordType::UnknownError => RecordPayload::ErrorInfo(ErrorInfoData { error: 0 }),
    }
}

/// Decodes the payload of `kind` at the cursor. On success the cursor
/// advances by exactly the declared width of `kind`; with fewer bytes left
/// than that width, nothing is consumed and the frame fails with
/// `BufferTooShort`.
pub fn decode_payload(kind: RecordType, cur: &mut ByteCursor) -> (r: Result<
    RecordPayload,
    DecodeError,
>)
    requires
        old(cur).wf(),
        !(kind is UnknownError),
    ensures
        final(cur).bytes() == old(cur).bytes(),
        final(cur).wf(),
        old(cur).remaining_spec() >= payload_width(kind) ==> {
            &&& r matches Ok(p) && p == decoded_payload(kind, old(cur).bytes(), old(cur).pos())
            &&& final(cur).pos() == old(cur).pos() + payload_width(kind)
        },
        old(cur).remaining_spec() < payload_width(kind) ==> {
            &&& r matches Err(e) && e == DecodeError::BufferTooShort
            &&& final(cur).pos() == old(cur).pos()
        },
{
    let width = payload_width_of(kind);
    if cur.remaining() < width {
        return Err(DecodeError::BufferTooShort);
    }
    match kind {
        RecordType::Imu => {
            let acc_x = cur.read_u16()?;
            let acc_y = cur.read_u16()?;
            let acc_z = cur.read_u16()?;
            let gyro_x = cur.read_u16()?;
            let gyro_y = cur.read_u16()?;
            let gyro_z = cur.read_u16()?;
            Ok(RecordPayload::Imu(ImuData { acc_x, acc_y, acc_z, gyro_x, gyro_y, gyro_z }))
        }
        RecordType::Baro => {
            let pressure = cur.read_u32()?;
            let temp = cur.read_u32()?;
            Ok(RecordPayload::Baro(BaroData { pressure, temp }))
        }
        RecordType::FlightInfo => {
            let height_bits = cur.read_f32_bits()?;
            let velocity_bits = cur.read_f32_bits()?;
            let acceleration_bits = cur.read_f32_bits()?;
            Ok(RecordPayload::FlightInfo(
                FlightInfoData { height_bits, velocity_bits, acceleration_bits },
            ))
        }
        RecordType::OrientationInfo => {
            let q0 = cur.read_u16()?;
            let q1 = cur.read_u16()?;
            let q2 = cur.read_u16()?;
            let q3 = cur.read_u16()?;
            Ok(RecordPayload::OrientationInfo(OrientationData { q0, q1, q2, q3 }))
        }
        RecordType::FilteredDataInfo => {
            let filtered_altitude_agl_bits = cur.read_f32_bits()?;
            let filtered_acceleration_bits = cur.read_f32_bits()?;
            Ok(RecordPayload::FilteredDataInfo(
                FilteredDataInfoData { filtered_altitude_agl_bits, filtered_acceleration_bits },
            ))
        }
        RecordType::FlightState => {
            let state = cur.read_u32()?;
            Ok(RecordPayload::FlightState(FlightStateData { state }))
        }
        RecordType::EventInfo => {
            let event = cur.read_u32()?;
            let action = cur.read_u16()?;
            let argument = cur.read_u16()?;
            Ok(RecordPayload::EventInfo(EventInfoData { event, action, argument }))
        }
        RecordType::ErrorInfo => {
            let error = cur.read_u32()?;
            Ok(RecordPayload::ErrorInfo(ErrorInfoData { error }))
        }
        RecordType::GNSSInfo => {
            let latitude_bits = cur.read_f32_bits()?;
            let longitude_bits = cur.read_f32_bits()?;
            let satellites = cur.read_u8()?;
            Ok(RecordPayload::GNSSInfo(GnssData { latitude_bits, longitude_bits, satellites }))
        }
        RecordType::VoltageInfo => {
            let voltage = cur.read_u16()?;
            Ok(RecordPayload::VoltageInfo(VoltageData { voltage }))
        }
        RecordType::UnknownError => Err(DecodeError::BufferTooShort),
    }
}

} // verus!
