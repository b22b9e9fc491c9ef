//! Sensor presets (report `0xB5`).

use vstd::prelude::*;
use crate::checksum::{frame_valid, FRAME_HEADER, FRAME_LEN};
use crate::error::{message, MadRError};
use crate::frame::{query_frame, query_of, write_frame, write_of, READ_FAMILY};
use crate::text::text_eq;

verus! {

/// Report id of the sensor preset.
pub const SENSOR_REPORT: u8 = 0xB5;

/// Length byte of the sensor query.
pub const SENSOR_QUERY_LEN: u8 = 0x06;

/// Fixed values of the two fields before the preset.
pub const SENSOR_LEAD: u8 = 0x00;

pub const SENSOR_MARKER: u8 = 0x06;

#[derive(Debug, Clone, Copy, PartialEq, Eq, Default, Structural)]
pub enum SensorMode {
    #[default]
    Basic,
    Competitive,
    Max,
}

pub open spec fn mode_index(m: SensorMode) -> u8 {
    match m {
        SensorMode::Basic => 0,
        SensorMode::Competitive => 1,
        SensorMode::Max => 2,
    }
}

pub open spec fn mode_of_index(b: u8) -> Option<SensorMode> {
    if b == 0 {
        Some(SensorMode::Basic)
    } else if b == 1 {
        Some(SensorMode::Competitive)
    } else if b == 2 {
        Some(SensorMode::Max)
    } else {
        None
    }
}

pub open spec fn mode_name(m: SensorMode) -> Seq<char> {
    match m {
        SensorMode::Basic => "basic"@,
        SensorMode::Competitive => "competitive"@,
        SensorMode::Max => "max"@,
    }
}

/// The preset whose lower-case name is `t`.
pub open spec fn mode_of_name(t: Seq<char>) -> Option<SensorMode> {
    if t == "basic"@ {
        Some(SensorMode::Basic)
    } else if t == "competitive"@ {
        Some(SensorMode::Competitive)
    } else if t == "max"@ {
        Some(SensorMode::Max)
    } else {
        None
    }
}

/// What `str::to_lowercase` gives for some text.
pub uninterp spec fn lower_of(s: Seq<char>) -> Seq<char>;

/// Relies on `str::to_lowercase`: the result depends on the characters alone.
#[verifier::external_body]
fn lowercase(s: &str) -> (r: String)
    ensures
        r@ == lower_of(s@),
{
    s.to_lowercase()
}

impl SensorMode {
    pub fn index(&self) -> (r: u8)
        ensures
            r == mode_index(*self),
    {
        match self {
            SensorMode::Basic => 0,
            SensorMode::Competitive => 1,
            SensorMode::Max => 2,
        }
    }

    /// The preset of an index byte (0, 1 or 2).
    pub fn try_from(value: u8) -> (r: Result<SensorMode, MadRError>)
        ensures
            mode_of_index(value) matches Some(m) ==> r == Ok::<SensorMode, MadRError>(m),
            mode_of_index(value) is None ==> (r matches Err(MadRError::InvalidSensorSetting(_))),
    {
        match value {
            0 => Ok(SensorMode::Basic),
            1 => Ok(SensorMode::Competitive),
            2 => Ok(SensorMode::Max),
            _ => Err(MadRError::InvalidSensorSetting(message("Sensor preset index must be 0, 1 or 2"))),
        }
    }

    /// The lower-case name of the preset.
    pub fn to_string(&self) -> (r: String)
        ensures
            r@ == mode_name(*self),
    {
        match self {
            SensorMode::Basic => message("basic"),
            SensorMode::Competitive => message("competitive"),
            SensorMode::Max => message("max"),
        }
    }

    /// The preset named by text that is already in lower case.
    pub fn from_folded(folded: &str) -> (r: Option<SensorMode>)
        ensures
            r == mode_of_name(folded@),
    {
        if text_eq(folded, "basic") {
            Some(SensorMode::Basic)
        } else if text_eq(folded, "competitive") {
            Some(SensorMode::Competitive)
        } else if text_eq(folded, "max") {
            Some(SensorMode::Max)
        } else {
            None
        }
    }

    /// The preset named by `s`, in any case.
    pub fn from_str(s: &str) -> (r: Result<SensorMode, MadRError>)
        ensures
            mode_of_name(lower_of(s@)) matches Some(m) ==> r == Ok::<SensorMode, MadRError>(m),
            mode_of_name(lower_of(s@)) is None ==> (r matches Err(
                MadRError::InvalidSensorSetting(t),
            ) && t@ == s@),
    {
        let folded = lowercase(s);
        match SensorMode::from_folded(folded.as_str()) {
            Some(m) => Ok(m),
            None => Err(MadRError::InvalidSensorSetting(s.to_owned())),
        }
    }
}

/// The sensor configuration reported by the device.
#[derive(Debug, Clone, Copy, PartialEq, Eq, Structural)]
pub struct Sensor {
    pub mode: SensorMode,
}

/// What a sensor response holds: a full frame with header `08 08` and a
/// known preset at byte 10.
pub open spec fn sensor_of(data: Seq<u8>) -> Option<Sensor> {
    if data.len() >= FRAME_LEN && data[0] == FRAME_HEADER && data[1] == READ_FAMILY
        && mode_of_index(data[10]) is Some {
        Some(Sensor { mode: mode_of_index(data[10])->0 })
    } else {
        None
    }
}

impl Sensor {
    pub fn mode(&self) -> (r: SensorMode)
        ensures
            r == self.mode,
    {
        self.mode
    }

    /// Decodes a sensor response.
    pub fn parse_report(data: &[u8]) -> (r: Result<Sensor, MadRError>)
        ensures
            sensor_of(data@) matches Some(s) ==> r == Ok::<Sensor, MadRError>(s),
            sensor_of(data@) is None ==> r == Err::<Sensor, MadRError>(
                MadRError::InvalidSensorFormat,
            ),
    {
        if data.len() < FRAME_LEN || data[0] != FRAME_HEADER || data[1] != READ_FAMILY {
            return Err(MadRError::InvalidSensorFormat);
        }
        match SensorMode::try_from(data[10]) {
            Ok(mode) => Ok(Sensor { mode }),
            Err(_) => Err(MadRError::InvalidSensorFormat),
        }
    }
}

/// The query that reads the sensor preset.
pub fn sensor_query() -> (r: Vec<u8>)
    ensures
        r@ == query_of(READ_FAMILY, SENSOR_REPORT, SENSOR_QUERY_LEN),
        frame_valid(r@),
{
    query_frame(READ_FAMILY, SENSOR_REPORT, SENSOR_QUERY_LEN)
}

pub open spec fn sensor_frame(setting: u8) -> Seq<u8> {
    write_of(SENSOR_REPORT, seq![SENSOR_LEAD, SENSOR_MARKER, setting])
}

/// The frame that selects the preset with index `sensor_setting`.
pub fn get_magic_packet(sensor_setting: u8) -> (r: Vec<u8>)
    requires
        mode_of_index(sensor_setting) is Some,
    ensures
        r@ == sensor_frame(sensor_setting),
        frame_valid(r@),
{
    let values = [SENSOR_LEAD, SENSOR_MARKER, sensor_setting];
    proof {
        assert(values@ =~= seq![SENSOR_LEAD, SENSOR_MARKER, sensor_setting]);
    }
    write_frame(SENSOR_REPORT, &values)
}

/// The frame that selects `sensor_mode`.
pub fn get_magic_report(sensor_mode: SensorMode) -> (r: Vec<u8>)
    ensures
        r@ == sensor_frame(mode_index(sensor_mode)),
        frame_valid(r@),
{
    get_magic_packet(sensor_mode.index())
}

} // verus!
