//! Battery status, read with a query of family `0x04`.

use vstd::prelude::*;
use crate::checksum::{frame_valid, FRAME_HEADER, FRAME_LEN};
use crate::error::MadRError;
use crate::frame::{query_frame, query_of};

verus! {

/// Family byte of the battery query and of its response.
pub const BATTERY_FAMILY: u8 = 0x04;

#[derive(Debug, Clone, Copy, PartialEq, Eq, Structural)]
pub struct Battery {
    pub percentage: u8,
    pub voltage_mv: u16,
    pub is_charging: bool,
}

/// What a battery response holds. A response of at least 17 bytes is
/// accepted (the transport may hand over a longer buffer); it starts with
/// `08 04`.
pub open spec fn battery_of(data: Seq<u8>) -> Option<Battery> {
    if data.len() >= FRAME_LEN && data[0] == FRAME_HEADER && data[1] == BATTERY_FAMILY {
        Some(
            Battery {
                percentage: data[6],
                voltage_mv: (data[8] * 256 + data[9]) as u16,
                is_charging: data[7] == 1,
            },
        )
    } else {
        None
    }
}

impl Battery {
    /// Battery percentage (0-100).
    pub fn percentage(&self) -> (r: u8)
        ensures
            r == self.percentage,
    {
        self.percentage
    }

    /// Voltage in millivolts.
    pub fn voltage(&self) -> (r: u16)
        ensures
            r == self.voltage_mv,
    {
        self.voltage_mv
    }

    /// Whether the battery is charging.
    pub fn is_charging(&self) -> (r: bool)
        ensures
            r == self.is_charging,
    {
        self.is_charging
    }

    /// Decodes a battery response: percentage at byte 6, charging flag at
    /// byte 7, big-endian millivolts at bytes 8 and 9.
    pub fn parse_report(data: &[u8]) -> (r: Result<Battery, MadRError>)
        ensures
            battery_of(data@) matches Some(b) ==> r == Ok::<Battery, MadRError>(b),
            battery_of(data@) is None ==> r == Err::<Battery, MadRError>(
                MadRError::InvalidBatteryFormat,
            ),
    {
        if data.len() < FRAME_LEN || data[0] != FRAME_HEADER || data[1] != BATTERY_FAMILY {
            return Err(MadRError::InvalidBatteryFormat);
        }
        let voltage_mv = (data[8] as u16) * 256 + (data[9] as u16);
        Ok(Battery { percentage: data[6], voltage_mv, is_charging: data[7] == 0x01 })
    }
}

/// The query that reads the battery status.
pub fn battery_query() -> (r: Vec<u8>)
    ensures
        r@ == query_of(BATTERY_FAMILY, 0, 0),
        frame_valid(r@),
{
    query_frame(BATTERY_FAMILY, 0x00, 0x00)
}

} // verus!
