//! The library's error type.

use vstd::prelude::*;

verus! {

/// Everything that can go wrong, grouped as: input rejected before any I/O
/// (`Invalid*Setting`, `Invalid*Value`, `InvalidSleepTimeout`), a response frame
/// that cannot be decoded (`Invalid*Format`), and the transport (`HidApiInit`,
/// `DeviceNotFound`).
#[derive(Debug, PartialEq, Eq)]
pub enum MadRError {
    /// The HID transport failed; the text is the transport's own message.
    HidApiInit(String),
    DeviceNotFound,
    InvalidBatteryFormat,
    InvalidSensorFormat,
    InvalidSensorSetting(String),
    InvalidSleepTimeout(String),
    InvalidDebounceValue(String),
    InvalidDpiSetting(String),
    InvalidRgbValue(String),
    InvalidPerformanceSetting(String),
    /// A DPI stage-pair response was too short or lacked the frame header.
    InvalidDpiFormat,
    /// An RGB stage-pair response was too short or lacked the frame header.
    InvalidRgbFormat,
}

/// A message held by an error, from a string literal.
pub(crate) fn message(s: &str) -> (r: String)
    ensures
        r@ == s@,
{
    s.to_owned()
}

} // verus!
