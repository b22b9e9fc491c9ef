//! Sleep timeout. Setting it takes two frames, sent in order: the value
//! (report `0xA9`) and then a confirmation (report `0xB5`).

use vstd::prelude::*;
use crate::checksum::frame_valid;
use crate::debounce::TIMING_REPORT;
use crate::error::MadRError;
use crate::frame::{write_frame, write_of};
use crate::text::text_eq;

verus! {

/// Report id of the confirmation frame; the sensor preset uses the same id.
pub const CONFIRM_REPORT: u8 = 0xB5;

/// Tens of seconds for each accepted timeout: 30s, 1m, 2m, 3m, 5m, 20m,
/// 25m and 30m.
pub open spec fn sleep_tens_of(s: Seq<char>) -> Option<u8> {
    if s == "30s"@ {
        Some(3u8)
    } else if s == "1m"@ {
        Some(6u8)
    } else if s == "2m"@ {
        Some(12u8)
    } else if s == "3m"@ {
        Some(18u8)
    } else if s == "5m"@ {
        Some(30u8)
    } else if s == "20m"@ {
        Some(120u8)
    } else if s == "25m"@ {
        Some(150u8)
    } else if s == "30m"@ {
        Some(180u8)
    } else {
        None
    }
}

/// The timeout named by `s`, in tens of seconds.
pub fn parse_sleep_timeout(s: &str) -> (r: Result<u8, MadRError>)
    ensures
        sleep_tens_of(s@) matches Some(t) ==> r == Ok::<u8, MadRError>(t),
        sleep_tens_of(s@) is None ==> (r matches Err(MadRError::InvalidSleepTimeout(t)) && t@
            == s@),
{
    if text_eq(s, "30s") {
        Ok(3)
    } else if text_eq(s, "1m") {
        Ok(6)
    } else if text_eq(s, "2m") {
        Ok(12)
    } else if text_eq(s, "3m") {
        Ok(18)
    } else if text_eq(s, "5m") {
        Ok(30)
    } else if text_eq(s, "20m") {
        Ok(120)
    } else if text_eq(s, "25m") {
        Ok(150)
    } else if text_eq(s, "30m") {
        Ok(180)
    } else {
        Err(MadRError::InvalidSleepTimeout(s.to_owned()))
    }
}

/// The first sleep frame: fixed fields `04`, `01`, the timeout, then `00`,
/// `00`.
pub open spec fn sleep_set_frame(tens_of_seconds: u8) -> Seq<u8> {
    write_of(TIMING_REPORT, seq![0x04u8, 0x01u8, tens_of_seconds, 0x00u8, 0x00u8])
}

/// The second sleep frame: fixed field `01`, the timeout, then `00`.
pub open spec fn sleep_confirm_frame(tens_of_seconds: u8) -> Seq<u8> {
    write_of(CONFIRM_REPORT, seq![0x01u8, tens_of_seconds, 0x00u8])
}

/// The frame that sets a sleep timeout of `tens_of_seconds` tens of seconds.
pub fn get_sleep_packet(tens_of_seconds: u8) -> (r: Vec<u8>)
    ensures
        r@ == sleep_set_frame(tens_of_seconds),
        frame_valid(r@),
{
    let values = [0x04, 0x01, tens_of_seconds, 0x00, 0x00];
    proof {
        assert(values@ =~= seq![0x04u8, 0x01u8, tens_of_seconds, 0x00u8, 0x00u8]);
    }
    write_frame(TIMING_REPORT, &values)
}

/// The frame that confirms a sleep timeout; it follows the frame of
/// `get_sleep_packet`.
pub fn get_confirmation_packet(tens_of_seconds: u8) -> (r: Vec<u8>)
    ensures
        r@ == sleep_confirm_frame(tens_of_seconds),
        frame_valid(r@),
{
    let values = [0x01, tens_of_seconds, 0x00];
    proof {
        assert(values@ =~= seq![0x01u8, tens_of_seconds, 0x00u8]);
    }
    write_frame(CONFIRM_REPORT, &values)
}

/// The confirmation frame under its other name.
pub fn get_second_packet(tens_of_seconds: u8) -> (r: Vec<u8>)
    ensures
        r@ == sleep_confirm_frame(tens_of_seconds),
        frame_valid(r@),
{
    get_confirmation_packet(tens_of_seconds)
}

} // verus!
