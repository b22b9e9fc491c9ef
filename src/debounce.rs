//! Button debounce time (report `0xA9`).

use vstd::prelude::*;
use crate::checksum::frame_valid;
use crate::error::{message, MadRError};
use crate::frame::{write_frame, write_of};
use crate::text::{decimal_u8, parse_u8};

verus! {

/// Report id shared by the debounce and sleep settings.
pub const TIMING_REPORT: u8 = 0xA9;

#[derive(Debug, Clone, Copy, PartialEq, Eq, Default, Structural)]
pub enum Debounce {
    Ms0,
    Ms1,
    Ms2,
    Ms4,
    #[default]
    Ms8,
    Ms15,
    Ms20,
}

pub open spec fn debounce_ms(d: Debounce) -> u8 {
    match d {
        Debounce::Ms0 => 0,
        Debounce::Ms1 => 1,
        Debounce::Ms2 => 2,
        Debounce::Ms4 => 4,
        Debounce::Ms8 => 8,
        Debounce::Ms15 => 15,
        Debounce::Ms20 => 20,
    }
}

pub open spec fn debounce_of_ms(v: u8) -> Option<Debounce> {
    if v == 0 {
        Some(Debounce::Ms0)
    } else if v == 1 {
        Some(Debounce::Ms1)
    } else if v == 2 {
        Some(Debounce::Ms2)
    } else if v == 4 {
        Some(Debounce::Ms4)
    } else if v == 8 {
        Some(Debounce::Ms8)
    } else if v == 15 {
        Some(Debounce::Ms15)
    } else if v == 20 {
        Some(Debounce::Ms20)
    } else {
        None
    }
}

impl Debounce {
    /// The debounce time in milliseconds.
    pub fn ms(&self) -> (r: u8)
        ensures
            r == debounce_ms(*self),
    {
        match self {
            Debounce::Ms0 => 0,
            Debounce::Ms1 => 1,
            Debounce::Ms2 => 2,
            Debounce::Ms4 => 4,
            Debounce::Ms8 => 8,
            Debounce::Ms15 => 15,
            Debounce::Ms20 => 20,
        }
    }

    /// The debounce time of `value` milliseconds; only 0, 1, 2, 4, 8, 15 and
    /// 20 exist.
    pub fn try_from(value: u8) -> (r: Result<Debounce, MadRError>)
        ensures
            debounce_of_ms(value) matches Some(d) ==> r == Ok::<Debounce, MadRError>(d),
            debounce_of_ms(value) is None ==> (r matches Err(MadRError::InvalidDebounceValue(_))),
    {
        match value {
            0 => Ok(Debounce::Ms0),
            1 => Ok(Debounce::Ms1),
            2 => Ok(Debounce::Ms2),
            4 => Ok(Debounce::Ms4),
            8 => Ok(Debounce::Ms8),
            15 => Ok(Debounce::Ms15),
            20 => Ok(Debounce::Ms20),
            _ => Err(
                MadRError::InvalidDebounceValue(
                    message("Invalid debounce value. Must be one of: 0, 1, 2, 4, 8, 15, 20"),
                ),
            ),
        }
    }

    /// The debounce time written in decimal milliseconds.
    pub fn from_str(s: &str) -> (r: Result<Debounce, MadRError>)
        ensures
            decimal_u8(s@) matches Some(v) ==> (debounce_of_ms(v) matches Some(d) ==> r == Ok::<
                Debounce,
                MadRError,
            >(d)),
            decimal_u8(s@) matches Some(v) ==> (debounce_of_ms(v) is None ==> (r matches Err(
                MadRError::InvalidDebounceValue(_),
            ))),
            decimal_u8(s@) is None ==> (r matches Err(MadRError::InvalidDebounceValue(_))),
    {
        match parse_u8(s) {
            Some(v) => Debounce::try_from(v),
            None => Err(MadRError::InvalidDebounceValue(s.to_owned())),
        }
    }
}

/// The debounce write: the time, then fixed fields `01`, `06`, `00`, `00`.
pub open spec fn debounce_frame(ms: u8) -> Seq<u8> {
    write_of(TIMING_REPORT, seq![ms, 0x01u8, 0x06u8, 0x00u8, 0x00u8])
}

/// The frame that sets a debounce time of `debounce_ms` milliseconds.
pub fn get_debounce_packet(debounce_ms: u8) -> (r: Vec<u8>)
    requires
        debounce_of_ms(debounce_ms) is Some,
    ensures
        r@ == debounce_frame(debounce_ms),
        frame_valid(r@),
{
    let values = [debounce_ms, 0x01, 0x06, 0x00, 0x00];
    proof {
        assert(values@ =~= seq![debounce_ms, 0x01u8, 0x06u8, 0x00u8, 0x00u8]);
    }
    write_frame(TIMING_REPORT, &values)
}

/// The frame that sets `debounce`.
pub fn get_debounce_report(debounce: Debounce) -> (r: Vec<u8>)
    ensures
        r@ == debounce_frame(debounce_ms(debounce)),
        frame_valid(r@),
{
    get_debounce_packet(debounce.ms())
}

} // verus!
