//! The active DPI stage and the polling rate. Both travel in one frame
//! (report `0x00`), each in its own checksummed field.
//!
//! Stages are numbered from 1; the frame carries `stage - 1`.

use vstd::prelude::*;
use crate::checksum::{frame_valid, FRAME_LEN};
use crate::error::{message, MadRError};
use crate::frame::{fields_of, query_frame, query_of, write_frame, write_of, READ_FAMILY};

verus! {

/// Report id of the performance settings.
pub const PERFORMANCE_REPORT: u8 = 0x00;

/// Length byte of the performance query.
pub const PERFORMANCE_QUERY_LEN: u8 = 0x06;

/// Fixed value of the field between rate and stage.
pub const PERFORMANCE_MARKER: u8 = 0x04;

/// Rate flag sent with a stage-only change (1000 Hz).
pub const DEFAULT_RATE_FLAG: u8 = 0x01;

/// Stage byte sent with a rate-only change.
pub const DEFAULT_STAGE_BYTE: u8 = 0x01;

/// Highest polling rate a wired device accepts, in Hz.
pub const WIRED_MAX_HZ: u16 = 1000;

#[derive(Debug, Clone, Copy, PartialEq, Eq, PartialOrd, Ord, Structural)]
pub enum PollingRate {
    Hz125,
    Hz250,
    Hz500,
    Hz1000,
    Hz2000,
    Hz4000,
    Hz8000,
}

pub open spec fn rate_hz(p: PollingRate) -> u16 {
    match p {
        PollingRate::Hz125 => 125,
        PollingRate::Hz250 => 250,
        PollingRate::Hz500 => 500,
        PollingRate::Hz1000 => 1000,
        PollingRate::Hz2000 => 2000,
        PollingRate::Hz4000 => 4000,
        PollingRate::Hz8000 => 8000,
    }
}

/// The single-bit flag byte of each rate; not monotone in the rate.
pub open spec fn rate_flag(p: PollingRate) -> u8 {
    match p {
        PollingRate::Hz125 => 0x08,
        PollingRate::Hz250 => 0x04,
        PollingRate::Hz500 => 0x02,
        PollingRate::Hz1000 => 0x01,
        PollingRate::Hz2000 => 0x10,
        PollingRate::Hz4000 => 0x20,
        PollingRate::Hz8000 => 0x40,
    }
}

pub open spec fn rate_of_hz(hz: u16) -> Option<PollingRate> {
    if hz == 125 {
        Some(PollingRate::Hz125)
    } else if hz == 250 {
        Some(PollingRate::Hz250)
    } else if hz == 500 {
        Some(PollingRate::Hz500)
    } else if hz == 1000 {
        Some(PollingRate::Hz1000)
    } else if hz == 2000 {
        Some(PollingRate::Hz2000)
    } else if hz == 4000 {
        Some(PollingRate::Hz4000)
    } else if hz == 8000 {
        Some(PollingRate::Hz8000)
    } else {
        None
    }
}

pub open spec fn rate_of_flag(b: u8) -> Option<PollingRate> {
    if b == 0x08 {
        Some(PollingRate::Hz125)
    } else if b == 0x04 {
        Some(PollingRate::Hz250)
    } else if b == 0x02 {
        Some(PollingRate::Hz500)
    } else if b == 0x01 {
        Some(PollingRate::Hz1000)
    } else if b == 0x10 {
        Some(PollingRate::Hz2000)
    } else if b == 0x20 {
        Some(PollingRate::Hz4000)
    } else if b == 0x40 {
        Some(PollingRate::Hz8000)
    } else {
        None
    }
}

impl PollingRate {
    pub fn hz(&self) -> (r: u16)
        ensures
            r == rate_hz(*self),
    {
        match self {
            PollingRate::Hz125 => 125,
            PollingRate::Hz250 => 250,
            PollingRate::Hz500 => 500,
            PollingRate::Hz1000 => 1000,
            PollingRate::Hz2000 => 2000,
            PollingRate::Hz4000 => 4000,
            PollingRate::Hz8000 => 8000,
        }
    }

    pub fn flag(&self) -> (r: u8)
        ensures
            r == rate_flag(*self),
    {
        match self {
            PollingRate::Hz125 => 0x08,
            PollingRate::Hz250 => 0x04,
            PollingRate::Hz500 => 0x02,
            PollingRate::Hz1000 => 0x01,
            PollingRate::Hz2000 => 0x10,
            PollingRate::Hz4000 => 0x20,
            PollingRate::Hz8000 => 0x40,
        }
    }

    /// The rate of a frequency in Hz; any other frequency is unsupported.
    pub fn try_from(value: u16) -> (r: Result<PollingRate, MadRError>)
        ensures
            rate_of_hz(value) matches Some(p) ==> r == Ok::<PollingRate, MadRError>(p),
            rate_of_hz(value) is None ==> (r matches Err(
                MadRError::InvalidPerformanceSetting(_),
            )),
    {
        match value {
            125 => Ok(PollingRate::Hz125),
            250 => Ok(PollingRate::Hz250),
            500 => Ok(PollingRate::Hz500),
            1000 => Ok(PollingRate::Hz1000),
            2000 => Ok(PollingRate::Hz2000),
            4000 => Ok(PollingRate::Hz4000),
            8000 => Ok(PollingRate::Hz8000),
            _ => Err(
                MadRError::InvalidPerformanceSetting(
                    message("Unsupported polling rate. Must be one of: 125, 250, 500, 1000, 2000, 4000, 8000"),
                ),
            ),
        }
    }

    /// The rate whose flag byte is `b`.
    pub fn from_flag(b: u8) -> (r: Option<PollingRate>)
        ensures
            r == rate_of_flag(b),
    {
        match b {
            0x08 => Some(PollingRate::Hz125),
            0x04 => Some(PollingRate::Hz250),
            0x02 => Some(PollingRate::Hz500),
            0x01 => Some(PollingRate::Hz1000),
            0x10 => Some(PollingRate::Hz2000),
            0x20 => Some(PollingRate::Hz4000),
            0x40 => Some(PollingRate::Hz8000),
            _ => None,
        }
    }
}

/// Each rate is found again from its frequency and from its flag byte, and
/// distinct rates have distinct flags.
pub proof fn lemma_rate_tables_agree(p: PollingRate, q: PollingRate)
    ensures
        rate_of_hz(rate_hz(p)) == Some(p),
        rate_of_flag(rate_flag(p)) == Some(p),
        p != q ==> rate_flag(p) != rate_flag(q),
{
}

/// The active stage (1 to 8) and polling rate.
#[derive(Debug, Clone, Copy, PartialEq, Eq, Structural)]
pub struct Performance {
    pub dpi_stage: u8,
    pub polling_rate: PollingRate,
}

impl Performance {
    pub fn new(dpi_stage: u8, polling_rate: PollingRate) -> (r: Performance)
        ensures
            r.dpi_stage == dpi_stage,
            r.polling_rate == polling_rate,
    {
        Performance { dpi_stage, polling_rate }
    }

    pub fn dpi_stage(&self) -> (r: u8)
        ensures
            r == self.dpi_stage,
    {
        self.dpi_stage
    }

    pub fn polling_rate(&self) -> (r: PollingRate)
        ensures
            r == self.polling_rate,
    {
        self.polling_rate
    }

    /// Decodes a performance response: rate flag at byte 6, `stage - 1` at
    /// byte 10.
    pub fn from_bytes(data: &[u8]) -> (r: Result<Performance, MadRError>)
        ensures
            performance_of(data@) matches Some(p) ==> r == Ok::<Performance, MadRError>(p),
            performance_of(data@) is None ==> (r matches Err(
                MadRError::InvalidPerformanceSetting(_),
            )),
    {
        if data.len() < FRAME_LEN {
            return Err(MadRError::InvalidPerformanceSetting(message("Performance report too short")));
        }
        let polling_rate = match PollingRate::from_flag(data[6]) {
            Some(p) => p,
            None => return Err(MadRError::InvalidPerformanceSetting(message("Unsupported polling rate"))),
        };
        if data[10] > 7 {
            return Err(MadRError::InvalidPerformanceSetting(message("Unsupported DPI stage")));
        }
        Ok(Performance { dpi_stage: data[10] + 1, polling_rate })
    }
}

/// What a performance response holds, when it is a full frame with a known
/// rate flag and a stage from 1 to 8.
pub open spec fn performance_of(data: Seq<u8>) -> Option<Performance> {
    if data.len() >= FRAME_LEN && rate_of_flag(data[6]) is Some && data[10] <= 7 {
        Some(Performance { dpi_stage: (data[10] + 1) as u8, polling_rate: rate_of_flag(data[6])->0 })
    } else {
        None
    }
}

pub open spec fn valid_dpi_stage(stage: u8) -> bool {
    1 <= stage <= 8
}

/// The performance write: rate flag, the fixed marker, and the stage byte.
pub open spec fn performance_frame(rate_byte: u8, stage_byte: u8) -> Seq<u8> {
    write_of(PERFORMANCE_REPORT, seq![rate_byte, PERFORMANCE_MARKER, stage_byte])
}

fn performance_write(rate_byte: u8, stage_byte: u8) -> (r: Vec<u8>)
    ensures
        r@ == performance_frame(rate_byte, stage_byte),
        frame_valid(r@),
{
    let values = [rate_byte, PERFORMANCE_MARKER, stage_byte];
    proof {
        assert(values@ =~= seq![rate_byte, PERFORMANCE_MARKER, stage_byte]);
    }
    write_frame(PERFORMANCE_REPORT, &values)
}

/// The query that reads the active stage and polling rate.
pub fn performance_query() -> (r: Vec<u8>)
    ensures
        r@ == query_of(READ_FAMILY, PERFORMANCE_REPORT, PERFORMANCE_QUERY_LEN),
        frame_valid(r@),
{
    query_frame(READ_FAMILY, PERFORMANCE_REPORT, PERFORMANCE_QUERY_LEN)
}

/// The frame that makes `dpi_stage` active and sets the polling rate; a
/// stage outside 1 to 8 is rejected.
pub fn make_combined_report(dpi_stage: u8, rate: PollingRate) -> (r: Result<Vec<u8>, MadRError>)
    ensures
        valid_dpi_stage(dpi_stage) ==> (r matches Ok(f) && f@ == performance_frame(
            rate_flag(rate),
            (dpi_stage - 1) as u8,
        )),
        !valid_dpi_stage(dpi_stage) ==> (r matches Err(MadRError::InvalidPerformanceSetting(_))),
{
    if dpi_stage < 1 || dpi_stage > 8 {
        return Err(MadRError::InvalidPerformanceSetting(message("DPI stage must be between 1 and 8")));
    }
    Ok(performance_write(rate.flag(), dpi_stage - 1))
}

/// The frame that makes `dpi_stage` active; it also carries the 1000 Hz
/// rate flag.
pub fn get_dpi_packet(dpi_stage: u8) -> (r: Vec<u8>)
    requires
        valid_dpi_stage(dpi_stage),
    ensures
        r@ == performance_frame(DEFAULT_RATE_FLAG, (dpi_stage - 1) as u8),
        frame_valid(r@),
{
    performance_write(DEFAULT_RATE_FLAG, dpi_stage - 1)
}

/// The frame that sets the polling rate, given in Hz; it also carries the
/// stage byte `0x01`.
pub fn get_polling_rate_packet(rate: u16) -> (r: Vec<u8>)
    requires
        rate_of_hz(rate) is Some,
    ensures
        r@ == performance_frame(rate_flag(rate_of_hz(rate)->0), DEFAULT_STAGE_BYTE),
        frame_valid(r@),
{
    let p = PollingRate::try_from(rate).unwrap();
    performance_write(p.flag(), DEFAULT_STAGE_BYTE)
}

/// The frame that sets both the active stage and the polling rate (in Hz).
pub fn get_combined_packet(dpi_stage: u8, rate: u16) -> (r: Vec<u8>)
    requires
        valid_dpi_stage(dpi_stage),
        rate_of_hz(rate) is Some,
    ensures
        r@ == performance_frame(rate_flag(rate_of_hz(rate)->0), (dpi_stage - 1) as u8),
        frame_valid(r@),
{
    let p = PollingRate::try_from(rate).unwrap();
    performance_write(p.flag(), dpi_stage - 1)
}

/// The frame for whichever of stage and rate are given; none when neither is.
pub fn build_packet(dpi_stage: Option<u8>, polling_rate: Option<u16>) -> (r: Option<Vec<u8>>)
    requires
        dpi_stage matches Some(s) ==> valid_dpi_stage(s),
        polling_rate matches Some(hz) ==> rate_of_hz(hz) is Some,
    ensures
        r matches Some(f) ==> frame_valid(f@),
        (dpi_stage is None && polling_rate is None) <==> r is None,
        dpi_stage matches Some(s) ==> (polling_rate matches Some(hz) ==> (r matches Some(f)
            && f@ == performance_frame(rate_flag(rate_of_hz(hz)->0), (s - 1) as u8))),
        dpi_stage matches Some(s) ==> (polling_rate is None ==> (r matches Some(f) && f@
            == performance_frame(DEFAULT_RATE_FLAG, (s - 1) as u8))),
        dpi_stage is None ==> (polling_rate matches Some(hz) ==> (r matches Some(f) && f@
            == performance_frame(rate_flag(rate_of_hz(hz)->0), DEFAULT_STAGE_BYTE))),
{
    match (dpi_stage, polling_rate) {
        (Some(stage), Some(rate)) => Some(get_combined_packet(stage, rate)),
        (Some(stage), None) => Some(get_dpi_packet(stage)),
        (None, Some(rate)) => Some(get_polling_rate_packet(rate)),
        (None, None) => None,
    }
}

/// A polling rate requested for a device: supported, and at most 1000 Hz
/// when the device is wired.
pub open spec fn rate_allowed(hz: u16, wired: bool) -> bool {
    rate_of_hz(hz) is Some && !(wired && hz > WIRED_MAX_HZ)
}

/// Checks a requested polling rate against the device's connection before
/// any frame is built.
pub fn check_polling_rate(hz: u16, wired: bool) -> (r: Result<PollingRate, MadRError>)
    ensures
        rate_allowed(hz, wired) ==> r == Ok::<PollingRate, MadRError>(rate_of_hz(hz)->0),
        !rate_allowed(hz, wired) ==> (r matches Err(MadRError::InvalidPerformanceSetting(_))),
{
    if wired && hz > WIRED_MAX_HZ {
        return Err(MadRError::InvalidPerformanceSetting(message("Wired mouse only supports up to 1000 Hz polling rate.")));
    }
    PollingRate::try_from(hz)
}

/// Reading back a combined performance frame gives the stage and rate it
/// was built from.
pub proof fn lemma_performance_round_trip(dpi_stage: u8, rate: PollingRate)
    requires
        valid_dpi_stage(dpi_stage),
    ensures
        performance_of(performance_frame(rate_flag(rate), (dpi_stage - 1) as u8)) == Some(
            Performance { dpi_stage, polling_rate: rate },
        ),
{
    let values = seq![rate_flag(rate), PERFORMANCE_MARKER, (dpi_stage - 1) as u8];
    reveal_with_fuel(fields_of, 4);
    assert(values.drop_last().drop_last().drop_last() =~= Seq::<u8>::empty());
    assert(values.drop_last().drop_last() =~= seq![rate_flag(rate)]);
    assert(values.drop_last() =~= seq![rate_flag(rate), PERFORMANCE_MARKER]);
    let f = performance_frame(rate_flag(rate), (dpi_stage - 1) as u8);
    assert(f[6] == rate_flag(rate));
    assert(f[10] == (dpi_stage - 1) as u8);
}

} // verus!
