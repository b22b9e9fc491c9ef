//! Orders the frames of a change to several settings at once. Everything is
//! validated before the first frame is built, so a rejected change sends
//! nothing; the frames then go out in a fixed order, each with the pause the
//! device needs before the next one.

use vstd::prelude::*;
use crate::checksum::frame_valid;
use crate::debounce::{debounce_frame, debounce_ms, get_debounce_report, Debounce};
use crate::error::{message, MadRError};
use crate::performance::{
    build_packet, check_polling_rate, performance_frame, rate_allowed, rate_flag, rate_of_hz,
    valid_dpi_stage, DEFAULT_RATE_FLAG, DEFAULT_STAGE_BYTE,
};
use crate::sensor::{get_magic_report, mode_index, sensor_frame, SensorMode};
use crate::sleep::{get_confirmation_packet, get_sleep_packet, sleep_confirm_frame, sleep_set_frame};

verus! {

/// Pause after a frame that the next one depends on, in milliseconds.
pub const SETTLE_MS: u32 = 200;

/// The frames of a plan and their pauses, as byte sequences.
pub open spec fn step_views(steps: Seq<(Vec<u8>, u32)>) -> Seq<(Seq<u8>, u32)> {
    steps.map_values(|p: (Vec<u8>, u32)| (p.0@, p.1))
}

/// A change is acceptable when its stage is from 1 to 8 and its polling rate
/// is supported and allowed on the device's connection.
pub open spec fn settings_valid(wired: bool, dpi_stage: Option<u8>, polling_rate: Option<u16>) -> bool {
    &&& dpi_stage is Some ==> valid_dpi_stage(dpi_stage->0)
    &&& polling_rate is Some ==> rate_allowed(polling_rate->0, wired)
}

/// The performance frame, when a stage or a rate is given.
pub open spec fn performance_steps(dpi_stage: Option<u8>, polling_rate: Option<u16>) -> Seq<
    (Seq<u8>, u32),
> {
    match (dpi_stage, polling_rate) {
        (Some(s), Some(hz)) => seq![
            (performance_frame(rate_flag(rate_of_hz(hz)->0), (s - 1) as u8), 0u32),
        ],
        (Some(s), None) => seq![(performance_frame(DEFAULT_RATE_FLAG, (s - 1) as u8), 0u32)],
        (None, Some(hz)) => seq![
            (performance_frame(rate_flag(rate_of_hz(hz)->0), DEFAULT_STAGE_BYTE), 0u32),
        ],
        (None, None) => seq![],
    }
}

pub open spec fn sensor_steps(sensor: Option<SensorMode>) -> Seq<(Seq<u8>, u32)> {
    match sensor {
        Some(m) => seq![(sensor_frame(mode_index(m)), SETTLE_MS)],
        None => seq![],
    }
}

pub open spec fn debounce_steps(debounce: Option<Debounce>) -> Seq<(Seq<u8>, u32)> {
    match debounce {
        Some(d) => seq![(debounce_frame(debounce_ms(d)), SETTLE_MS)],
        None => seq![],
    }
}

/// The two sleep frames, with the settle pause between them.
pub open spec fn sleep_steps(sleep_tens: Option<u8>) -> Seq<(Seq<u8>, u32)> {
    match sleep_tens {
        Some(t) => seq![(sleep_set_frame(t), SETTLE_MS), (sleep_confirm_frame(t), 0u32)],
        None => seq![],
    }
}

/// The frames of a change in the order they are sent: sensor preset,
/// debounce, stage and rate, then the two sleep frames.
pub open spec fn settings_plan(
    dpi_stage: Option<u8>,
    polling_rate: Option<u16>,
    sensor: Option<SensorMode>,
    debounce: Option<Debounce>,
    sleep_tens: Option<u8>,
) -> Seq<(Seq<u8>, u32)> {
    sensor_steps(sensor) + debounce_steps(debounce) + performance_steps(dpi_stage, polling_rate)
        + sleep_steps(sleep_tens)
}

fn push_step(steps: &mut Vec<(Vec<u8>, u32)>, frame: Vec<u8>, pause_ms: u32)
    requires
        frame_valid(frame@),
        forall|i: int| 0 <= i < old(steps)@.len() ==> frame_valid(#[trigger] old(steps)@[i].0@),
    ensures
        step_views(final(steps)@) == step_views(old(steps)@).push((frame@, pause_ms)),
        forall|i: int| 0 <= i < final(steps)@.len() ==> frame_valid(#[trigger] final(steps)@[i].0@),
{
    let ghost before = steps@;
    steps.push((frame, pause_ms));
    assert(step_views(steps@) =~= step_views(before).push((frame@, pause_ms)));
}

fn push_sensor(steps: &mut Vec<(Vec<u8>, u32)>, sensor: Option<SensorMode>)
    requires
        forall|i: int| 0 <= i < old(steps)@.len() ==> frame_valid(#[trigger] old(steps)@[i].0@),
    ensures
        step_views(final(steps)@) == step_views(old(steps)@) + sensor_steps(sensor),
        forall|i: int| 0 <= i < final(steps)@.len() ==> frame_valid(#[trigger] final(steps)@[i].0@),
{
    let ghost before = step_views(steps@);
    if let Some(m) = sensor {
        push_step(steps, get_magic_report(m), SETTLE_MS);
    }
    assert(step_views(steps@) =~= before + sensor_steps(sensor));
}

fn push_debounce(steps: &mut Vec<(Vec<u8>, u32)>, debounce: Option<Debounce>)
    requires
        forall|i: int| 0 <= i < old(steps)@.len() ==> frame_valid(#[trigger] old(steps)@[i].0@),
    ensures
        step_views(final(steps)@) == step_views(old(steps)@) + debounce_steps(debounce),
        forall|i: int| 0 <= i < final(steps)@.len() ==> frame_valid(#[trigger] final(steps)@[i].0@),
{
    let ghost before = step_views(steps@);
    if let Some(d) = debounce {
        push_step(steps, get_debounce_report(d), SETTLE_MS);
    }
    assert(step_views(steps@) =~= before + debounce_steps(debounce));
}

fn push_performance(steps: &mut Vec<(Vec<u8>, u32)>, dpi_stage: Option<u8>, polling_rate: Option<u16>)
    requires
        dpi_stage is Some ==> valid_dpi_stage(dpi_stage->0),
        polling_rate is Some ==> rate_of_hz(polling_rate->0) is Some,
        forall|i: int| 0 <= i < old(steps)@.len() ==> frame_valid(#[trigger] old(steps)@[i].0@),
    ensures
        step_views(final(steps)@) == step_views(old(steps)@) + performance_steps(dpi_stage, polling_rate),
        forall|i: int| 0 <= i < final(steps)@.len() ==> frame_valid(#[trigger] final(steps)@[i].0@),
{
    let ghost before = step_views(steps@);
    if let Some(f) = build_packet(dpi_stage, polling_rate) {
        push_step(steps, f, 0);
    }
    assert(step_views(steps@) =~= before + performance_steps(dpi_stage, polling_rate));
}

fn push_sleep(steps: &mut Vec<(Vec<u8>, u32)>, sleep_tens: Option<u8>)
    requires
        forall|i: int| 0 <= i < old(steps)@.len() ==> frame_valid(#[trigger] old(steps)@[i].0@),
    ensures
        step_views(final(steps)@) == step_views(old(steps)@) + sleep_steps(sleep_tens),
        forall|i: int| 0 <= i < final(steps)@.len() ==> frame_valid(#[trigger] final(steps)@[i].0@),
{
    let ghost before = step_views(steps@);
    if let Some(t) = sleep_tens {
        push_step(steps, get_sleep_packet(t), SETTLE_MS);
        push_step(steps, get_confirmation_packet(t), 0);
    }
    assert(step_views(steps@) =~= before + sleep_steps(sleep_tens));
}

/// Validates a change to several settings and lists its frames, each with
/// the pause to keep after sending it. A rejected change yields no frame.
pub fn plan_settings(
    wired: bool,
    dpi_stage: Option<u8>,
    polling_rate: Option<u16>,
    sensor: Option<SensorMode>,
    debounce: Option<Debounce>,
    sleep_tens: Option<u8>,
) -> (r: Result<Vec<(Vec<u8>, u32)>, MadRError>)
    ensures
        !settings_valid(wired, dpi_stage, polling_rate) ==> (r matches Err(
            MadRError::InvalidPerformanceSetting(_),
        )),
        settings_valid(wired, dpi_stage, polling_rate) ==> (r matches Ok(steps) && step_views(
            steps@,
        ) == settings_plan(dpi_stage, polling_rate, sensor, debounce, sleep_tens)),
        r matches Ok(steps) ==> forall|i: int|
            0 <= i < steps@.len() ==> frame_valid(#[trigger] steps@[i].0@),
{
    if let Some(hz) = polling_rate {
        if let Err(e) = check_polling_rate(hz, wired) {
            return Err(e);
        }
    }
    if let Some(s) = dpi_stage {
        if s < 1 || s > 8 {
            return Err(MadRError::InvalidPerformanceSetting(message("DPI stage must be between 1 and 8")));
        }
    }
    let mut steps: Vec<(Vec<u8>, u32)> = Vec::new();
    assert(step_views(steps@) =~= Seq::<(Seq<u8>, u32)>::empty());
    push_sensor(&mut steps, sensor);
    push_debounce(&mut steps, debounce);
    push_performance(&mut steps, dpi_stage, polling_rate);
    push_sleep(&mut steps, sleep_tens);
    assert(step_views(steps@) =~= settings_plan(
        dpi_stage,
        polling_rate,
        sensor,
        debounce,
        sleep_tens,
    ));
    Ok(steps)
}

} // verus!
