//! The command layer: each command reads the configuration and the cycle
//! state, drives the engine, and returns the snapshot to publish.
//!
//! Callers that share these values between threads take their locks in one
//! order: configuration, then cycle state, then engine. The functions here
//! take them in that order of parameters.

use vstd::prelude::*;
use crate::cycle::{can_advance, next_state, update_pomodoro_state, Pomodoro, TimerMode};
use crate::engine::{reset_to, resumed, toggled, EngineState, TimerEngine};
use crate::settings::{phase_duration, Settings, MILLIS_PER_SECOND};

verus! {

/// A point-in-time view of the timer for outside consumers.
#[derive(Clone, Copy, Debug, PartialEq, Eq, Structural)]
pub struct TimerStatePayload {
    pub mode: TimerMode,
    pub cycle: u32,
    pub is_ended: bool,
    pub duration_secs: u32,
}

/// Whole seconds in `ms` milliseconds, truncated to 32 bits.
pub open spec fn secs_of(ms: u64) -> u32 {
    (ms / (MILLIS_PER_SECOND as u64)) as u32
}

/// The snapshot of cycle state `p` under `settings`.
pub open spec fn payload_of(p: Pomodoro, settings: Settings) -> TimerStatePayload {
    TimerStatePayload {
        mode: p.mode,
        cycle: p.cycles,
        is_ended: false,
        duration_secs: secs_of(phase_duration(p.mode, settings)),
    }
}

/// The engine after it was reset to the phase duration of `p` and resumed.
pub open spec fn restarted_for(e: EngineState, p: Pomodoro, settings: Settings) -> EngineState {
    resumed(reset_to(e, phase_duration(p.mode, settings)))
}

fn make_payload(pomodoro: &Pomodoro, duration_ms: u64) -> (r: TimerStatePayload)
    ensures
        r == (TimerStatePayload {
            mode: pomodoro.mode,
            cycle: pomodoro.cycles,
            is_ended: false,
            duration_secs: secs_of(duration_ms),
        }),
{
    TimerStatePayload {
        mode: pomodoro.mode,
        cycle: pomodoro.cycles,
        is_ended: false,
        duration_secs: (duration_ms / MILLIS_PER_SECOND) as u32,
    }
}

/// Starts or pauses the countdown; returns whether it now runs.
pub fn toggle_timer(engine: &mut TimerEngine) -> (running: bool)
    ensures
        final(engine)@ == toggled(old(engine)@),
        running == final(engine)@.running,
        running == !old(engine)@.running,
{
    engine.toggle()
}

/// Restarts the current phase from its full duration and runs it. Returns
/// the snapshot to publish.
pub fn reset_timer(settings: &Settings, pomodoro: &Pomodoro, engine: &mut TimerEngine) -> (r:
    TimerStatePayload)
    ensures
        final(engine)@ == restarted_for(old(engine)@, *pomodoro, *settings),
        final(engine)@ == (EngineState {
            remaining_ms: phase_duration(pomodoro.mode, *settings),
            running: true,
        }),
        r == payload_of(*pomodoro, *settings),
{
    let new_duration = pomodoro.duration(settings);
    engine.reset(new_duration);
    engine.resume();
    make_payload(pomodoro, new_duration)
}

/// Moves to the next phase and runs its full duration. Returns the
/// snapshot to publish, or `None`, with nothing changed, when the cycle
/// count cannot grow any further.
pub fn next_timer_cycle(settings: &Settings, pomodoro: &mut Pomodoro, engine: &mut TimerEngine) -> (r:
    Option<TimerStatePayload>)
    ensures
        r is Some <==> can_advance(*old(pomodoro)),
        can_advance(*old(pomodoro)) ==> {
            &&& *final(pomodoro) == next_state(*old(pomodoro))
            &&& final(engine)@ == restarted_for(old(engine)@, *final(pomodoro), *settings)
            &&& r == Some(payload_of(*final(pomodoro), *settings))
        },
        !can_advance(*old(pomodoro)) ==> {
            &&& *final(pomodoro) == *old(pomodoro)
            &&& final(engine)@ == old(engine)@
        },
{
    if pomodoro.mode == TimerMode::Relax && pomodoro.cycles == u32::MAX {
        return None;
    }
    *pomodoro = update_pomodoro_state(pomodoro);
    let new_duration = pomodoro.duration(settings);
    engine.reset(new_duration);
    engine.resume();
    Some(make_payload(pomodoro, new_duration))
}

/// The snapshot of the current phase, with no change to anything.
pub fn get_timer_state(settings: &Settings, pomodoro: &Pomodoro) -> (r: TimerStatePayload)
    ensures
        r == payload_of(*pomodoro, *settings),
{
    make_payload(pomodoro, pomodoro.duration(settings))
}

/// The snapshot of a phase that has just run to zero and has not been
/// advanced yet: as `get_timer_state`, marked as ended.
pub fn get_ended_timer_state(settings: &Settings, pomodoro: &Pomodoro) -> (r: TimerStatePayload)
    ensures
        r == (TimerStatePayload { is_ended: true, ..payload_of(*pomodoro, *settings) }),
{
    let mut r = make_payload(pomodoro, pomodoro.duration(settings));
    r.is_ended = true;
    r
}

/// The offset that centres a span of `inner` inside a span of `outer`
/// (a window on a screen, along one axis).
pub fn centered_offset(outer: u32, inner: u32) -> (r: u32)
    requires
        inner <= outer,
    ensures
        r == (outer - inner) / 2,
{
    (outer - inner) / 2
}

} // verus!
