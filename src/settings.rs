//! The configuration the timer reads, and the duration resolver over it.

use vstd::prelude::*;
use crate::cycle::{Pomodoro, TimerMode};

verus! {

/// Milliseconds in a second.
pub const MILLIS_PER_SECOND: u64 = 1000;

/// Default length of a work phase: 25 minutes.
pub const DEFAULT_WORK_MS: u64 = 1_500_000;

/// Default length of a relax phase: 5 minutes.
pub const DEFAULT_RELAX_MS: u64 = 300_000;

/// The timer's configuration. Time spans are in milliseconds.
#[derive(Clone, Copy, Debug, PartialEq, Eq, Structural)]
pub struct Settings {
    pub work_duration_ms: u64,
    pub relax_duration_ms: u64,
    pub should_play_sound: Option<bool>,
}

impl Default for Settings {
    fn default() -> (r: Settings)
        ensures
            r.work_duration_ms == DEFAULT_WORK_MS,
            r.relax_duration_ms == DEFAULT_RELAX_MS,
            r.should_play_sound == Some(true),
    {
        Settings {
            work_duration_ms: DEFAULT_WORK_MS,
            relax_duration_ms: DEFAULT_RELAX_MS,
            should_play_sound: Some(true),
        }
    }
}

/// The length of a phase in `mode` under `settings`.
pub open spec fn phase_duration(mode: TimerMode, settings: Settings) -> u64 {
    match mode {
        TimerMode::Work => settings.work_duration_ms,
        TimerMode::Relax => settings.relax_duration_ms,
    }
}

/// Whether a completion signal should ring the bell under `settings`.
pub open spec fn rings(settings: Settings) -> bool {
    settings.should_play_sound == Some(true)
}

impl Settings {
    /// Whether a completion should be followed by the bell: only when the
    /// sound is switched on explicitly.
    pub fn should_ring_bell(&self) -> (r: bool)
        ensures
            r == rings(*self),
    {
        match self.should_play_sound {
            Some(b) => b,
            None => false,
        }
    }
}

impl Pomodoro {
    /// The target length, in milliseconds, of the phase this state is in.
    pub fn duration(&self, settings: &Settings) -> (r: u64)
        ensures
            r == phase_duration(self.mode, *settings),
    {
        match self.mode {
            TimerMode::Work => settings.work_duration_ms,
            TimerMode::Relax => settings.relax_duration_ms,
        }
    }
}

} // verus!
