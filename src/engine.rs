//! The countdown engine: a remaining time and a running flag, advanced by
//! ticks of a fixed cadence. A tick that brings the countdown to zero stops
//! it and reports one completion.

use vstd::prelude::*;

verus! {

/// The cadence, in milliseconds, at which the scheduler ticks the engine.
pub const TICK_INTERVAL_MS: u64 = 100;

/// A snapshot of the engine: time left in milliseconds, and whether the
/// countdown is running.
#[derive(Clone, Copy, Debug, PartialEq, Eq, Structural)]
pub struct EngineState {
    pub remaining_ms: u64,
    pub running: bool,
}

/// The state after a toggle: the running flag flipped.
pub open spec fn toggled(s: EngineState) -> EngineState {
    EngineState { remaining_ms: s.remaining_ms, running: !s.running }
}

/// The state after a reset to `d`: stopped with `d` left.
pub open spec fn reset_to(s: EngineState, d: u64) -> EngineState {
    EngineState { remaining_ms: d, running: false }
}

/// The state after a resume: running, time left unchanged.
pub open spec fn resumed(s: EngineState) -> EngineState {
    EngineState { remaining_ms: s.remaining_ms, running: true }
}

/// One tick of `elapsed` milliseconds: the new state, and whether it
/// completed the countdown. A stopped engine does not change. A running one
/// loses `elapsed`, clamped at zero; at zero it stops and completes.
pub open spec fn tick_step(s: EngineState, elapsed: u64) -> (EngineState, bool) {
    if !s.running {
        (s, false)
    } else if elapsed >= s.remaining_ms {
        (EngineState { remaining_ms: 0, running: false }, true)
    } else {
        (EngineState { remaining_ms: (s.remaining_ms - elapsed) as u64, running: true }, false)
    }
}

/// The sum of a sequence of tick lengths.
pub open spec fn total_elapsed(ticks: Seq<u64>) -> int
    decreases ticks.len(),
{
    if ticks.len() == 0 {
        0
    } else {
        ticks[0] + total_elapsed(ticks.drop_first())
    }
}

/// The state after the ticks in `ticks`, one after another, and the number
/// of completions they reported.
pub open spec fn run_ticks(s: EngineState, ticks: Seq<u64>) -> (EngineState, nat)
    decreases ticks.len(),
{
    if ticks.len() == 0 {
        (s, 0)
    } else {
        let (s1, done) = tick_step(s, ticks[0]);
        let (s2, n) = run_ticks(s1, ticks.drop_first());
        (s2, n + if done { 1nat } else { 0nat })
    }
}

/// The countdown engine. Its state is kept private: it changes only through
/// the methods below.
#[derive(Debug)]
pub struct TimerEngine {
    state: EngineState,
}

impl View for TimerEngine {
    type V = EngineState;

    closed spec fn view(&self) -> EngineState {
        self.state
    }
}

impl TimerEngine {
    /// A stopped engine with `duration_ms` left.
    pub fn new(duration_ms: u64) -> (r: TimerEngine)
        ensures
            r@ == (EngineState { remaining_ms: duration_ms, running: false }),
    {
        TimerEngine { state: EngineState { remaining_ms: duration_ms, running: false } }
    }

    /// Flips the running flag and returns its new value.
    pub fn toggle(&mut self) -> (r: bool)
        ensures
            final(self)@ == toggled(old(self)@),
            r == final(self)@.running,
    {
        self.state.running = !self.state.running;
        self.state.running
    }

    /// Sets the time left to `duration_ms` and stops the countdown. It does
    /// not start again by itself: see `resume`.
    pub fn reset(&mut self, duration_ms: u64)
        ensures
            final(self)@ == reset_to(old(self)@, duration_ms),
    {
        self.state = EngineState { remaining_ms: duration_ms, running: false };
    }

    /// Starts the countdown from the time left.
    pub fn resume(&mut self)
        ensures
            final(self)@ == resumed(old(self)@),
    {
        self.state.running = true;
    }

    /// Whether the countdown is running.
    pub fn is_running(&self) -> (r: bool)
        ensures
            r == self@.running,
    {
        self.state.running
    }

    /// The time left, in milliseconds.
    pub fn remaining_ms(&self) -> (r: u64)
        ensures
            r == self@.remaining_ms,
    {
        self.state.remaining_ms
    }

    /// A copy of the current state.
    pub fn snapshot(&self) -> (r: EngineState)
        ensures
            r == self@,
    {
        self.state
    }

    /// Advances the countdown by `elapsed_ms`. Returns true exactly when
    /// this tick brought a running countdown to zero; the engine is then
    /// stopped. After the tick the engine never runs with nothing left.
    pub fn tick(&mut self, elapsed_ms: u64) -> (completed: bool)
        ensures
            (final(self)@, completed) == tick_step(old(self)@, elapsed_ms),
            final(self)@.remaining_ms <= old(self)@.remaining_ms,
            !old(self)@.running ==> final(self)@ == old(self)@,
            !(final(self)@.running && final(self)@.remaining_ms == 0),
    {
        if !self.state.running {
            false
        } else if elapsed_ms >= self.state.remaining_ms {
            self.state = EngineState { remaining_ms: 0, running: false };
            true
        } else {
            self.state.remaining_ms = self.state.remaining_ms - elapsed_ms;
            false
        }
    }
}

/// Toggling twice restores the running flag, and the whole state.
pub proof fn lemma_toggle_involution(s: EngineState)
    ensures
        toggled(toggled(s)) == s,
        toggled(toggled(s)).running == s.running,
{
}

/// A reset to `d` followed by a resume leaves the engine running with
/// exactly `d` left, whatever it held before.
pub proof fn lemma_reset_then_resume(s: EngineState, d: u64)
    ensures
        resumed(reset_to(s, d)).running,
        resumed(reset_to(s, d)).remaining_ms == d,
{
}

/// Two resets applied one after the other leave exactly what the later one
/// set: the result of either order is one whole reset, never a mix.
pub proof fn lemma_reset_last_writer_wins(s: EngineState, a: u64, b: u64)
    ensures
        reset_to(reset_to(s, a), b) == reset_to(s, b),
        reset_to(reset_to(s, b), a) == reset_to(s, a),
{
}

/// A stopped engine ignores any number of ticks.
pub proof fn lemma_stopped_ignores_ticks(s: EngineState, ticks: Seq<u64>)
    requires
        !s.running,
    ensures
        run_ticks(s, ticks) == (s, 0nat),
    decreases ticks.len(),
{
    if ticks.len() > 0 {
        lemma_stopped_ignores_ticks(s, ticks.drop_first());
    }
}

/// Any run of ticks reports at most one completion, and reports one
/// exactly when the engine was running and the ticks add up to at least
/// the time that was left.
pub proof fn lemma_ticks_complete_once(s: EngineState, ticks: Seq<u64>)
    ensures
        run_ticks(s, ticks).1 == (if s.running && ticks.len() > 0 && total_elapsed(ticks)
            >= s.remaining_ms { 1nat } else { 0nat }),
        run_ticks(s, ticks).1 <= 1,
    decreases ticks.len(),
{
    if ticks.len() > 0 {
        let rest = ticks.drop_first();
        let (s1, done) = tick_step(s, ticks[0]);
        lemma_total_nonneg(rest);
        if !s.running {
            lemma_stopped_ignores_ticks(s, rest);
        } else if done {
            lemma_stopped_ignores_ticks(s1, rest);
        } else {
            lemma_ticks_complete_once(s1, rest);
        }
    }
}

/// After a reset to `d` and a resume, ticks report exactly one completion
/// once their lengths add up to `d`, and none before.
pub proof fn lemma_one_completion_per_countdown(s: EngineState, d: u64, ticks: Seq<u64>)
    ensures
        run_ticks(resumed(reset_to(s, d)), ticks).1 == (if ticks.len() > 0 && total_elapsed(ticks)
            >= d { 1nat } else { 0nat }),
{
    lemma_ticks_complete_once(resumed(reset_to(s, d)), ticks);
}

proof fn lemma_total_nonneg(ticks: Seq<u64>)
    ensures
        total_elapsed(ticks) >= 0,
    decreases ticks.len(),
{
    if ticks.len() > 0 {
        lemma_total_nonneg(ticks.drop_first());
    }
}

} // verus!
