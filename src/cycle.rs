//! The work/relax cycle: which phase the timer is in and how many full
//! cycles have been completed.

use vstd::prelude::*;

verus! {

/// The phase of a Pomodoro cycle.
#[derive(Clone, Copy, Debug, PartialEq, Eq, Structural)]
pub enum TimerMode {
    Work,
    Relax,
}

/// The cycle state: the current phase and the number of completed cycles.
#[derive(Clone, Copy, Debug, PartialEq, Eq, Structural)]
pub struct Pomodoro {
    pub mode: TimerMode,
    pub cycles: u32,
}

impl Pomodoro {
    /// The state the process starts in: working, no cycle completed yet.
    pub fn new() -> (r: Pomodoro)
        ensures
            r == (Pomodoro { mode: TimerMode::Work, cycles: 0 }),
    {
        Pomodoro { mode: TimerMode::Work, cycles: 0 }
    }
}

/// The successor of a cycle state: work is followed by relax with the same
/// count, relax by work with the count one higher.
pub open spec fn next_state(s: Pomodoro) -> Pomodoro {
    match s.mode {
        TimerMode::Work => Pomodoro { mode: TimerMode::Relax, cycles: s.cycles },
        TimerMode::Relax => Pomodoro { mode: TimerMode::Work, cycles: (s.cycles + 1) as u32 },
    }
}

/// Whether the successor of `s` has a count that fits in a `u32`.
pub open spec fn can_advance(s: Pomodoro) -> bool {
    s.mode == TimerMode::Relax ==> s.cycles < u32::MAX
}

/// Moves to the next phase of the cycle.
pub fn update_pomodoro_state(state: &Pomodoro) -> (r: Pomodoro)
    requires
        can_advance(*state),
    ensures
        r == next_state(*state),
        r.mode != state.mode,
        r.cycles as int == state.cycles + (if state.mode == TimerMode::Relax { 1int } else { 0int }),
{
    match state.mode {
        TimerMode::Relax => Pomodoro { mode: TimerMode::Work, cycles: state.cycles + 1 },
        TimerMode::Work => Pomodoro { mode: TimerMode::Relax, cycles: state.cycles },
    }
}

/// Two transitions return to the same phase, with the count one higher in
/// either case: the one relax-to-work step lies between them.
pub proof fn lemma_two_transitions(s: Pomodoro)
    requires
        s.cycles < u32::MAX,
    ensures
        can_advance(s),
        can_advance(next_state(s)),
        next_state(next_state(s)) == (Pomodoro { mode: s.mode, cycles: (s.cycles + 1) as u32 }),
{
}

/// The count never decreases, and it grows only on the step from relax to
/// work.
pub proof fn lemma_transition_monotone(s: Pomodoro)
    requires
        can_advance(s),
    ensures
        next_state(s).cycles >= s.cycles,
        next_state(s).cycles > s.cycles <==> s.mode == TimerMode::Relax,
        next_state(s).mode != s.mode,
{
}

} // verus!
