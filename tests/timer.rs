use pomodoro_timer::{
    centered_offset, get_ended_timer_state, get_timer_state, next_timer_cycle, reset_timer, toggle_timer,
    update_pomodoro_state, EngineState, Pomodoro, Settings, TimerEngine, TimerMode,
    TimerStatePayload, TICK_INTERVAL_MS,
};

fn settings(work_ms: u64, relax_ms: u64, sound: Option<bool>) -> Settings {
    Settings { work_duration_ms: work_ms, relax_duration_ms: relax_ms, should_play_sound: sound }
}

/// Ticks a running engine at the scheduler's cadence until it completes;
/// returns the number of completions seen over `max_ticks` ticks.
fn count_completions(engine: &mut TimerEngine, max_ticks: usize) -> usize {
    let mut n = 0;
    for _ in 0..max_ticks {
        if engine.tick(TICK_INTERVAL_MS) {
            n += 1;
        }
    }
    n
}

#[test]
fn work_moves_to_relax_with_same_count() {
    let r = update_pomodoro_state(&Pomodoro { mode: TimerMode::Work, cycles: 3 });
    assert_eq!(r, Pomodoro { mode: TimerMode::Relax, cycles: 3 });
}

#[test]
fn relax_moves_to_work_and_counts_a_cycle() {
    let r = update_pomodoro_state(&Pomodoro { mode: TimerMode::Relax, cycles: 0 });
    assert_eq!(r, Pomodoro { mode: TimerMode::Work, cycles: 1 });
}

#[test]
fn two_transitions_return_to_the_same_mode_one_cycle_later() {
    for start in [
        Pomodoro { mode: TimerMode::Work, cycles: 0 },
        Pomodoro { mode: TimerMode::Relax, cycles: 7 },
    ] {
        let twice = update_pomodoro_state(&update_pomodoro_state(&start));
        assert_eq!(twice, Pomodoro { mode: start.mode, cycles: start.cycles + 1 });
    }
}

#[test]
fn new_pomodoro_starts_at_work_zero() {
    assert_eq!(Pomodoro::new(), Pomodoro { mode: TimerMode::Work, cycles: 0 });
}

#[test]
fn duration_follows_the_mode() {
    let s = settings(1_500_000, 300_000, None);
    assert_eq!(Pomodoro { mode: TimerMode::Work, cycles: 0 }.duration(&s), 1_500_000);
    assert_eq!(Pomodoro { mode: TimerMode::Relax, cycles: 0 }.duration(&s), 300_000);
}

#[test]
fn default_settings_are_twenty_five_and_five_minutes() {
    let s = Settings::default();
    assert_eq!(s.work_duration_ms, 1_500_000);
    assert_eq!(s.relax_duration_ms, 300_000);
    assert_eq!(s.should_play_sound, Some(true));
}

#[test]
fn toggle_twice_restores_running() {
    let mut e = TimerEngine::new(5_000);
    let before = e.snapshot();
    assert!(e.toggle());
    assert!(e.is_running());
    assert!(!e.toggle());
    assert_eq!(e.snapshot(), before);
}

#[test]
fn reset_stops_and_resume_starts_with_full_duration() {
    let mut e = TimerEngine::new(10);
    e.resume();
    e.tick(5);
    e.reset(42_000);
    assert!(!e.is_running());
    assert_eq!(e.remaining_ms(), 42_000);
    e.resume();
    assert!(e.is_running());
    assert_eq!(e.remaining_ms(), 42_000);
}

#[test]
fn tick_decrements_only_while_running() {
    let mut e = TimerEngine::new(1_000);
    assert!(!e.tick(100));
    assert_eq!(e.remaining_ms(), 1_000);
    e.resume();
    assert!(!e.tick(100));
    assert_eq!(e.remaining_ms(), 900);
}

#[test]
fn countdown_completes_exactly_once() {
    let mut e = TimerEngine::new(0);
    e.reset(250);
    e.resume();
    assert!(!e.tick(TICK_INTERVAL_MS));
    assert!(!e.tick(TICK_INTERVAL_MS));
    let _ = e.is_running();
    let _ = e.remaining_ms();
    assert!(e.tick(TICK_INTERVAL_MS));
    assert_eq!(e.snapshot(), EngineState { remaining_ms: 0, running: false });
    assert_eq!(count_completions(&mut e, 50), 0);
}

#[test]
fn zero_duration_completes_on_first_tick() {
    let mut e = TimerEngine::new(0);
    e.resume();
    assert!(e.tick(TICK_INTERVAL_MS));
    assert!(!e.is_running());
}

#[test]
fn later_reset_wins() {
    let mut e = TimerEngine::new(1);
    e.resume();
    e.reset(3_000);
    e.reset(7_000);
    assert_eq!(e.snapshot(), EngineState { remaining_ms: 7_000, running: false });
}

#[test]
fn toggle_timer_flips_running() {
    let mut e = TimerEngine::new(1_000);
    assert!(toggle_timer(&mut e));
    assert!(!toggle_timer(&mut e));
}

#[test]
fn reset_timer_restarts_current_phase() {
    let s = settings(1_500_000, 300_000, Some(true));
    let p = Pomodoro { mode: TimerMode::Relax, cycles: 2 };
    let mut e = TimerEngine::new(10);
    let payload = reset_timer(&s, &p, &mut e);
    assert_eq!(
        payload,
        TimerStatePayload { mode: TimerMode::Relax, cycle: 2, is_ended: false, duration_secs: 300 }
    );
    assert_eq!(e.snapshot(), EngineState { remaining_ms: 300_000, running: true });
}

#[test]
fn get_timer_state_truncates_to_whole_seconds() {
    let s = settings(1_500, 2_999, None);
    let payload = get_timer_state(&s, &Pomodoro { mode: TimerMode::Work, cycles: 4 });
    assert_eq!(
        payload,
        TimerStatePayload { mode: TimerMode::Work, cycle: 4, is_ended: false, duration_secs: 1 }
    );
    let payload = get_timer_state(&s, &Pomodoro { mode: TimerMode::Relax, cycles: 4 });
    assert_eq!(payload.duration_secs, 2);
}

#[test]
fn scenario_work_completion_then_advance_to_relax() {
    let s = settings(1_500_000, 300_000, Some(true));
    let mut p = Pomodoro::new();
    let mut e = TimerEngine::new(0);
    e.reset(1_500_000);
    e.resume();
    assert!(e.is_running());
    assert_eq!(count_completions(&mut e, 15_000), 1);
    assert!(!e.is_running());
    assert_eq!(e.remaining_ms(), 0);
    let payload = next_timer_cycle(&s, &mut p, &mut e).unwrap();
    assert_eq!(p, Pomodoro { mode: TimerMode::Relax, cycles: 0 });
    assert_eq!(p.duration(&s), s.relax_duration_ms);
    assert_eq!(payload.duration_secs, 300);
    assert_eq!(e.snapshot(), EngineState { remaining_ms: 300_000, running: true });
}

#[test]
fn scenario_next_cycle_from_relax() {
    let s = Settings::default();
    let mut p = Pomodoro { mode: TimerMode::Relax, cycles: 0 };
    let mut e = TimerEngine::new(0);
    let payload = next_timer_cycle(&s, &mut p, &mut e).unwrap();
    assert_eq!(p, Pomodoro { mode: TimerMode::Work, cycles: 1 });
    assert_eq!(
        payload,
        TimerStatePayload { mode: TimerMode::Work, cycle: 1, is_ended: false, duration_secs: 1_500 }
    );
}

#[test]
fn scenario_four_completions_count_two_cycles() {
    let s = settings(300, 200, Some(true));
    let mut p = Pomodoro::new();
    let mut e = TimerEngine::new(0);
    reset_timer(&s, &p, &mut e);
    for _ in 0..4 {
        assert_eq!(count_completions(&mut e, 3), 1);
        assert!(next_timer_cycle(&s, &mut p, &mut e).is_some());
    }
    assert_eq!(p, Pomodoro { mode: TimerMode::Work, cycles: 2 });
}

#[test]
fn scenario_muted_completion_still_signals() {
    let s = settings(100, 100, Some(false));
    let p = Pomodoro::new();
    let mut e = TimerEngine::new(0);
    reset_timer(&s, &p, &mut e);
    assert!(e.tick(TICK_INTERVAL_MS));
    assert!(!s.should_ring_bell());
}

#[test]
fn bell_rings_only_when_switched_on() {
    assert!(settings(1, 1, Some(true)).should_ring_bell());
    assert!(!settings(1, 1, Some(false)).should_ring_bell());
    assert!(!settings(1, 1, None).should_ring_bell());
}

#[test]
fn next_cycle_refuses_to_overflow_the_count() {
    let s = Settings::default();
    let start = Pomodoro { mode: TimerMode::Relax, cycles: u32::MAX };
    let mut p = start;
    let mut e = TimerEngine::new(123);
    assert_eq!(next_timer_cycle(&s, &mut p, &mut e), None);
    assert_eq!(p, start);
    assert_eq!(e.snapshot(), EngineState { remaining_ms: 123, running: false });
}

#[test]
fn centered_offset_halves_the_slack() {
    assert_eq!(centered_offset(1920, 800), 560);
    assert_eq!(centered_offset(1081, 80), 500);
    assert_eq!(centered_offset(600, 600), 0);
}

#[test]
fn ended_state_is_marked_ended() {
    let s = settings(60_000, 30_000, None);
    let p = Pomodoro { mode: TimerMode::Relax, cycles: 5 };
    assert_eq!(
        get_ended_timer_state(&s, &p),
        TimerStatePayload { mode: TimerMode::Relax, cycle: 5, is_ended: true, duration_secs: 30 }
    );
}
