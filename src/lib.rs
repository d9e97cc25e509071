//! A Pomodoro timer core: the work/relax cycle state machine, the duration
//! resolver, the countdown engine and the commands that tie them together.

pub mod commands;
pub mod cycle;
pub mod engine;
pub mod settings;

pub use commands::{
    centered_offset, get_ended_timer_state, get_timer_state, next_timer_cycle, reset_timer,
    toggle_timer, TimerStatePayload,
};
pub use cycle::{update_pomodoro_state, Pomodoro, TimerMode};
pub use engine::{EngineState, TimerEngine, TICK_INTERVAL_MS};
pub use settings::Settings;
