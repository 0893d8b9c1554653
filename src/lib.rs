//! Link-quality monitoring: a time-bounded window of probe outcomes, per-condition
//! alert cooldowns, and the per-cycle decisions that tie them together.
//!
//! Time is measured in whole milliseconds since the monitor started.

pub mod sample;
pub mod window;
pub mod gate;
pub mod monitor;
