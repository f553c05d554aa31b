//! The turn timer: a one-shot notifier and the subscribers that watch it.

pub mod observer;
pub mod turn_timer;
