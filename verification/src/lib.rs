//! A turn-based falling-block puzzle engine.
//!
//! The board and piece state machine, the turn timer with its subscribers, the
//! decisions of input collection and of the turn coordinator, and the text view
//! of the board, each with a machine-checked contract.

pub mod geometry;
pub mod models;
pub mod laws;
pub mod std_specs;
pub mod turn_timer;
pub mod ui;
pub mod game;
pub mod views;
