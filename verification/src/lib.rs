//! Rules engine for a hidden-role, turn-based social deduction game:
//! role assignment, a repeating president/chancellor election cycle, law
//! enactment, executive powers, veto negotiation, win-condition detection,
//! and a per-observer information-hiding projection of the game state.

pub mod board;
pub mod game;
pub mod laws;
pub mod messages;
mod rng;
pub mod types;
pub mod view;
