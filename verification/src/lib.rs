//! A two-player battleship match as a verified state machine.
//!
//! The match keeps, for each player, a fleet commitment, the cells of their
//! board that the opponent has targeted and the outcome of every resolved
//! shot. Shots are fired in turns and resolved by the defender, whose answer
//! is only recorded when the accompanying proof is accepted. Calls owed to the
//! session registry are handed back to the caller as values.

pub mod board;
pub mod contract;
pub mod game;
pub mod host;
pub mod laws;
pub mod model;
pub mod oracle;
pub mod player;
pub mod types;

pub use contract::BattleshipContract;
pub use game::Game;
pub use player::PlayerState;
pub use types::{GameError, GamePhase, HubCall, Identity, PendingShot, Resolution, ShotRecord};
