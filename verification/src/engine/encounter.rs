//! Encounter actions on the game state: surprise, reactions and evasion.
pub mod actions;
pub mod results;

pub use actions::{action_evade, action_roll_reaction, action_roll_surprise};
