//! Buying, dropping, equipping and looting items.
pub mod actions;
pub mod results;

pub use actions::{action_buy, action_drop, action_equip, action_list_equipment, action_loot};
