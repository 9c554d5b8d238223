//! Loading adventure modules into a dungeon to explore.
pub mod actions;
pub mod results;
