//! Looking up rules references: spell lists, magic items and spells.
pub mod actions;
pub mod results;
