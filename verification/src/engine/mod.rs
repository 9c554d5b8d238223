//! The rules engine: character generation, combat, encounters and the
//! game master's tools.
pub mod chargen;
pub mod combat;
pub mod encounter;
pub mod encounter_engine;
pub mod exploration;
pub mod gm;
pub mod inventory;
pub mod lookup;
pub mod module;
pub mod retainer;
pub mod xp;
