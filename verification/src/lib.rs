use vstd::prelude::*;

pub mod text;
pub mod model;
pub mod rules;
pub mod equipment;
pub mod bestiary;
pub mod dice;
pub mod state;
pub mod engine;
