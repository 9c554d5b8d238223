//! What loading a module reports back.
use vstd::prelude::*;

verus! {

/// Report of a module loaded for exploration.
#[derive(Debug)]
pub struct LoadModuleResult {
    pub message: String,
    pub module_name: String,
    pub level_range: (u32, u32),
    pub room_count: usize,
}

} // verus!
