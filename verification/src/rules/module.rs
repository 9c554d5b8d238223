//! Adventure modules: keyed rooms with their exits, monsters, treasure and
//! traps, grouped into dungeon levels.
use vstd::prelude::*;

use crate::state::dungeon::{DoorState, TrapTrigger};

verus! {

/// What joins two rooms.
#[derive(Clone, Copy, Debug, PartialEq, Eq, Structural)]
pub enum ConnectionType {
    Door,
    Stairs,
    Pit,
}

/// A way out of a room.
#[derive(Clone, Debug)]
pub struct ModuleExit {
    /// Key of the room it leads to.
    pub to: String,
    pub door: DoorState,
    pub connection_type: ConnectionType,
}

/// Monsters that a module places in a room.
#[derive(Clone, Debug)]
pub struct PlacedMonster {
    pub name: String,
    pub count: u32,
    pub undead: Option<bool>,
}

/// Treasure that a module places in a room.
#[derive(Clone, Debug)]
pub enum PlacedTreasure {
    Coins { gp: u32 },
    Item { item: String, value_gp: u32 },
}

/// A room of a module.
#[derive(Clone, Debug)]
pub struct ModuleRoom {
    pub name: String,
    pub description: String,
    pub trap: Option<String>,
    pub trap_trigger: TrapTrigger,
    pub monsters: Vec<PlacedMonster>,
    pub treasure: Vec<PlacedTreasure>,
    pub exits: Vec<ModuleExit>,
}

/// A dungeon level of a module and the keys of its rooms.
#[derive(Clone, Debug)]
pub struct ModuleLevel {
    pub name: String,
    pub dungeon_level: u32,
    pub wandering_table: Option<String>,
    pub rooms: Vec<String>,
}

/// An adventure module: its rooms by key, the room the party enters by, and
/// its levels by key.
#[derive(Debug)]
pub struct ModuleDef {
    pub name: String,
    pub level_range: (u32, u32),
    pub entry_room: String,
    pub rooms: Vec<(String, ModuleRoom)>,
    pub levels: Vec<(String, ModuleLevel)>,
}

/// A module names each room and each level once.
pub open spec fn module_wf(m: ModuleDef) -> bool {
    &&& forall|i: int, j: int|
        0 <= i < j < m.rooms@.len() ==> (#[trigger] m.rooms@[i]).0@ != (#[trigger] m.rooms@[j]).0@
    &&& forall|i: int, j: int|
        0 <= i < j < m.levels@.len() ==> (#[trigger] m.levels@[i]).0@ != (#[trigger] m.levels@[j]).0@
}

} // verus!
