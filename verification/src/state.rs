//! The game as a whole: the party, the current mode, an active combat,
//! session notes and hirelings.
use vstd::prelude::*;

pub mod dungeon;
pub mod effect;
pub mod time;

use crate::bestiary::ModuleMonsters;
use crate::model::{ActiveEffect, Character, Class, CombatState, hp_alive};
use dungeon::DungeonState;
use time::TimeTracker;
use crate::text::{eq_ignore_case, eq_ignore_ascii_case};

verus! {

/// What the party is doing.
#[derive(Clone, Copy, Debug, PartialEq, Eq, Structural)]
pub enum GameMode {
    Idle,
    Exploration,
    Wilderness,
    Combat,
    /// Between adventures.
    Downtime,
    /// A character is being created.
    CharGen,
}

/// Why an engine action was refused.
#[derive(Clone, Debug)]
pub enum EngineError {
    /// The action does not fit the current state of the game.
    WrongState(String),
    /// An argument of the action is not acceptable.
    InvalidInput(String),
    /// An internal table or rule could not be applied.
    Internal(String),
}

/// The text carried by an error.
pub open spec fn error_text(e: EngineError) -> Seq<char> {
    match e {
        EngineError::WrongState(m) => m@,
        EngineError::InvalidInput(m) => m@,
        EngineError::Internal(m) => m@,
    }
}

impl EngineError {
    /// The explanation carried by the error.
    pub fn to_string(&self) -> (r: String)
        ensures
            r@ == error_text(*self),
    {
        match self {
            EngineError::WrongState(m) => m.clone(),
            EngineError::InvalidInput(m) => m.clone(),
            EngineError::Internal(m) => m.clone(),
        }
    }
}

/// A hired retainer.
#[derive(Clone, Debug)]
pub struct Retainer {
    pub name: String,
    pub class: Class,
    pub level: u32,
    pub hp: i32,
    pub max_hp: i32,
    pub loyalty: u32,
    pub wage_gp: u32,
}

impl Retainer {
    pub fn is_alive(&self) -> (r: bool)
        ensures
            r == hp_alive(self.hp),
    {
        self.hp > 0
    }
}

/// The adventuring party.
#[derive(Clone, Debug)]
pub struct Party {
    pub members: Vec<Character>,
    pub rations: u32,
}

/// Whether member `i` of `members` is the first one named `name` (ASCII case ignored).
pub open spec fn first_member_named(members: Seq<Character>, name: Seq<char>, i: int) -> bool {
    &&& 0 <= i < members.len()
    &&& eq_ignore_case(members[i].name@, name)
    &&& forall|j: int| 0 <= j < i ==> !eq_ignore_case(#[trigger] members[j].name@, name)
}

/// Whether no member of `members` is named `name` (ASCII case ignored).
pub open spec fn no_member_named(members: Seq<Character>, name: Seq<char>) -> bool {
    forall|j: int| 0 <= j < members.len() ==> !eq_ignore_case(#[trigger] members[j].name@, name)
}

/// Position of the first member of `members` from `i` on named `name` (ASCII case ignored).
pub open spec fn member_index_from(members: Seq<Character>, name: Seq<char>, i: int) -> Option<int>
    decreases members.len() - i,
{
    if i < 0 || i >= members.len() {
        None
    } else if eq_ignore_case(members[i].name@, name) {
        Some(i)
    } else {
        member_index_from(members, name, i + 1)
    }
}

/// Position of the first member of `members` named `name` (ASCII case ignored).
pub open spec fn member_index(members: Seq<Character>, name: Seq<char>) -> Option<int> {
    member_index_from(members, name, 0)
}

impl Party {
    pub fn new() -> (r: Party)
        ensures
            r.members@.len() == 0,
            r.rations == 0,
    {
        Party { members: Vec::new(), rations: 0 }
    }

    /// Adds a member at the end of the party.
    pub fn add_member(&mut self, c: Character)
        ensures
            final(self).members@ == old(self).members@.push(c),
            final(self).rations == old(self).rations,
    {
        self.members.push(c);
    }

    /// Position of the first member with the given name, ASCII case ignored.
    pub fn find_index(&self, name: &str) -> (r: Option<usize>)
        ensures
            match r {
                Some(i) => first_member_named(self.members@, name@, i as int),
                None => no_member_named(self.members@, name@),
            },
            match r {
                Some(i) => member_index(self.members@, name@) == Some(i as int),
                None => member_index(self.members@, name@) is None,
            },
    {
        let mut i: usize = 0;
        while i < self.members.len()
            invariant
                i <= self.members@.len(),
                forall|j: int| 0 <= j < i ==> !eq_ignore_case(#[trigger] self.members@[j].name@, name@),
                member_index(self.members@, name@) == member_index_from(self.members@, name@, i as int),
            decreases self.members@.len() - i,
        {
            if eq_ignore_ascii_case(self.members[i].name.as_str(), name) {
                return Some(i);
            }
            i = i + 1;
        }
        None
    }

    /// The first member with the given name, ASCII case ignored.
    pub fn find_member(&self, name: &str) -> (r: Option<&Character>)
        ensures
            match r {
                Some(c) => exists|i: int|
                    first_member_named(self.members@, name@, i) && *c == #[trigger] self.members@[i],
                None => no_member_named(self.members@, name@),
            },
    {
        match self.find_index(name) {
            Some(i) => Some(&self.members[i]),
            None => None,
        }
    }
}

/// The whole state of a game.
#[derive(Clone, Debug)]
pub struct GameState {
    pub party: Party,
    pub mode: GameMode,
    pub pre_combat_mode: Option<GameMode>,
    pub combat: Option<CombatState>,
    pub notes: Vec<String>,
    pub retainers: Vec<Retainer>,
    pub effects: Vec<ActiveEffect>,
    /// The dungeon being explored, if any.
    pub dungeon: Option<DungeonState>,
    pub dungeon_level: u32,
    /// Monster definitions supplied by the loaded adventure module.
    pub module_monsters: ModuleMonsters,
    /// Time spent exploring, while in a dungeon.
    pub time: Option<TimeTracker>,
}

impl GameState {
    /// A new game: empty party, idle, no combat.
    pub fn new() -> (r: GameState)
        ensures
            r.party.members@.len() == 0,
            r.party.rations == 0,
            r.mode == GameMode::Idle,
            r.pre_combat_mode is None,
            r.combat is None,
            r.notes@.len() == 0,
            r.retainers@.len() == 0,
            r.effects@.len() == 0,
            r.dungeon is None,
            r.dungeon_level == 0,
            r.module_monsters.entries@.len() == 0,
            r.time is None,
    {
        GameState {
            party: Party::new(),
            mode: GameMode::Idle,
            pre_combat_mode: None,
            combat: None,
            notes: Vec::new(),
            retainers: Vec::new(),
            effects: Vec::new(),
            dungeon: None,
            dungeon_level: 0,
            module_monsters: ModuleMonsters::new(),
            time: None,
        }
    }

    /// Starts exploring a dungeon at a level, with the clock at zero.
    pub fn enter_exploration(&mut self, dungeon: DungeonState, level: u32)
        ensures
            final(self).dungeon == Some(dungeon),
            final(self).time matches Some(t) && t.total_turns == 0 && t.turns_since_rest == 0
                && t.lights@.len() == 0,
            final(self).dungeon_level == level,
            final(self).mode == GameMode::Exploration,
            final(self).combat == old(self).combat,
            final(self).pre_combat_mode == old(self).pre_combat_mode,
            final(self).party == old(self).party,
            final(self).notes == old(self).notes,
            final(self).retainers == old(self).retainers,
            final(self).effects == old(self).effects,
            final(self).module_monsters == old(self).module_monsters,
    {
        self.dungeon = Some(dungeon);
        self.time = Some(TimeTracker::new());
        self.dungeon_level = level;
        self.mode = GameMode::Exploration;
    }

    /// Starts a combat, remembering the mode to return to.
    pub fn enter_combat(&mut self, combat: CombatState)
        ensures
            final(self).combat == Some(combat),
            final(self).mode == GameMode::Combat,
            final(self).pre_combat_mode == Some(old(self).mode),
            final(self).party == old(self).party,
            final(self).notes == old(self).notes,
            final(self).retainers == old(self).retainers,
            final(self).effects == old(self).effects,
            final(self).dungeon == old(self).dungeon,
            final(self).dungeon_level == old(self).dungeon_level,
            final(self).module_monsters == old(self).module_monsters,
            final(self).time == old(self).time,
    {
        self.pre_combat_mode = Some(self.mode);
        self.mode = GameMode::Combat;
        self.combat = Some(combat);
    }

    /// Ends the combat and returns to the mode the game was in before it.
    pub fn exit_combat(&mut self) -> (r: Option<CombatState>)
        ensures
            r == old(self).combat,
            final(self).combat is None,
            old(self).combat is Some ==> final(self).mode == (match old(self).pre_combat_mode {
                Some(m) => m,
                None => GameMode::Idle,
            }),
            old(self).combat is Some ==> final(self).pre_combat_mode is None,
            old(self).combat is None ==> final(self).mode == old(self).mode
                && final(self).pre_combat_mode == old(self).pre_combat_mode,
            final(self).party == old(self).party,
            final(self).notes == old(self).notes,
            final(self).retainers == old(self).retainers,
            final(self).effects == old(self).effects,
            final(self).dungeon == old(self).dungeon,
            final(self).dungeon_level == old(self).dungeon_level,
            final(self).module_monsters == old(self).module_monsters,
            final(self).time == old(self).time,
    {
        let combat = self.combat.take();
        if combat.is_some() {
            self.mode = match self.pre_combat_mode {
                Some(m) => m,
                None => GameMode::Idle,
            };
            self.pre_combat_mode = None;
        }
        combat
    }
}

} // verus!
