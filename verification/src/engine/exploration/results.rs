//! What the exploration actions report back to their callers.
use vstd::prelude::*;

use crate::bestiary::{bestiary_index, find_monster};
use crate::state::dungeon::{DoorState, PlacedMonsterInstance, PlacedTreasureInstance};
use crate::state::effect::texts;
use crate::text::{append_nat, nat_text};

use super::{ExplorationResult, WanderingEncounter, result_text};

verus! {

/// A wandering monster check that came up: the roll to look up on the
/// encounter table of the dungeon level.
#[derive(Clone, Copy, Debug, PartialEq, Eq, Structural)]
pub struct EncounterResult {
    pub level: u32,
    pub table_roll: u32,
}

/// Report of an exploration step, with what to do next.
#[derive(Debug)]
pub struct ExplorationActionResult {
    pub message: String,
    pub messages: Vec<String>,
    pub has_encounter: bool,
    pub encounter: Option<EncounterResult>,
    /// With an encounter or placed monsters, the commands that resolve them.
    pub next_steps: Vec<String>,
    pub placed_monsters: Option<Vec<PlacedMonsterInstance>>,
    pub placed_treasure: Option<Vec<PlacedTreasureInstance>>,
}

pub type MoveThroughDoorResult = ExplorationActionResult;

pub type AdvanceDungeonTurnResult = ExplorationActionResult;

pub type SearchRoomResult = ExplorationActionResult;

pub type ListenAtDoorResult = ExplorationActionResult;

/// Guidance when a wandering monster turns up.
pub open spec fn encounter_guidance() -> Seq<char> {
    "ENCOUNTER RESOLUTION REQUIRED: Use SpawnMonster to fight, RollReaction to parley, or Evade to flee."@
}

/// Guidance when placed monsters are met.
pub open spec fn placed_guidance() -> Seq<char> {
    "PLACED MONSTERS: Use SpawnMonster to fight, or RollReaction to parley."@
}

/// Commands that resolve a wandering monster.
pub open spec fn encounter_steps(e: Option<WanderingEncounter>) -> Seq<Seq<char>> {
    match e {
        Some(w) => seq![
            "Roll "@ + nat_text(w.table_roll as nat) + " on the level "@ + nat_text(w.level as nat)
                + " encounter table, then SpawnMonster {name: \"<monster>\", count: <number appearing>, distance: 2d6×10} to start combat"@,
            "RollReaction {character: \"<name>\"} to check monster attitude"@,
            "Evade {monster_count: <n>, monster_movement: <mv>} to attempt escape"@,
        ],
        None => Seq::empty(),
    }
}

/// The command that brings placed monsters into a combat.
pub open spec fn placed_step(p: PlacedMonsterInstance) -> Seq<char> {
    if bestiary_index(p.name@) is Some {
        "SpawnMonster {name: \""@ + p.name@ + "\", count: "@ + nat_text(p.count as nat)
            + ", distance: 10} to start combat"@
    } else {
        "SpawnEncounter {name: \""@ + p.name@ + "\", count: "@ + nat_text(p.count as nat)
            + ", hit_dice: <HD>, ac: <AC>, hp: <HP>, damage: \"<dmg>\", morale: <M>, distance: 10} — not in core DB, provide stats from module"@
    }
}

/// Whether a step met placed monsters.
pub open spec fn met_placed(r: ExplorationResult) -> bool {
    r.placed_monsters matches Some(v) && v@.len() > 0
}

/// The commands for the placed monsters met.
pub open spec fn placed_steps(r: ExplorationResult) -> Seq<Seq<char>> {
    match r.placed_monsters {
        Some(v) => v@.map_values(|p: PlacedMonsterInstance| placed_step(p)),
        None => Seq::empty(),
    }
}

/// The guidance added to a step's report, if any.
pub open spec fn guidance_lines(r: ExplorationResult) -> Seq<Seq<char>> {
    if r.encounter is Some {
        seq![encounter_guidance()]
    } else if met_placed(r) {
        seq![placed_guidance()]
    } else {
        Seq::empty()
    }
}

fn push_text(v: &mut Vec<String>, s: String)
    ensures
        texts(final(v)@) == texts(old(v)@).push(s@),
{
    let ghost v0 = texts(v@);
    v.push(s);
    proof {
        assert(texts(v@) =~= v0.push(s@));
    }
}

fn placed_step_text(p: &PlacedMonsterInstance) -> (r: String)
    ensures
        r@ == placed_step(*p),
{
    let known = find_monster(p.name.as_str()).is_some();
    let mut s = String::new();
    if known {
        s.append("SpawnMonster {name: \"");
        s.append(p.name.as_str());
        s.append("\", count: ");
        append_nat(&mut s, p.count as u64);
        s.append(", distance: 10} to start combat");
    } else {
        s.append("SpawnEncounter {name: \"");
        s.append(p.name.as_str());
        s.append("\", count: ");
        append_nat(&mut s, p.count as u64);
        s.append(
            ", hit_dice: <HD>, ac: <AC>, hp: <HP>, damage: \"<dmg>\", morale: <M>, distance: 10} — not in core DB, provide stats from module",
        );
    }
    s
}

/// `r` reports exploration step `value`: its display followed by the
/// guidance, if any; the commands that resolve a wandering monster or the
/// placed monsters met; the encounter, monsters and treasure themselves.
pub open spec fn reported(value: ExplorationResult, r: ExplorationActionResult) -> bool {
    &&& r.has_encounter == value.encounter is Some
    &&& r.encounter == match value.encounter {
        Some(e) => Some(EncounterResult { level: e.level, table_roll: e.table_roll }),
        None => None::<EncounterResult>,
    }
    &&& texts(r.next_steps@) == encounter_steps(value.encounter) + if met_placed(value) {
        placed_steps(value)
    } else {
        Seq::empty()
    }
    &&& texts(r.messages@) == texts(value.messages@) + guidance_lines(value)
    &&& r.message@ == result_text(value) + if guidance_lines(value).len() > 0 {
        guidance_lines(value)[0] + "\n"@
    } else {
        Seq::empty()
    }
    &&& r.placed_monsters == value.placed_monsters
    &&& r.placed_treasure == value.placed_treasure
}

impl ExplorationActionResult {
    /// The report of an exploration step: its display, with guidance and the
    /// commands to resolve a wandering monster or placed monsters.
    pub fn from_exploration(value: ExplorationResult) -> (r: ExplorationActionResult)
        ensures
            reported(value, r),
    {
        let base = value.to_string();
        let encounter = match value.encounter {
            Some(e) => Some(EncounterResult { level: e.level, table_roll: e.table_roll }),
            None => None,
        };
        let mut next_steps: Vec<String> = Vec::new();
        match value.encounter {
            Some(w) => {
                let mut first = String::from_str("Roll ");
                append_nat(&mut first, w.table_roll as u64);
                first.append(" on the level ");
                append_nat(&mut first, w.level as u64);
                first.append(
                    " encounter table, then SpawnMonster {name: \"<monster>\", count: <number appearing>, distance: 2d6×10} to start combat",
                );
                push_text(&mut next_steps, first);
                push_text(&mut next_steps, String::from_str("RollReaction {character: \"<name>\"} to check monster attitude"));
                push_text(
                    &mut next_steps,
                    String::from_str("Evade {monster_count: <n>, monster_movement: <mv>} to attempt escape"),
                );
            },
            None => {},
        }
        proof {
            assert(texts(next_steps@) =~= encounter_steps(value.encounter));
        }
        let ghost s0 = texts(next_steps@);
        let mut placed = false;
        match &value.placed_monsters {
            Some(v) => {
                if v.len() > 0 {
                    placed = true;
                    let mut i: usize = 0;
                    while i < v.len()
                        invariant
                            i <= v@.len(),
                            texts(next_steps@) == s0 + v@.take(i as int).map_values(|p: PlacedMonsterInstance| placed_step(p)),
                        decreases v@.len() - i,
                    {
                        let ghost before = texts(next_steps@);
                        push_text(&mut next_steps, placed_step_text(&v[i]));
                        proof {
                            assert(v@.take(i as int + 1).map_values(|p: PlacedMonsterInstance| placed_step(p)) =~= v@.take(
                                i as int,
                            ).map_values(|p: PlacedMonsterInstance| placed_step(p)).push(placed_step(v@[i as int])));
                        }
                        i = i + 1;
                    }
                    proof {
                        assert(v@.take(v@.len() as int) =~= v@);
                    }
                }
            },
            None => {},
        }
        proof {
            assert(placed == met_placed(value));
            if !placed {
                assert(texts(next_steps@) =~= s0 + Seq::<Seq<char>>::empty());
            }
        }
        let mut messages = value.messages;
        let mut message = base;
        if encounter.is_some() {
            let g = String::from_str(
                "ENCOUNTER RESOLUTION REQUIRED: Use SpawnMonster to fight, RollReaction to parley, or Evade to flee.",
            );
            message.append(g.as_str());
            message.append("\n");
            push_text(&mut messages, g);
        } else if placed {
            let g = String::from_str("PLACED MONSTERS: Use SpawnMonster to fight, or RollReaction to parley.");
            message.append(g.as_str());
            message.append("\n");
            push_text(&mut messages, g);
        } else {
            proof {
                assert(texts(messages@) =~= texts(value.messages@) + guidance_lines(value));
            }
        }
        let ghost v = value;
        let r = ExplorationActionResult {
            message,
            messages,
            has_encounter: encounter.is_some(),
            encounter,
            next_steps,
            placed_monsters: value.placed_monsters,
            placed_treasure: value.placed_treasure,
        };
        proof {
            assert(r.has_encounter == v.encounter is Some);
            assert(texts(r.next_steps@) == encounter_steps(v.encounter) + if met_placed(v) {
                placed_steps(v)
            } else {
                Seq::empty()
            });
            assert(texts(r.messages@) == texts(v.messages@) + guidance_lines(v));
            assert(r.message@ == result_text(v) + if guidance_lines(v).len() > 0 {
                guidance_lines(v)[0] + "\n"@
            } else {
                Seq::empty()
            });
        }
        r
    }
}

/// Report of an attempt to force a door.
#[derive(Clone, Debug)]
pub struct ForceDoorResult {
    pub message: String,
    pub door_id: u32,
    pub character: String,
    pub forced_open: bool,
}

/// Report of entering a dungeon.
#[derive(Clone, Debug)]
pub struct EnterDungeonResult {
    pub message: String,
    pub level: u32,
    pub room_name: String,
}

/// Report of a light source lit.
#[derive(Clone, Debug)]
pub struct LightResult {
    pub message: String,
    pub source: String,
    pub carrier: String,
    pub duration_turns: u32,
}

/// Report of a turn of rest.
#[derive(Clone, Debug)]
pub struct RestResult {
    pub message: String,
    pub total_turns: u32,
}

/// Report of a room added.
#[derive(Clone, Debug)]
pub struct AddRoomResult {
    pub message: String,
    pub room_id: u32,
    pub name: String,
}

/// Report of a door added.
#[derive(Clone, Debug)]
pub struct AddDoorResult {
    pub message: String,
    pub door_id: u32,
    pub room_a: u32,
    pub room_b: u32,
    pub door_state: DoorState,
}

/// Report of opening a door: forcing it if needed, then walking through.
#[derive(Clone, Debug)]
pub struct OpenDoorResult {
    pub message: String,
    pub door_id: u32,
    pub steps: Vec<String>,
    pub forced: bool,
    pub moved: bool,
}

/// Report of an attempt to pick a lock.
#[derive(Clone, Debug)]
pub struct PickLockResult {
    pub message: String,
    pub door_id: u32,
    pub character: String,
    pub success: bool,
}

/// Report of the exploration status.
#[derive(Clone, Debug)]
pub struct ExplorationStatusResult {
    pub message: String,
}

/// Report of a look around the party's room.
#[derive(Clone, Debug)]
pub struct LookResult {
    pub message: String,
    pub room_id: u32,
    pub room_name: String,
    pub description: String,
}

} // verus!
