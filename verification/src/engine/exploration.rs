//! Dungeon exploration: turns of movement, searching, listening at and
//! forcing doors, picking locks, traps, wandering monster checks and the
//! monsters and treasure an adventure places in rooms.
use vstd::prelude::*;

pub mod actions;
pub mod results;

use crate::dice::random_between;
use crate::model::Character;
use crate::rules::{open_doors_of, open_locks_chance, open_locks_of, str_open_doors};
use crate::state::dungeon::{
    Door, DoorState, DungeonState, PlacedMonsterInstance, PlacedTreasureInstance, Room, TrapTrigger,
    current_room_name, door_index, doors_from_current_spec, dungeon_status_text, explored_current,
    all_met, lemma_door_index, level_after, level_key_after, lemma_room_index, no_room_text, room_index, room_replaced,
};
use crate::state::effect::texts;
use crate::state::time::{
    TURNS_BEFORE_REST, TimeTracker, burnt_out_messages, light_lines, lights_after_turn,
    time_status_text,
};
use crate::text::{append_nat, nat_text};

verus! {

/// A wandering monster check that came up: the roll, from 1 to 40, to look
/// up on the encounter table of the dungeon level.
#[derive(Clone, Copy, Debug, PartialEq, Eq, Structural)]
pub struct WanderingEncounter {
    pub level: u32,
    pub table_roll: u32,
}

/// What an exploration step produced.
#[derive(Debug)]
pub struct ExplorationResult {
    pub messages: Vec<String>,
    /// A wandering monster check that came up.
    pub encounter: Option<WanderingEncounter>,
    /// Placed monsters met on entering a room.
    pub placed_monsters: Option<Vec<PlacedMonsterInstance>>,
    /// Placed treasure found by a search.
    pub placed_treasure: Option<Vec<PlacedTreasureInstance>>,
}

/// Report line of a wandering monster check that came up.
pub open spec fn wandering_text(e: WanderingEncounter) -> Seq<char> {
    "Wandering monster! (roll "@ + nat_text(e.table_roll as nat) + " on the level "@ + nat_text(
        e.level as nat,
    ) + " encounter table)"@
}

/// Report lines of a wandering monster check.
pub open spec fn encounter_lines(e: Option<WanderingEncounter>) -> Seq<Seq<char>> {
    match e {
        Some(w) => seq![wandering_text(w)],
        None => Seq::empty(),
    }
}

/// What a wandering monster check can give on turn `turn` at level `level`:
/// nothing on odd turns, else perhaps a roll from 1 to 40.
pub open spec fn wandering_possible(e: Option<WanderingEncounter>, turn: u32, level: u32) -> bool {
    &&& turn % 2 != 0 ==> e is None
    &&& e matches Some(w) ==> w.level == level && 1 <= w.table_roll <= 40
}

/// What a wandering monster check gives from its dice: on an even turn a 1
/// on the d6 brings a monster, to be looked up with the d40 roll on the
/// level's encounter table; otherwise nothing.
pub open spec fn wandering_outcome(turn: u32, level: u32, d6: u32, d40: u32) -> Option<WanderingEncounter> {
    if turn % 2 == 0 && d6 == 1 {
        Some(WanderingEncounter { level, table_roll: d40 })
    } else {
        None
    }
}

/// Decides a wandering monster check on turn `turn` from its d6 and d40
/// rolls.
pub fn wandering_from_rolls(turn: u32, level: u32, d6: u32, d40: u32) -> (r: Option<WanderingEncounter>)
    requires
        1 <= d6 <= 6,
        1 <= d40 <= 40,
    ensures
        r == wandering_outcome(turn, level, d6, d40),
        wandering_possible(r, turn, level),
{
    if turn % 2 == 0 && d6 == 1 {
        Some(WanderingEncounter { level, table_roll: d40 })
    } else {
        None
    }
}

/// Rolls the dice of a wandering monster check: a d6, and a d40 when the d6
/// came up 1.
fn wandering_rolls() -> (r: (u32, u32))
    ensures
        1 <= r.0 <= 6,
        1 <= r.1 <= 40,
{
    let d6 = random_between(1, 6);
    let d40 = if d6 == 1 {
        random_between(1, 40)
    } else {
        1
    };
    (d6, d40)
}

/// Every two turns, one chance in six of a wandering monster.
fn check_wandering_monster(time: &TimeTracker, level: u32) -> (r: Option<WanderingEncounter>)
    ensures
        wandering_possible(r, time.total_turns, level),
        exists|d6: u32, d40: u32|
            1 <= d6 <= 6 && 1 <= d40 <= 40 && r == #[trigger] wandering_outcome(time.total_turns, level, d6, d40),
{
    let (d6, d40) = wandering_rolls();
    wandering_from_rolls(time.total_turns, level, d6, d40)
}

fn wandering_message(e: WanderingEncounter) -> (r: String)
    ensures
        r@ == wandering_text(e),
{
    let mut s = String::from_str("Wandering monster! (roll ");
    append_nat(&mut s, e.table_roll as u64);
    s.append(" on the level ");
    append_nat(&mut s, e.level as u64);
    s.append(" encounter table)");
    s
}

/// Appends the wandering monster check's line, if it came up.
fn push_encounter(msgs: &mut Vec<String>, e: Option<WanderingEncounter>)
    ensures
        texts(final(msgs)@) == texts(old(msgs)@) + encounter_lines(e),
{
    let ghost m0 = texts(msgs@);
    match e {
        Some(w) => {
            msgs.push(wandering_message(w));
            proof {
                assert(texts(msgs@) =~= m0 + encounter_lines(e));
            }
        },
        None => {
            proof {
                assert(texts(msgs@) =~= m0 + encounter_lines(e));
            }
        },
    }
}

/// Appends a list of messages.
fn push_all(msgs: &mut Vec<String>, more: Vec<String>)
    ensures
        texts(final(msgs)@) == texts(old(msgs)@) + texts(more@),
{
    let mut more = more;
    let ghost m0 = texts(msgs@);
    let ghost added = texts(more@);
    msgs.append(&mut more);
    proof {
        assert(texts(msgs@) =~= m0 + added);
    }
}

/// Appends one message.
fn push_one(msgs: &mut Vec<String>, m: String)
    ensures
        texts(final(msgs)@) == texts(old(msgs)@).push(m@),
{
    let ghost m0 = texts(msgs@);
    msgs.push(m);
    proof {
        assert(texts(msgs@) =~= m0.push(m@));
    }
}

/// The light summary lines after a turn, when some light burns.
pub open spec fn light_summary_lines(t: TimeTracker) -> Seq<Seq<char>> {
    if t.lights@.len() == 0 {
        Seq::empty()
    } else {
        seq![light_lines(t.lights@)]
    }
}

fn push_light_summary(msgs: &mut Vec<String>, time: &TimeTracker)
    ensures
        texts(final(msgs)@) == texts(old(msgs)@) + light_summary_lines(*time),
{
    let ghost m0 = texts(msgs@);
    match time.light_summary() {
        Some(s) => {
            push_one(msgs, s);
            proof {
                assert(texts(msgs@) =~= m0 + light_summary_lines(*time));
            }
        },
        None => {
            proof {
                assert(texts(msgs@) =~= m0 + light_summary_lines(*time));
            }
        },
    }
}

/// The clock after one more turn.
pub open spec fn turn_passed(t: TimeTracker, t2: TimeTracker) -> bool {
    &&& t2.total_turns == t.total_turns + 1
    &&& t2.turns_since_rest == t.turns_since_rest + 1
    &&& t2.lights@ == lights_after_turn(t.lights@)
}

/// A clock that can run one more turn.
pub open spec fn clock_can_run(t: TimeTracker) -> bool {
    t.total_turns < u32::MAX && t.turns_since_rest < u32::MAX
}

/// Lines reporting darkness when moving.
pub open spec fn move_darkness_lines() -> Seq<Seq<char>> {
    seq![
        "The party is in DARKNESS! Movement is impossible without light."@,
        "Light a torch or lantern before exploring."@,
    ]
}

/// Line reporting that rest is overdue.
pub open spec fn rest_line() -> Seq<char> {
    "The party must rest this turn (1 turn per 5 turns of activity). Penalty: -1 to attack and damage rolls."@
}

/// Line reporting a turn of exploration.
pub open spec fn exploring_line(turn: nat, room: Seq<char>) -> Seq<char> {
    "Turn "@ + nat_text(turn) + ": Exploring "@ + room + "."@
}

/// The messages of a turn of exploration that was not blocked by darkness.
pub open spec fn explore_lines(
    t0: TimeTracker,
    t: TimeTracker,
    d: DungeonState,
    e: Option<WanderingEncounter>,
) -> Seq<Seq<char>> {
    burnt_out_messages(t0.lights@) + (if t.turns_since_rest >= TURNS_BEFORE_REST {
        seq![rest_line()]
    } else {
        Seq::empty()
    }) + seq![exploring_line(t.total_turns as nat, current_room_name(d))] + light_summary_lines(t)
        + encounter_lines(e)
}

pub open spec fn advance_done(t0: TimeTracker, d0: DungeonState, t: TimeTracker, d: DungeonState, r: ExplorationResult, dungeon_level: u32) -> bool {
    &&& turn_passed(t0, t)
    &&& r.placed_monsters is None
    &&& r.placed_treasure is None
    &&& if t.lights@.len() == 0 {
            &&& texts(r.messages@) == burnt_out_messages(t0.lights@) + move_darkness_lines()
            &&& r.encounter is None
            &&& d == d0
        } else {
            &&& explored_current(d0, d)
            &&& wandering_possible(r.encounter, t.total_turns, dungeon_level)
            &&& texts(r.messages@) == explore_lines(t0, t, d, r.encounter)
        }
}

/// One turn of exploring: the clock runs and the lights burn; without
/// light the party cannot move; otherwise the room is marked explored, an
/// overdue rest is reported and a wandering monster is checked for.
pub fn advance_dungeon_turn(time: &mut TimeTracker, dungeon: &mut DungeonState, dungeon_level: u32) -> (r:
    ExplorationResult)
    requires
        clock_can_run(*old(time)),
    ensures
        advance_done(*old(time), *old(dungeon), *final(time), *final(dungeon), r, dungeon_level),
{
    let ghost t0 = *time;
    let mut msgs = time.advance_turn();
    if !time.has_light() {
        push_one(&mut msgs, String::from_str("The party is in DARKNESS! Movement is impossible without light."));
        push_one(&mut msgs, String::from_str("Light a torch or lantern before exploring."));
        proof {
            assert(texts(msgs@) =~= burnt_out_messages(t0.lights@) + move_darkness_lines());
        }
        return ExplorationResult { messages: msgs, encounter: None, placed_monsters: None, placed_treasure: None };
    }
    let ghost m0 = texts(msgs@);
    if time.needs_rest() {
        push_one(
            &mut msgs,
            String::from_str(
                "The party must rest this turn (1 turn per 5 turns of activity). Penalty: -1 to attack and damage rolls.",
            ),
        );
    }
    let ghost m1 = texts(msgs@);
    dungeon.explore_current();
    let mut line = String::from_str("Turn ");
    append_nat(&mut line, time.total_turns as u64);
    line.append(": Exploring ");
    match dungeon.current_room {
        Some(id) => match dungeon.find_room(id) {
            Some(room) => line.append(room.name.as_str()),
            None => line.append("unknown area"),
        },
        None => line.append("unknown area"),
    }
    line.append(".");
    push_one(&mut msgs, line);
    push_light_summary(&mut msgs, time);
    let encounter = check_wandering_monster(time, dungeon_level);
    push_encounter(&mut msgs, encounter);
    proof {
        assert(texts(msgs@) =~= explore_lines(t0, *time, *dungeon, encounter));
    }
    ExplorationResult { messages: msgs, encounter, placed_monsters: None, placed_treasure: None }
}

/// Line reporting that the room has no door to listen at.
pub open spec fn no_door_line() -> Seq<char> {
    "There are no doors to listen at in this room."@
}

/// The messages of listening at a door.
pub open spec fn listen_lines(t0: TimeTracker, t: TimeTracker, heard: bool, e: Option<WanderingEncounter>) -> Seq<
    Seq<char>,
> {
    burnt_out_messages(t0.lights@) + seq![
        if heard {
            "You hear sounds beyond the door!"@
        } else {
            "You hear nothing."@
        },
    ] + light_summary_lines(t) + encounter_lines(e)
}

pub open spec fn listen_done(t0: TimeTracker, dungeon: DungeonState, t: TimeTracker, r: ExplorationResult, dungeon_level: u32) -> bool {
    &&& r.placed_monsters is None
    &&& r.placed_treasure is None
    &&& if doors_from_current_spec(dungeon).len() == 0 {
            &&& texts(r.messages@) == seq![no_door_line()]
            &&& r.encounter is None
            &&& t == t0
        } else {
            &&& turn_passed(t0, t)
            &&& wandering_possible(r.encounter, t.total_turns, dungeon_level)
            &&& (texts(r.messages@) == listen_lines(t0, t, true, r.encounter)
                || texts(r.messages@) == listen_lines(t0, t, false, r.encounter))
        }
}

/// The d6 roll at or under which a listener hears noises: 2 for elves and
/// halflings, 1 for others.
pub open spec fn listen_threshold(is_elf_or_halfling: bool) -> u32 {
    if is_elf_or_halfling {
        2
    } else {
        1
    }
}

/// Listening at a door with the dice already rolled: `roll` is the listener's
/// d6, `w6` and `w40` those of the wandering monster check.
pub open spec fn listen_rolled(
    t0: TimeTracker,
    dungeon: DungeonState,
    t: TimeTracker,
    r: ExplorationResult,
    dungeon_level: u32,
    is_elf_or_halfling: bool,
    roll: u32,
    w6: u32,
    w40: u32,
) -> bool {
    &&& r.placed_monsters is None
    &&& r.placed_treasure is None
    &&& if doors_from_current_spec(dungeon).len() == 0 {
            &&& texts(r.messages@) == seq![no_door_line()]
            &&& r.encounter is None
            &&& t == t0
        } else {
            &&& turn_passed(t0, t)
            &&& r.encounter == wandering_outcome(t.total_turns, dungeon_level, w6, w40)
            &&& texts(r.messages@) == listen_lines(t0, t, roll <= listen_threshold(is_elf_or_halfling), r.encounter)
        }
}

/// Listening at a door of the party's room, given the dice: a turn passes
/// and noises are heard when the d6 `roll` is at most 1 (2 for elves and
/// halflings); the wandering monster check uses `w6` and `w40`. Without a
/// door in sight nothing happens.
pub fn listen_at_door_rolled(
    time: &mut TimeTracker,
    dungeon: &DungeonState,
    dungeon_level: u32,
    is_elf_or_halfling: bool,
    roll: u32,
    w6: u32,
    w40: u32,
) -> (r: ExplorationResult)
    requires
        clock_can_run(*old(time)),
        1 <= roll <= 6,
        1 <= w6 <= 6,
        1 <= w40 <= 40,
    ensures
        listen_rolled(*old(time), *dungeon, *final(time), r, dungeon_level, is_elf_or_halfling, roll, w6, w40),
{
    let doors = dungeon.doors_from_current();
    if doors.len() == 0 {
        let mut msgs: Vec<String> = Vec::new();
        push_one(&mut msgs, String::from_str("There are no doors to listen at in this room."));
        proof {
            assert(texts(msgs@) =~= seq![no_door_line()]);
        }
        return ExplorationResult { messages: msgs, encounter: None, placed_monsters: None, placed_treasure: None };
    }
    let ghost t0 = *time;
    let mut msgs = time.advance_turn();
    let threshold: u32 = if is_elf_or_halfling {
        2
    } else {
        1
    };
    let heard = roll <= threshold;
    if heard {
        push_one(&mut msgs, String::from_str("You hear sounds beyond the door!"));
    } else {
        push_one(&mut msgs, String::from_str("You hear nothing."));
    }
    push_light_summary(&mut msgs, time);
    let encounter = wandering_from_rolls(time.total_turns, dungeon_level, w6, w40);
    push_encounter(&mut msgs, encounter);
    proof {
        assert(texts(msgs@) =~= listen_lines(t0, *time, heard, encounter));
    }
    ExplorationResult { messages: msgs, encounter, placed_monsters: None, placed_treasure: None }
}

/// Listening at a door of the party's room: a turn passes and noises are
/// heard on 1 in 6 (2 in 6 for elves and halflings); a wandering monster is
/// checked for. Without a door in sight nothing happens.
pub fn listen_at_door(time: &mut TimeTracker, dungeon: &DungeonState, dungeon_level: u32, is_elf_or_halfling: bool) -> (r:
    ExplorationResult)
    requires
        clock_can_run(*old(time)),
    ensures
        listen_done(*old(time), *dungeon, *final(time), r, dungeon_level),
        exists|roll: u32, w6: u32, w40: u32|
            1 <= roll <= 6 && 1 <= w6 <= 6 && 1 <= w40 <= 40 && #[trigger] listen_rolled(
                *old(time),
                *dungeon,
                *final(time),
                r,
                dungeon_level,
                is_elf_or_halfling,
                roll,
                w6,
                w40,
            ),
{
    let roll = random_between(1, 6);
    let (w6, w40) = wandering_rolls();
    let r = listen_at_door_rolled(time, dungeon, dungeon_level, is_elf_or_halfling, roll, w6, w40);
    proof {
        if doors_from_current_spec(*dungeon).len() != 0 {
            assert(wandering_possible(r.encounter, time.total_turns, dungeon_level));
        }
    }
    r
}

/// Status of the clock and the dungeon.
pub open spec fn exploration_status_text(t: TimeTracker, d: DungeonState) -> Seq<char> {
    time_status_text(t) + "\n"@ + dungeon_status_text(d)
}

/// The clock's status, then the dungeon's.
pub fn exploration_status(time: &TimeTracker, dungeon: &DungeonState) -> (r: String)
    ensures
        r@ == exploration_status_text(*time, *dungeon),
{
    let mut out = time.status();
    out.append("\n");
    let d = dungeon.status();
    out.append(d.as_str());
    out
}

/// Lines reporting darkness when searching.
pub open spec fn search_darkness_lines() -> Seq<Seq<char>> {
    seq!["The party is in DARKNESS! Cannot search without light."@, "Light a torch or lantern before searching."@]
}

/// Whether a search of room `cur` finds door `d`: a hidden secret door of
/// the room.
pub open spec fn secret_found(d: Door, cur: u32) -> bool {
    &&& d.state == DoorState::Secret
    &&& !d.discovered
    &&& (d.room_a == cur || d.room_b == cur)
}

/// The room on the other side of door `d` from room `cur`.
pub open spec fn other_side(d: Door, cur: u32) -> u32 {
    if d.room_a == cur {
        d.room_b
    } else {
        d.room_a
    }
}

/// Line reporting a secret door found.
pub open spec fn found_door_line(d: Door, cur: u32) -> Seq<char> {
    "Secret door found! Door "@ + nat_text(d.id as nat) + " leads to room "@ + nat_text(
        other_side(d, cur) as nat,
    ) + "."@
}

/// The doors after a successful search of room `cur`: its hidden secret
/// doors are discovered.
pub open spec fn doors_after_search(doors: Seq<Door>, cur: u32) -> Seq<Door> {
    doors.map_values(
        |d: Door|
            if secret_found(d, cur) {
                Door { discovered: true, ..d }
            } else {
                d
            },
    )
}

/// Lines for the secret doors among the first `n` that a search of room
/// `cur` finds.
pub open spec fn found_door_lines(doors: Seq<Door>, cur: u32, n: int) -> Seq<Seq<char>>
    decreases n,
{
    if n <= 0 {
        Seq::empty()
    } else {
        let rest = found_door_lines(doors, cur, n - 1);
        if secret_found(doors[n - 1], cur) {
            rest.push(found_door_line(doors[n - 1], cur))
        } else {
            rest
        }
    }
}

/// The door lines of a search.
pub open spec fn search_door_lines(doors: Seq<Door>, cur: u32, success: bool) -> Seq<Seq<char>> {
    if success {
        let found = found_door_lines(doors, cur, doors.len() as int);
        if found.len() == 0 {
            seq!["Search successful — but nothing hidden found here."@]
        } else {
            found
        }
    } else {
        seq!["Search reveals nothing."@]
    }
}

/// Placed treasure as values: description, worth, taken.
pub open spec fn treasure_view(t: PlacedTreasureInstance) -> (Seq<char>, u32, bool) {
    (t.description@, t.gp_value, t.taken)
}

/// The treasure among the first `n` not yet taken, as values.
pub open spec fn untaken(ts: Seq<PlacedTreasureInstance>, n: int) -> Seq<(Seq<char>, u32, bool)>
    decreases n,
{
    if n <= 0 {
        Seq::empty()
    } else {
        let rest = untaken(ts, n - 1);
        if !ts[n - 1].taken {
            rest.push(treasure_view(ts[n - 1]))
        } else {
            rest
        }
    }
}

/// Line reporting treasure found.
pub open spec fn treasure_line(t: (Seq<char>, u32, bool)) -> Seq<char> {
    "Treasure found: "@ + t.0 + " ("@ + nat_text(t.1 as nat) + "gp)"@
}

/// Whether a search of room `room` turns up its placed treasure.
pub open spec fn treasure_turns_up(room: Room) -> bool {
    !room.treasure_looted && untaken(room.placed_treasure@, room.placed_treasure@.len() as int).len() > 0
}

/// The outcome of a search of room `cur` that succeeded or not.
pub open spec fn search_outcome(
    d0: DungeonState,
    d: DungeonState,
    r: ExplorationResult,
    cur: u32,
    t0: TimeTracker,
    t: TimeTracker,
    level: u32,
    success: bool,
) -> bool {
    let doors = if success {
        doors_after_search(d0.doors@, cur)
    } else {
        d0.doors@
    };
    let found = match room_index(d0.rooms@, cur) {
        Some(k) => if treasure_turns_up(d0.rooms@[k]) {
            untaken(d0.rooms@[k].placed_treasure@, d0.rooms@[k].placed_treasure@.len() as int)
        } else {
            Seq::empty()
        },
        None => Seq::empty(),
    };
    &&& d.doors@ == doors
    &&& match room_index(d0.rooms@, cur) {
        Some(k) => {
            let room = d0.rooms@[k];
            &&& d == DungeonState { doors: d.doors, rooms: d.rooms, ..d0 }
            &&& d.rooms@ == d0.rooms@.update(
                k,
                Room { searched: true, treasure_looted: room.treasure_looted || treasure_turns_up(room), ..room },
            )
        },
        None => d == DungeonState { doors: d.doors, ..d0 },
    }
    &&& match r.placed_treasure {
        Some(v) => found.len() > 0 && v@.map_values(|x: PlacedTreasureInstance| treasure_view(x)) == found,
        None => found.len() == 0,
    }
    &&& wandering_possible(r.encounter, t.total_turns, level)
    &&& texts(r.messages@) == burnt_out_messages(t0.lights@) + search_door_lines(d0.doors@, cur, success)
        + found.map_values(|x: (Seq<char>, u32, bool)| treasure_line(x)) + light_summary_lines(t)
        + encounter_lines(r.encounter)
}

fn copy_untaken(ts: &Vec<PlacedTreasureInstance>) -> (r: Vec<PlacedTreasureInstance>)
    ensures
        r@.map_values(|x: PlacedTreasureInstance| treasure_view(x)) == untaken(ts@, ts@.len() as int),
{
    let mut out: Vec<PlacedTreasureInstance> = Vec::new();
    let mut i: usize = 0;
    while i < ts.len()
        invariant
            i <= ts@.len(),
            out@.map_values(|x: PlacedTreasureInstance| treasure_view(x)) == untaken(ts@, i as int),
        decreases ts@.len() - i,
    {
        let t = &ts[i];
        if !t.taken {
            let ghost before = out@;
            out.push(PlacedTreasureInstance { description: t.description.clone(), gp_value: t.gp_value, taken: t.taken });
            proof {
                assert(out@.map_values(|x: PlacedTreasureInstance| treasure_view(x)) =~= before.map_values(
                    |x: PlacedTreasureInstance| treasure_view(x),
                ).push(treasure_view(*t)));
            }
        }
        i = i + 1;
    }
    out
}

fn push_treasure_lines(msgs: &mut Vec<String>, found: &Vec<PlacedTreasureInstance>)
    ensures
        texts(final(msgs)@) == texts(old(msgs)@) + found@.map_values(|x: PlacedTreasureInstance| treasure_view(x)).map_values(
            |x: (Seq<char>, u32, bool)| treasure_line(x),
        ),
{
    let ghost m0 = texts(msgs@);
    let ghost views = found@.map_values(|x: PlacedTreasureInstance| treasure_view(x));
    let mut i: usize = 0;
    while i < found.len()
        invariant
            i <= found@.len(),
            views == found@.map_values(|x: PlacedTreasureInstance| treasure_view(x)),
            texts(msgs@) == m0 + views.take(i as int).map_values(|x: (Seq<char>, u32, bool)| treasure_line(x)),
        decreases found@.len() - i,
    {
        let t = &found[i];
        let mut line = String::from_str("Treasure found: ");
        line.append(t.description.as_str());
        line.append(" (");
        append_nat(&mut line, t.gp_value as u64);
        line.append("gp)");
        let ghost before = texts(msgs@);
        push_one(msgs, line);
        proof {
            assert(views.take(i as int + 1) =~= views.take(i as int).push(views[i as int]));
            assert(views.take(i as int + 1).map_values(|x: (Seq<char>, u32, bool)| treasure_line(x)) =~= views.take(
                i as int,
            ).map_values(|x: (Seq<char>, u32, bool)| treasure_line(x)).push(treasure_line(views[i as int])));
        }
        i = i + 1;
    }
    proof {
        assert(views.take(found@.len() as int) =~= views);
    }
}

fn found_door_message(d: Door, cur: u32) -> (r: String)
    ensures
        r@ == found_door_line(d, cur),
{
    let mut line = String::from_str("Secret door found! Door ");
    append_nat(&mut line, d.id as u64);
    line.append(" leads to room ");
    let other = if d.room_a == cur {
        d.room_b
    } else {
        d.room_a
    };
    append_nat(&mut line, other as u64);
    line.append(".");
    line
}

pub open spec fn search_done(t0: TimeTracker, d0: DungeonState, t: TimeTracker, d: DungeonState, r: ExplorationResult, dungeon_level: u32) -> bool {
    &&& r.placed_monsters is None
    &&& if t0.lights@.len() == 0 {
            &&& texts(r.messages@) == search_darkness_lines()
            &&& r.encounter is None
            &&& r.placed_treasure is None
            &&& t == t0
            &&& d == d0
        } else {
            &&& turn_passed(t0, t)
            &&& match d0.current_room {
                None => {
                    &&& texts(r.messages@) == burnt_out_messages(t0.lights@)
                    &&& r.encounter is None
                    &&& r.placed_treasure is None
                    &&& d == d0
                },
                Some(cur) => search_outcome(
                    d0,
                    d,
                    r,
                    cur,
                    t0,
                    t,
                    dungeon_level,
                    true,
                ) || search_outcome(
                    d0,
                    d,
                    r,
                    cur,
                    t0,
                    t,
                    dungeon_level,
                    false,
                ),
            }
        }
}

/// The d6 roll at or under which a search finds secret doors: 2 for elves,
/// 1 for others.
pub open spec fn search_threshold(is_elf: bool) -> u32 {
    if is_elf {
        2
    } else {
        1
    }
}

/// A search with the dice already rolled: `roll` is the searchers' d6, `w6`
/// and `w40` those of the wandering monster check.
pub open spec fn search_rolled(
    t0: TimeTracker,
    d0: DungeonState,
    t: TimeTracker,
    d: DungeonState,
    r: ExplorationResult,
    dungeon_level: u32,
    is_elf: bool,
    roll: u32,
    w6: u32,
    w40: u32,
) -> bool {
    &&& r.placed_monsters is None
    &&& if t0.lights@.len() == 0 {
            &&& texts(r.messages@) == search_darkness_lines()
            &&& r.encounter is None
            &&& r.placed_treasure is None
            &&& t == t0
            &&& d == d0
        } else {
            &&& turn_passed(t0, t)
            &&& match d0.current_room {
                None => {
                    &&& texts(r.messages@) == burnt_out_messages(t0.lights@)
                    &&& r.encounter is None
                    &&& r.placed_treasure is None
                    &&& d == d0
                },
                Some(cur) => {
                    &&& search_outcome(d0, d, r, cur, t0, t, dungeon_level, roll <= search_threshold(is_elf))
                    &&& r.encounter == wandering_outcome(t.total_turns, dungeon_level, w6, w40)
                },
            }
        }
}

/// Searches the party's room with the dice already rolled, which takes a
/// turn (not possible in darkness): when the d6 `roll` is at most 1 (2 for
/// elves) its hidden secret doors are found. Placed treasure not yet taken
/// turns up on the first search; the wandering monster check uses `w6` and
/// `w40`.
pub fn search_room_rolled(
    time: &mut TimeTracker,
    dungeon: &mut DungeonState,
    dungeon_level: u32,
    is_elf: bool,
    roll: u32,
    w6: u32,
    w40: u32,
) -> (r: ExplorationResult)
    requires
        clock_can_run(*old(time)),
        1 <= roll <= 6,
        1 <= w6 <= 6,
        1 <= w40 <= 40,
    ensures
        search_rolled(*old(time), *old(dungeon), *final(time), *final(dungeon), r, dungeon_level, is_elf, roll, w6, w40),
{
    if !time.has_light() {
        let mut msgs: Vec<String> = Vec::new();
        push_one(&mut msgs, String::from_str("The party is in DARKNESS! Cannot search without light."));
        push_one(&mut msgs, String::from_str("Light a torch or lantern before searching."));
        proof {
            assert(texts(msgs@) =~= search_darkness_lines());
        }
        return ExplorationResult { messages: msgs, encounter: None, placed_monsters: None, placed_treasure: None };
    }
    let ghost t0 = *time;
    let ghost d0 = *dungeon;
    let mut msgs = time.advance_turn();
    let ghost m0 = texts(msgs@);
    let cur = match dungeon.current_room {
        None => {
            return ExplorationResult { messages: msgs, encounter: None, placed_monsters: None, placed_treasure: None };
        },
        Some(c) => c,
    };
    let threshold: u32 = if is_elf {
        2
    } else {
        1
    };
    let success = roll <= threshold;
    if success {
        let mut found_any = false;
        let mut i: usize = 0;
        while i < dungeon.doors.len()
            invariant
                *dungeon == (DungeonState { doors: dungeon.doors, ..d0 }),
                dungeon.doors@.len() == d0.doors@.len(),
                i <= d0.doors@.len(),
                forall|j: int| 0 <= j < i ==> #[trigger] dungeon.doors@[j] == doors_after_search(d0.doors@, cur)[j],
                forall|j: int| i <= j < d0.doors@.len() ==> #[trigger] dungeon.doors@[j] == d0.doors@[j],
                texts(msgs@) == m0 + found_door_lines(d0.doors@, cur, i as int),
                found_any == (found_door_lines(d0.doors@, cur, i as int).len() > 0),
            decreases d0.doors@.len() - i,
        {
            let d = dungeon.doors[i];
            if d.state == DoorState::Secret && !d.discovered && (d.room_a == cur || d.room_b == cur) {
                dungeon.discover_door(i);
                found_any = true;
                push_one(&mut msgs, found_door_message(d, cur));
            }
            proof {
                assert forall|j: int| 0 <= j < i + 1 implies #[trigger] dungeon.doors@[j] == doors_after_search(
                    d0.doors@,
                    cur,
                )[j] by {};
            }
            i = i + 1;
        }
        proof {
            assert(dungeon.doors@ =~= doors_after_search(d0.doors@, cur));
        }
        if !found_any {
            push_one(&mut msgs, String::from_str("Search successful — but nothing hidden found here."));
        }
        proof {
            assert(texts(msgs@) =~= m0 + search_door_lines(d0.doors@, cur, success));
        }
    } else {
        push_one(&mut msgs, String::from_str("Search reveals nothing."));
        proof {
            assert(texts(msgs@) =~= m0 + search_door_lines(d0.doors@, cur, success));
        }
    }
    let ghost m1 = texts(msgs@);
    let ghost d1 = *dungeon;
    let mut placed_treasure: Option<Vec<PlacedTreasureInstance>> = None;
    match dungeon.room_position(cur) {
        Some(k) => {
            proof {
                lemma_room_index(d0.rooms@, cur);
            }
            let found = copy_untaken(&dungeon.rooms[k].placed_treasure);
            let turns_up = !dungeon.rooms[k].treasure_looted && found.len() > 0;
            let looted = dungeon.rooms[k].treasure_looted || turns_up;
            let trig = dungeon.rooms[k].trap_triggered;
            dungeon.set_room_flags(k, true, looted, trig);
            if turns_up {
                push_treasure_lines(&mut msgs, &found);
                placed_treasure = Some(found);
            } else {
                proof {
                    assert(texts(msgs@) =~= m1 + Seq::<(Seq<char>, u32, bool)>::empty().map_values(
                        |x: (Seq<char>, u32, bool)| treasure_line(x),
                    ));
                }
            }
        },
        None => {
            proof {
                assert(texts(msgs@) =~= m1 + Seq::<(Seq<char>, u32, bool)>::empty().map_values(
                    |x: (Seq<char>, u32, bool)| treasure_line(x),
                ));
            }
        },
    }
    push_light_summary(&mut msgs, time);
    let encounter = wandering_from_rolls(time.total_turns, dungeon_level, w6, w40);
    push_encounter(&mut msgs, encounter);
    let r = ExplorationResult { messages: msgs, encounter, placed_monsters: None, placed_treasure };
    proof {
        assert(search_outcome(d0, *dungeon, r, cur, t0, *time, dungeon_level, success));
    }
    r
}

/// Searches the party's room, which takes a turn (not possible in
/// darkness): on 1 in 6 (2 in 6 for elves) its hidden secret doors are
/// found. Placed treasure not yet taken turns up on the first search; a
/// wandering monster is checked for.
pub fn search_room(time: &mut TimeTracker, dungeon: &mut DungeonState, dungeon_level: u32, is_elf: bool) -> (r:
    ExplorationResult)
    requires
        clock_can_run(*old(time)),
    ensures
        search_done(*old(time), *old(dungeon), *final(time), *final(dungeon), r, dungeon_level),
        exists|roll: u32, w6: u32, w40: u32|
            1 <= roll <= 6 && 1 <= w6 <= 6 && 1 <= w40 <= 40 && #[trigger] search_rolled(
                *old(time),
                *old(dungeon),
                *final(time),
                *final(dungeon),
                r,
                dungeon_level,
                is_elf,
                roll,
                w6,
                w40,
            ),
{
    let roll = random_between(1, 6);
    let (w6, w40) = wandering_rolls();
    search_room_rolled(time, dungeon, dungeon_level, is_elf, roll, w6, w40)
}

/// Report of a door forced open.
pub open spec fn forced_text(who: Seq<char>, id: u32, roll: u32, threshold: u32) -> Seq<char> {
    who + " forces door "@ + nat_text(id as nat) + " open! (rolled "@ + nat_text(roll as nat) + " vs "@
        + nat_text(threshold as nat) + ")"@
}

/// Report of a door that holds.
pub open spec fn not_forced_text(who: Seq<char>, id: u32, roll: u32, threshold: u32) -> Seq<char> {
    who + " fails to force door "@ + nat_text(id as nat) + ". (rolled "@ + nat_text(roll as nat) + " vs "@
        + nat_text(threshold as nat) + ")"@
}

/// Report of a door id the dungeon lacks.
pub open spec fn door_not_found_text(id: u32) -> Seq<char> {
    "Door "@ + nat_text(id as nat) + " not found."@
}

/// Outcome of forcing door `k` with a d6 roll of `roll` against `threshold`.
pub open spec fn force_outcome(
    d0: DungeonState,
    d: DungeonState,
    r: Seq<char>,
    who: Seq<char>,
    k: int,
    roll: u32,
    threshold: u32,
) -> bool {
    let door = d0.doors@[k];
    &&& 1 <= roll <= 6
    &&& if roll <= threshold {
        &&& r == forced_text(who, door.id, roll, threshold)
        &&& d == DungeonState { doors: d.doors, ..d0 }
        &&& d.doors@ == d0.doors@.update(k, Door { state: DoorState::Open, ..door })
    } else {
        &&& r == not_forced_text(who, door.id, roll, threshold)
        &&& d == d0
    }
}

fn door_not_found(id: u32) -> (r: String)
    ensures
        r@ == door_not_found_text(id),
{
    let mut t = String::from_str("Door ");
    append_nat(&mut t, id as u64);
    t.append(" not found.");
    t
}

/// Outcome of character `c` trying to force door `door_id`, the dungeon
/// going from `d0` to `d` and the report being `r`.
pub open spec fn force_done(d0: DungeonState, d: DungeonState, r: Seq<char>, c: Character, door_id: u32) -> bool {
    match door_index(d0.doors@, door_id) {
        None => r == door_not_found_text(door_id) && d == d0,
        Some(k) => {
            let door = d0.doors@[k];
            if door.state == DoorState::Open {
                r == "Door is already open."@ && d == d0
            } else if door.state == DoorState::Locked {
                r == "Door is locked — requires a key or lockpicking."@ && d == d0
            } else if door.state == DoorState::Secret && !door.discovered {
                r == "You see no door here."@ && d == d0
            } else {
                exists|roll: u32|
                    #[trigger] force_outcome(d0, d, r, c.name@, k, roll, open_doors_of(c.abilities.strength as int))
            }
        },
    }
}

/// A character tries to force a door: STR gives the chance in six. Open,
/// locked and still hidden doors cannot be forced.
pub fn force_door(dungeon: &mut DungeonState, door_id: u32, character: &Character) -> (r: String)
    ensures
        force_done(*old(dungeon), *final(dungeon), r@, *character, door_id),
{
    let k = match dungeon.door_position(door_id) {
        None => return door_not_found(door_id),
        Some(k) => k,
    };
    proof {
        lemma_door_index(dungeon.doors@, door_id);
    }
    let door = dungeon.doors[k];
    if door.state == DoorState::Open {
        return String::from_str("Door is already open.");
    }
    if door.state == DoorState::Locked {
        return String::from_str("Door is locked — requires a key or lockpicking.");
    }
    if door.state == DoorState::Secret && !door.discovered {
        return String::from_str("You see no door here.");
    }
    let ghost d0 = *dungeon;
    let threshold = str_open_doors(character.abilities.strength);
    let roll = random_between(1, 6);
    let mut m = character.name.clone();
    if roll <= threshold {
        dungeon.set_door_state(k, DoorState::Open);
        m.append(" forces door ");
        append_nat(&mut m, door_id as u64);
        m.append(" open! (rolled ");
    } else {
        m.append(" fails to force door ");
        append_nat(&mut m, door_id as u64);
        m.append(". (rolled ");
    }
    append_nat(&mut m, roll as u64);
    m.append(" vs ");
    append_nat(&mut m, threshold as u64);
    m.append(")");
    proof {
        assert(force_outcome(d0, *dungeon, m@, character.name@, k as int, roll, threshold));
    }
    m
}

/// Result of an attempt to pick a lock.
#[derive(Debug)]
pub struct PickLockResult {
    pub success: bool,
    pub message: String,
}

/// Report of a lock picked.
pub open spec fn picked_text(who: Seq<char>, id: u32, roll: u32, target: u32) -> Seq<char> {
    who + " picks the lock on door "@ + nat_text(id as nat) + "! (rolled "@ + nat_text(roll as nat) + " vs "@
        + nat_text(target as nat) + "%) The door is now unlocked."@
}

/// Report of a lock that resists.
pub open spec fn not_picked_text(who: Seq<char>, id: u32, roll: u32, target: u32) -> Seq<char> {
    who + " fails to pick the lock on door "@ + nat_text(id as nat) + ". (rolled "@ + nat_text(roll as nat)
        + " vs "@ + nat_text(target as nat) + "%)"@
}

/// Outcome of picking the lock of door `k` with a d100 roll of `roll`
/// against `target` percent.
pub open spec fn pick_outcome(
    d0: DungeonState,
    d: DungeonState,
    r: PickLockResult,
    who: Seq<char>,
    k: int,
    roll: u32,
    target: u32,
) -> bool {
    let door = d0.doors@[k];
    &&& 1 <= roll <= 100
    &&& r.success == (roll <= target)
    &&& if roll <= target {
        &&& r.message@ == picked_text(who, door.id, roll, target)
        &&& d == DungeonState { doors: d.doors, ..d0 }
        &&& d.doors@ == d0.doors@.update(k, Door { state: DoorState::Closed, ..door })
    } else {
        &&& r.message@ == not_picked_text(who, door.id, roll, target)
        &&& d == d0
    }
}

/// Outcome of character `c` trying to pick the lock of door `door_id`, the
/// dungeon going from `d0` to `d`.
pub open spec fn pick_done(d0: DungeonState, d: DungeonState, r: PickLockResult, c: Character, door_id: u32) -> bool {
    match door_index(d0.doors@, door_id) {
        None => !r.success && r.message@ == door_not_found_text(door_id) && d == d0,
        Some(k) => {
            let door = d0.doors@[k];
            if door.state != DoorState::Locked {
                !r.success && r.message@ == "Door "@ + nat_text(door_id as nat) + " is not locked."@ && d == d0
            } else if c.class != crate::model::Class::Thief {
                !r.success && r.message@ == c.name@ + " does not have lockpicking skills."@ && d == d0
            } else if c.hp <= 0 {
                !r.success && r.message@ == c.name@ + " is dead."@ && d == d0
            } else {
                exists|roll: u32| #[trigger] pick_outcome(d0, d, r, c.name@, k, roll, open_locks_of(c.level as nat))
            }
        },
    }
}

/// A thief tries to pick the lock of a locked door (d100 against the open
/// locks chance of the thief's level); a picked door is closed, no longer
/// locked.
pub fn pick_lock(dungeon: &mut DungeonState, door_id: u32, character: &Character) -> (r: PickLockResult)
    ensures
        pick_done(*old(dungeon), *final(dungeon), r, *character, door_id),
{
    let k = match dungeon.door_position(door_id) {
        None => return PickLockResult { success: false, message: door_not_found(door_id) },
        Some(k) => k,
    };
    proof {
        lemma_door_index(dungeon.doors@, door_id);
    }
    let door = dungeon.doors[k];
    if door.state != DoorState::Locked {
        let mut m = String::from_str("Door ");
        append_nat(&mut m, door_id as u64);
        m.append(" is not locked.");
        return PickLockResult { success: false, message: m };
    }
    if character.class != crate::model::Class::Thief {
        let mut m = character.name.clone();
        m.append(" does not have lockpicking skills.");
        return PickLockResult { success: false, message: m };
    }
    if !character.is_alive() {
        let mut m = character.name.clone();
        m.append(" is dead.");
        return PickLockResult { success: false, message: m };
    }
    let ghost d0 = *dungeon;
    let target = open_locks_chance(character.level);
    let roll = random_between(1, 100);
    let success = roll <= target;
    let mut m = character.name.clone();
    if success {
        dungeon.set_door_state(k, DoorState::Closed);
        m.append(" picks the lock on door ");
        append_nat(&mut m, door_id as u64);
        m.append("! (rolled ");
        append_nat(&mut m, roll as u64);
        m.append(" vs ");
        append_nat(&mut m, target as u64);
        m.append("%) The door is now unlocked.");
    } else {
        m.append(" fails to pick the lock on door ");
        append_nat(&mut m, door_id as u64);
        m.append(". (rolled ");
        append_nat(&mut m, roll as u64);
        m.append(" vs ");
        append_nat(&mut m, target as u64);
        m.append("%)");
    }
    let r = PickLockResult { success, message: m };
    proof {
        assert(pick_outcome(d0, *dungeon, r, character.name@, k as int, roll, target));
    }
    r
}

/// Result of a trap check.
#[derive(Debug)]
pub struct TrapResult {
    pub triggered: bool,
    pub message: String,
}

/// Report of a trap check with a d6 roll of `roll`.
pub open spec fn trap_text(room: Seq<char>, roll: u32) -> Seq<char> {
    if roll <= 2 {
        "TRAP TRIGGERED in "@ + room + "! (rolled "@ + nat_text(roll as nat) + ")"@
    } else {
        "No trap triggered in "@ + room + ". (rolled "@ + nat_text(roll as nat) + ")"@
    }
}

/// Checks a trap in a room: it goes off on 1-2 on d6.
pub fn check_trap(room_name: &str) -> (r: TrapResult)
    ensures
        exists|roll: u32|
            1 <= roll <= 6 && r.triggered == (roll <= 2) && r.message@ == #[trigger] trap_text(room_name@, roll),
{
    let roll = random_between(1, 6);
    let mut m = String::new();
    if roll <= 2 {
        m.append("TRAP TRIGGERED in ");
        m.append(room_name);
        m.append("! (rolled ");
        append_nat(&mut m, roll as u64);
        m.append(")");
    } else {
        m.append("No trap triggered in ");
        m.append(room_name);
        m.append(". (rolled ");
        append_nat(&mut m, roll as u64);
        m.append(")");
    }
    proof {
        assert(m@ == trap_text(room_name@, roll));
    }
    TrapResult { triggered: roll <= 2, message: m }
}

/// Whether a room has a trap not yet set off.
pub open spec fn armed_trap(room: Room) -> bool {
    room.trap is Some && !room.trap_triggered
}

/// Line about a trap that only a character's action sets off.
pub open spec fn action_trap_line(room: Room) -> Seq<char> {
    "TRAP PRESENT in "@ + room.name@ + ": "@ + room.trap->0@ + " (requires character action to trigger)"@
}

/// Lines about the trap on entering `room`, with a d6 roll of `roll` for a
/// trap set off by entry.
pub open spec fn entry_trap_lines(room: Room, roll: u32) -> Seq<Seq<char>> {
    if armed_trap(room) {
        match room.trap_trigger {
            TrapTrigger::Entry => seq![trap_text(room.name@, roll)],
            TrapTrigger::Action => seq![action_trap_line(room)],
        }
    } else {
        Seq::empty()
    }
}

/// Whether entering `room` with a d6 roll of `roll` sets its trap off.
pub open spec fn trap_goes_off(room: Room, roll: u32) -> bool {
    armed_trap(room) && room.trap_trigger == TrapTrigger::Entry && roll <= 2
}

/// Placed monsters as values: name, number, undead override.
pub open spec fn placed_view(p: PlacedMonsterInstance) -> (Seq<char>, u32, Option<bool>) {
    (p.name@, p.count, p.undead)
}

/// The placed monsters among the first `n` not yet met, as values.
pub open spec fn unspawned(pms: Seq<PlacedMonsterInstance>, n: int) -> Seq<(Seq<char>, u32, Option<bool>)>
    decreases n,
{
    if n <= 0 {
        Seq::empty()
    } else {
        let rest = unspawned(pms, n - 1);
        if !pms[n - 1].spawned {
            rest.push(placed_view(pms[n - 1]))
        } else {
            rest
        }
    }
}

/// Whether entering `room` meets placed monsters.
pub open spec fn monsters_turn_up(room: Room) -> bool {
    !room.monsters_cleared && unspawned(room.placed_monsters@, room.placed_monsters@.len() as int).len() > 0
}

/// Line reporting placed monsters met.
pub open spec fn monster_line(v: (Seq<char>, u32, Option<bool>)) -> Seq<char> {
    "Monsters present: "@ + v.0 + " x"@ + nat_text(v.1 as nat) + if v.2 == Some(true) {
        " [undead]"@
    } else {
        Seq::<char>::empty()
    }
}

/// Line reporting the party's arrival.
pub open spec fn moved_line(room: Seq<char>, dest: u32) -> Seq<char> {
    "Moved to "@ + room + " (room "@ + nat_text(dest as nat) + ")."@
}

/// The state after moving through open door `k` into room `q` (id `dest`),
/// a d6 roll of `roll` deciding a trap set off by entry.
pub open spec fn moved_through(
    d0: DungeonState,
    d: DungeonState,
    t0: TimeTracker,
    t: TimeTracker,
    r: ExplorationResult,
    k: int,
    dest: u32,
    q: int,
    level: u32,
    roll: u32,
) -> bool {
    let door = d0.doors@[k];
    let room = d0.rooms@[q];
    let met = monsters_turn_up(room);
    let found = unspawned(room.placed_monsters@, room.placed_monsters@.len() as int);
    &&& 1 <= roll <= 6
    &&& d == DungeonState {
        rooms: d.rooms,
        doors: d.doors,
        current_room: Some(dest),
        explored: d.explored,
        level: level_after(d0, room),
        current_level_key: level_key_after(d0, room),
        ..d0
    }
    &&& d.doors@ == if door.module_open {
        d0.doors@
    } else {
        d0.doors@.update(k, Door { state: DoorState::Closed, ..door })
    }
    &&& d.explored@ == if d0.explored@.contains(dest) {
        d0.explored@
    } else {
        d0.explored@.push(dest)
    }
    &&& d.rooms@ == d0.rooms@.update(
        q,
        Room {
            trap_triggered: room.trap_triggered || trap_goes_off(room, roll),
            placed_monsters: d.rooms@[q].placed_monsters,
            ..room
        },
    )
    &&& d.rooms@[q].placed_monsters@ == if met {
        all_met(room.placed_monsters@)
    } else {
        room.placed_monsters@
    }
    &&& turn_passed(t0, t)
    &&& wandering_possible(r.encounter, t.total_turns, level)
    &&& r.placed_treasure is None
    &&& match r.placed_monsters {
        Some(v) => met && v@.map_values(|x: PlacedMonsterInstance| placed_view(x)) == found
            && forall|i: int| 0 <= i < v@.len() ==> !(#[trigger] v@[i]).spawned,
        None => !met,
    }
    &&& texts(r.messages@) == entry_trap_lines(room, roll) + seq![moved_line(room.name@, dest)]
        + burnt_out_messages(t0.lights@) + light_summary_lines(t) + (if met {
        found.map_values(|v: (Seq<char>, u32, Option<bool>)| monster_line(v))
    } else {
        Seq::empty()
    }) + encounter_lines(r.encounter)
}

/// Refusal to move in darkness.
pub open spec fn move_darkness_text() -> Seq<char> {
    "Cannot move — the party is in DARKNESS! Light a torch or lantern first."@
}

fn copy_unspawned(pms: &Vec<PlacedMonsterInstance>) -> (r: Vec<PlacedMonsterInstance>)
    ensures
        r@.map_values(|x: PlacedMonsterInstance| placed_view(x)) == unspawned(pms@, pms@.len() as int),
        forall|i: int| 0 <= i < r@.len() ==> !(#[trigger] r@[i]).spawned,
{
    let mut out: Vec<PlacedMonsterInstance> = Vec::new();
    let mut i: usize = 0;
    while i < pms.len()
        invariant
            i <= pms@.len(),
            out@.map_values(|x: PlacedMonsterInstance| placed_view(x)) == unspawned(pms@, i as int),
            forall|j: int| 0 <= j < out@.len() ==> !(#[trigger] out@[j]).spawned,
        decreases pms@.len() - i,
    {
        let p = &pms[i];
        if !p.spawned {
            let ghost before = out@;
            out.push(PlacedMonsterInstance { name: p.name.clone(), count: p.count, spawned: p.spawned, undead: p.undead });
            proof {
                assert(out@.map_values(|x: PlacedMonsterInstance| placed_view(x)) =~= before.map_values(
                    |x: PlacedMonsterInstance| placed_view(x),
                ).push(placed_view(*p)));
            }
        }
        i = i + 1;
    }
    out
}

fn push_monster_lines(msgs: &mut Vec<String>, found: &Vec<PlacedMonsterInstance>)
    ensures
        texts(final(msgs)@) == texts(old(msgs)@) + found@.map_values(|x: PlacedMonsterInstance| placed_view(x)).map_values(
            |v: (Seq<char>, u32, Option<bool>)| monster_line(v),
        ),
{
    let ghost m0 = texts(msgs@);
    let ghost views = found@.map_values(|x: PlacedMonsterInstance| placed_view(x));
    let mut i: usize = 0;
    while i < found.len()
        invariant
            i <= found@.len(),
            views == found@.map_values(|x: PlacedMonsterInstance| placed_view(x)),
            texts(msgs@) == m0 + views.take(i as int).map_values(|v: (Seq<char>, u32, Option<bool>)| monster_line(v)),
        decreases found@.len() - i,
    {
        let p = &found[i];
        let mut line = String::from_str("Monsters present: ");
        line.append(p.name.as_str());
        line.append(" x");
        append_nat(&mut line, p.count as u64);
        if p.undead == Some(true) {
            line.append(" [undead]");
        }
        push_one(msgs, line);
        proof {
            assert(views.take(i as int + 1) =~= views.take(i as int).push(views[i as int]));
            assert(views.take(i as int + 1).map_values(|v: (Seq<char>, u32, Option<bool>)| monster_line(v)) =~= views.take(
                i as int,
            ).map_values(|v: (Seq<char>, u32, Option<bool>)| monster_line(v)).push(monster_line(views[i as int])));
        }
        i = i + 1;
    }
    proof {
        assert(views.take(found@.len() as int) =~= views);
    }
}

/// The trap of room `q` on entry; returns its lines.
fn trap_on_entry(dungeon: &mut DungeonState, q: usize) -> (r: Vec<String>)
    requires
        q < old(dungeon).rooms@.len(),
    ensures
        exists|roll: u32|
            1 <= roll <= 6 && #[trigger] entry_trap_lines(old(dungeon).rooms@[q as int], roll) == texts(r@)
                && room_replaced(
                *old(dungeon),
                *final(dungeon),
                q as int,
                Room {
                    trap_triggered: old(dungeon).rooms@[q as int].trap_triggered || trap_goes_off(
                        old(dungeon).rooms@[q as int],
                        roll,
                    ),
                    ..old(dungeon).rooms@[q as int]
                },
            ),
{
    let ghost d0 = *dungeon;
    let room_name = dungeon.rooms[q].name.clone();
    let armed = dungeon.rooms[q].trap.is_some() && !dungeon.rooms[q].trap_triggered;
    let trigger = dungeon.rooms[q].trap_trigger;
    let mut msgs: Vec<String> = Vec::new();
    let ghost mut roll: u32 = 1;
    if armed {
        match trigger {
            TrapTrigger::Entry => {
                let tr = check_trap(room_name.as_str());
                proof {
                    roll = choose|x: u32| 1 <= x <= 6 && tr.triggered == (x <= 2) && tr.message@ == trap_text(room_name@, x);
                }
                if tr.triggered {
                    let searched = dungeon.rooms[q].searched;
                    let looted = dungeon.rooms[q].treasure_looted;
                    dungeon.set_room_flags(q, searched, looted, true);
                }
                push_one(&mut msgs, tr.message);
            },
            TrapTrigger::Action => {
                let mut line = String::from_str("TRAP PRESENT in ");
                line.append(room_name.as_str());
                line.append(": ");
                match &dungeon.rooms[q].trap {
                    Some(t) => line.append(t.as_str()),
                    None => {},
                }
                line.append(" (requires character action to trigger)");
                push_one(&mut msgs, line);
            },
        }
    }
    proof {
        assert(texts(msgs@) =~= entry_trap_lines(d0.rooms@[q as int], roll));
        let room = d0.rooms@[q as int];
        if !trap_goes_off(room, roll) {
            assert(Room { trap_triggered: room.trap_triggered || trap_goes_off(room, roll), ..room } == room);
            assert(dungeon.rooms@ =~= d0.rooms@.update(q as int, room));
        }
    }
    msgs
}

/// Meets the placed monsters of room `q` not yet met, unless the room is
/// cleared.
fn meet_monsters(dungeon: &mut DungeonState, q: usize) -> (r: Option<Vec<PlacedMonsterInstance>>)
    requires
        q < old(dungeon).rooms@.len(),
    ensures
        ({
            let room = old(dungeon).rooms@[q as int];
            let found = unspawned(room.placed_monsters@, room.placed_monsters@.len() as int);
            if monsters_turn_up(room) {
                &&& r matches Some(v) && v@.map_values(|x: PlacedMonsterInstance| placed_view(x)) == found
                    && forall|i: int| 0 <= i < v@.len() ==> !(#[trigger] v@[i]).spawned
                &&& room_replaced(
                    *old(dungeon),
                    *final(dungeon),
                    q as int,
                    Room { placed_monsters: final(dungeon).rooms@[q as int].placed_monsters, ..room },
                )
                &&& final(dungeon).rooms@[q as int].placed_monsters@ == all_met(room.placed_monsters@)
            } else {
                r is None && *final(dungeon) == *old(dungeon)
            }
        }),
{
    if !dungeon.rooms[q].monsters_cleared {
        let found = copy_unspawned(&dungeon.rooms[q].placed_monsters);
        if found.len() > 0 {
            dungeon.mark_all_spawned(q);
            return Some(found);
        }
    }
    None
}

pub open spec fn move_done(t0: TimeTracker, d0: DungeonState, t: TimeTracker, d: DungeonState, r: Result<ExplorationResult, String>, dungeon_level: u32, door_id: u32) -> bool {
    &&& ({
                        if t0.lights@.len() == 0 {
                r matches Err(e) && e@ == move_darkness_text() && t == t0 && d == d0
            } else {
                match door_index(d0.doors@, door_id) {
                    None => r matches Err(e) && e@ == door_not_found_text(door_id) && t == t0
                        && d == d0,
                    Some(k) => {
                        let door = d0.doors@[k];
                        if door.state != DoorState::Open {
                            r matches Err(e) && e@ == "Door "@ + nat_text(door_id as nat) + " is not open. Force it first."@
                                && t == t0 && d == d0
                        } else {
                            match d0.current_room {
                                None => r matches Err(e) && e@ == "no current room set"@ && t == t0
                                    && d == d0,
                                Some(cur) => if door.room_a != cur && door.room_b != cur {
                                    r matches Err(e) && e@ == "Door "@ + nat_text(door_id as nat)
                                        + " is not connected to the current room."@ && t == t0
                                        && d == d0
                                } else {
                                    let dest = other_side(door, cur);
                                    match room_index(d0.rooms@, dest) {
                                        None => r matches Err(e) && e@ == no_room_text(dest as nat) && t
                                            == t0 && d == d0,
                                        Some(q) => r matches Ok(res) && exists|roll: u32|
                                            #[trigger] moved_through(
                                                d0,
                                                d,
                                                t0,
                                                t,
                                                res,
                                                k,
                                                dest,
                                                q,
                                                dungeon_level,
                                                roll,
                                            ),
                                    }
                                },
                            }
                        }
                    },
                }
            }
        })
}

/// The party walks through an open door of its room into the room beyond:
/// the door swings shut behind it (unless the adventure keeps it open), a
/// trap of the room is checked, a turn passes, placed monsters not yet met
/// are met and a wandering monster is checked for.
#[verifier::rlimit(40)]
pub fn move_through_door(time: &mut TimeTracker, dungeon: &mut DungeonState, dungeon_level: u32, door_id: u32) -> (r:
    Result<ExplorationResult, String>)
    requires
        clock_can_run(*old(time)),
    ensures
        move_done(*old(time), *old(dungeon), *final(time), *final(dungeon), r, dungeon_level, door_id),
{
    if !time.has_light() {
        return Err(String::from_str("Cannot move — the party is in DARKNESS! Light a torch or lantern first."));
    }
    let k = match dungeon.door_position(door_id) {
        None => return Err(door_not_found(door_id)),
        Some(k) => k,
    };
    let door = dungeon.doors[k];
    if !door.is_passable() {
        let mut m = String::from_str("Door ");
        append_nat(&mut m, door_id as u64);
        m.append(" is not open. Force it first.");
        return Err(m);
    }
    let cur = match dungeon.current_room {
        None => return Err(String::from_str("no current room set")),
        Some(c) => c,
    };
    let dest = if door.room_a == cur {
        door.room_b
    } else if door.room_b == cur {
        door.room_a
    } else {
        let mut m = String::from_str("Door ");
        append_nat(&mut m, door_id as u64);
        m.append(" is not connected to the current room.");
        return Err(m);
    };
    let q = match dungeon.room_position(dest) {
        None => {
            let mut m = String::from_str("room ");
            append_nat(&mut m, dest as u64);
            m.append(" does not exist.");
            return Err(m);
        },
        Some(q) => q,
    };
    proof {
        lemma_door_index(dungeon.doors@, door_id);
        lemma_room_index(dungeon.rooms@, dest);
    }
    let ghost d0 = *dungeon;
    let ghost t0 = *time;
    match dungeon.move_to(dest) {
        Err(e) => return Err(e),
        Ok(()) => {},
    }
    if !door.module_open {
        dungeon.set_door_state(k, DoorState::Closed);
    }
    let ghost d1 = *dungeon;
    let room_name = dungeon.rooms[q].name.clone();
    let mut msgs = trap_on_entry(dungeon, q);
    let ghost roll = choose|x: u32|
        1 <= x <= 6 && #[trigger] entry_trap_lines(d1.rooms@[q as int], x) == texts(msgs@) && room_replaced(
            d1,
            *dungeon,
            q as int,
            Room {
                trap_triggered: d1.rooms@[q as int].trap_triggered || trap_goes_off(d1.rooms@[q as int], x),
                ..d1.rooms@[q as int]
            },
        );
    let ghost d2 = *dungeon;
    let mut moved = String::from_str("Moved to ");
    moved.append(room_name.as_str());
    moved.append(" (room ");
    append_nat(&mut moved, dest as u64);
    moved.append(").");
    push_one(&mut msgs, moved);
    let burnt = time.advance_turn();
    push_all(&mut msgs, burnt);
    push_light_summary(&mut msgs, time);
    let ghost m2 = texts(msgs@);
    let placed_monsters = meet_monsters(dungeon, q);
    match &placed_monsters {
        Some(found) => push_monster_lines(&mut msgs, found),
        None => {},
    }
    let encounter = check_wandering_monster(time, dungeon_level);
    push_encounter(&mut msgs, encounter);
    let res = ExplorationResult { messages: msgs, encounter, placed_monsters, placed_treasure: None };
    proof {
        let room = d0.rooms@[q as int];
        assert(d1.rooms@ == d0.rooms@);
        assert(d2.rooms@[q as int].placed_monsters == room.placed_monsters);
        assert(d2.rooms@[q as int].name == room.name);
        assert(d2.rooms@[q as int].monsters_cleared == room.monsters_cleared);
        assert(dungeon.rooms@ =~= d0.rooms@.update(
            q as int,
            Room {
                trap_triggered: room.trap_triggered || trap_goes_off(room, roll),
                placed_monsters: dungeon.rooms@[q as int].placed_monsters,
                ..room
            },
        ));
        let d = *dungeon;
        let door = d0.doors@[k as int];
        let met = monsters_turn_up(room);
        let found = unspawned(room.placed_monsters@, room.placed_monsters@.len() as int);
        assert(d == DungeonState {
            rooms: d.rooms,
            doors: d.doors,
            current_room: Some(dest),
            explored: d.explored,
            level: level_after(d0, room),
            current_level_key: level_key_after(d0, room),
            ..d0
        });
        assert(d.doors@ == if door.module_open {
            d0.doors@
        } else {
            d0.doors@.update(k as int, Door { state: DoorState::Closed, ..door })
        });
        assert(d.explored@ == if d0.explored@.contains(dest) {
            d0.explored@
        } else {
            d0.explored@.push(dest)
        });
        assert(d.rooms@[q as int].placed_monsters@ == if met {
            all_met(room.placed_monsters@)
        } else {
            room.placed_monsters@
        });
        assert(match res.placed_monsters {
            Some(v) => met && v@.map_values(|x: PlacedMonsterInstance| placed_view(x)) == found
                && forall|i: int| 0 <= i < v@.len() ==> !(#[trigger] v@[i]).spawned,
            None => !met,
        });
        assert(texts(res.messages@) == entry_trap_lines(room, roll) + seq![moved_line(room.name@, dest)]
            + burnt_out_messages(t0.lights@) + light_summary_lines(*time) + (if met {
            found.map_values(|v: (Seq<char>, u32, Option<bool>)| monster_line(v))
        } else {
            Seq::empty()
        }) + encounter_lines(res.encounter));
        assert(moved_through(d0, *dungeon, t0, *time, res, k as int, dest, q as int, dungeon_level, roll));
    }
    Ok(res)
}

/// Lines, each ended by a line break.
pub open spec fn lines_text(ls: Seq<Seq<char>>) -> Seq<char>
    decreases ls.len(),
{
    if ls.len() == 0 {
        Seq::empty()
    } else {
        lines_text(ls.drop_last()) + ls.last() + "\n"@
    }
}

/// Display line of a wandering monster check that came up.
pub open spec fn wandering_banner(e: WanderingEncounter) -> Seq<char> {
    "*** WANDERING MONSTER: roll "@ + nat_text(e.table_roll as nat) + " on the level "@ + nat_text(e.level as nat)
        + " encounter table ***"@
}

/// Display line of placed monsters met.
pub open spec fn placed_banner(v: (Seq<char>, u32, Option<bool>)) -> Seq<char> {
    "*** PLACED MONSTER: "@ + v.0 + " x"@ + nat_text(v.1 as nat) + " ***"@
}

/// Display line of treasure found.
pub open spec fn treasure_banner(t: (Seq<char>, u32, bool)) -> Seq<char> {
    "*** TREASURE FOUND: "@ + t.0 + " ("@ + nat_text(t.1 as nat) + "gp) ***"@
}

/// The display of an exploration step: its messages, then the wandering
/// monster, placed monsters and treasure, a line each.
pub open spec fn result_text(r: ExplorationResult) -> Seq<char> {
    lines_text(texts(r.messages@)) + lines_text(
        match r.encounter {
            Some(e) => seq![wandering_banner(e)],
            None => Seq::empty(),
        },
    ) + lines_text(
        match r.placed_monsters {
            Some(v) => v@.map_values(|x: PlacedMonsterInstance| placed_banner(placed_view(x))),
            None => Seq::empty(),
        },
    ) + lines_text(
        match r.placed_treasure {
            Some(v) => v@.map_values(|x: PlacedTreasureInstance| treasure_banner(treasure_view(x))),
            None => Seq::empty(),
        },
    )
}

/// Appends each text of `ls` followed by a line break.
fn append_lines(out: &mut String, ls: &Vec<String>)
    ensures
        final(out)@ == old(out)@ + lines_text(texts(ls@)),
{
    let ghost o0 = out@;
    let mut i: usize = 0;
    while i < ls.len()
        invariant
            i <= ls@.len(),
            out@ == o0 + lines_text(texts(ls@).take(i as int)),
        decreases ls@.len() - i,
    {
        proof {
            assert(texts(ls@).take(i as int + 1).drop_last() =~= texts(ls@).take(i as int));
        }
        out.append(ls[i].as_str());
        out.append("\n");
        i = i + 1;
    }
    proof {
        assert(texts(ls@).take(ls@.len() as int) =~= texts(ls@));
    }
}

impl ExplorationResult {
    /// The display of the step.
    pub fn to_string(&self) -> (r: String)
        ensures
            r@ == result_text(*self),
    {
        let mut out = String::new();
        append_lines(&mut out, &self.messages);
        let mut extra: Vec<String> = Vec::new();
        match self.encounter {
            Some(e) => {
                let mut l = String::from_str("*** WANDERING MONSTER: roll ");
                append_nat(&mut l, e.table_roll as u64);
                l.append(" on the level ");
                append_nat(&mut l, e.level as u64);
                l.append(" encounter table ***");
                push_one(&mut extra, l);
            },
            None => {},
        }
        proof {
            assert(texts(extra@) =~= match self.encounter {
                Some(e) => seq![wandering_banner(e)],
                None => Seq::empty(),
            });
        }
        append_lines(&mut out, &extra);
        let mut lines: Vec<String> = Vec::new();
        match &self.placed_monsters {
            Some(v) => {
                let mut i: usize = 0;
                while i < v.len()
                    invariant
                        i <= v@.len(),
                        texts(lines@) == v@.take(i as int).map_values(|x: PlacedMonsterInstance| placed_banner(placed_view(x))),
                    decreases v@.len() - i,
                {
                    let mut l = String::from_str("*** PLACED MONSTER: ");
                    l.append(v[i].name.as_str());
                    l.append(" x");
                    append_nat(&mut l, v[i].count as u64);
                    l.append(" ***");
                    let ghost before = texts(lines@);
                    push_one(&mut lines, l);
                    proof {
                        assert(v@.take(i as int + 1).map_values(|x: PlacedMonsterInstance| placed_banner(placed_view(x)))
                            =~= before.push(placed_banner(placed_view(v@[i as int]))));
                    }
                    i = i + 1;
                }
                proof {
                    assert(v@.take(v@.len() as int) =~= v@);
                }
            },
            None => {
                proof {
                    assert(texts(lines@) =~= Seq::<Seq<char>>::empty());
                }
            },
        }
        append_lines(&mut out, &lines);
        let mut tlines: Vec<String> = Vec::new();
        match &self.placed_treasure {
            Some(v) => {
                let mut i: usize = 0;
                while i < v.len()
                    invariant
                        i <= v@.len(),
                        texts(tlines@) == v@.take(i as int).map_values(|x: PlacedTreasureInstance| treasure_banner(treasure_view(x))),
                    decreases v@.len() - i,
                {
                    let mut l = String::from_str("*** TREASURE FOUND: ");
                    l.append(v[i].description.as_str());
                    l.append(" (");
                    append_nat(&mut l, v[i].gp_value as u64);
                    l.append("gp) ***");
                    let ghost before = texts(tlines@);
                    push_one(&mut tlines, l);
                    proof {
                        assert(v@.take(i as int + 1).map_values(|x: PlacedTreasureInstance| treasure_banner(treasure_view(x)))
                            =~= before.push(treasure_banner(treasure_view(v@[i as int]))));
                    }
                    i = i + 1;
                }
                proof {
                    assert(v@.take(v@.len() as int) =~= v@);
                }
            },
            None => {
                proof {
                    assert(texts(tlines@) =~= Seq::<Seq<char>>::empty());
                }
            },
        }
        append_lines(&mut out, &tlines);
        out
    }
}

} // verus!
