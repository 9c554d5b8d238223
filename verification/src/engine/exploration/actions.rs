//! Exploration actions on the game state.
use vstd::prelude::*;

use crate::rules::module::ConnectionType;
use crate::engine::combat::actions::{invalid, no_member_text, wrong_state};
use crate::engine::combat::attack::join_text;
use crate::engine::combat::status::append_joined;
use crate::model::Character;
use crate::state::dungeon::{
    Door, DoorState, DungeonState, Room, door_exists_text, door_index, door_state_text, doors_from_current_spec,
    fresh_room, lemma_door_index, lemma_door_index_same_ids, no_room_text, room_exists_text, room_index,
    self_door_text,
};
use crate::state::effect::{expiry_messages, texts, tick_effects, tick_turn_effects};
use crate::state::time::{
    LightSource, LightSourceKind, TimeTracker, burnt_out_messages, light_name, light_turns, lights_after_turn,
};
use crate::state::{EngineError, GameMode, GameState, error_text, member_index};
use crate::text::{append_nat, contains_text, nat_text, str_eq, text_contains};

use super::results::{
    AddDoorResult, AddRoomResult, EnterDungeonResult, ExplorationActionResult, ExplorationStatusResult,
    ForceDoorResult, LightResult, LookResult, OpenDoorResult, PickLockResult, RestResult, reported,
};
use super::{
    exploration_status, exploration_status_text,
    ExplorationResult, PickLockResult as CorePickLockResult, advance_done, advance_dungeon_turn,
    clock_can_run, force_door, force_done, listen_at_door, listen_done, move_done, move_through_door,
    pick_done, pick_lock, search_done, search_room,
};

verus! {

/// Character `b` is character `a` after its turn-based effects ticked.
pub open spec fn member_turn_ticked(a: Character, b: Character) -> bool {
    &&& b == Character { effects: b.effects, ..a }
    &&& b.effects@ == tick_effects(a.effects@, true)
}

/// Expiry messages of the party's turn-based effects, member by member.
pub open spec fn members_turn_expiry(ms: Seq<Character>) -> Seq<Seq<char>>
    decreases ms.len(),
{
    if ms.len() == 0 {
        Seq::empty()
    } else {
        members_turn_expiry(ms.drop_last()) + expiry_messages(ms.last().effects@, ms.last().name@, true)
    }
}

/// `s` is `s0` after a turn: the turn-based effects on the party and on the
/// area counted down, with `msgs` reporting those that ran out.
pub open spec fn turn_effects_ticked(s0: GameState, s: GameState, msgs: Seq<Seq<char>>) -> bool {
    &&& s == GameState { party: s.party, effects: s.effects, ..s0 }
    &&& s.party.rations == s0.party.rations
    &&& s.party.members@.len() == s0.party.members@.len()
    &&& forall|i: int|
        0 <= i < s0.party.members@.len() ==> member_turn_ticked(#[trigger] s0.party.members@[i], s.party.members@[i])
    &&& s.effects@ == tick_effects(s0.effects@, true)
    &&& msgs == members_turn_expiry(s0.party.members@) + expiry_messages(s0.effects@, "the area"@, true)
}

fn tick_members_turn(ms: &mut Vec<Character>) -> (msgs: Vec<String>)
    ensures
        final(ms)@.len() == old(ms)@.len(),
        forall|i: int| 0 <= i < old(ms)@.len() ==> member_turn_ticked(#[trigger] old(ms)@[i], final(ms)@[i]),
        texts(msgs@) == members_turn_expiry(old(ms)@),
{
    let ghost orig = ms@;
    let mut msgs: Vec<String> = Vec::new();
    let mut i: usize = 0;
    while i < ms.len()
        invariant
            ms@.len() == orig.len(),
            i <= orig.len(),
            forall|j: int| 0 <= j < i ==> member_turn_ticked(#[trigger] orig[j], ms@[j]),
            forall|j: int| i <= j < orig.len() ==> #[trigger] ms@[j] == orig[j],
            texts(msgs@) == members_turn_expiry(orig.take(i as int)),
        decreases orig.len() - i,
    {
        let name = ms[i].name.clone();
        let mut more = tick_turn_effects(&mut ms[i].effects, name.as_str());
        let ghost before = msgs@;
        let ghost added = more@;
        msgs.append(&mut more);
        proof {
            assert(orig.take(i as int + 1).drop_last() =~= orig.take(i as int));
            assert(texts(msgs@) =~= texts(before) + texts(added));
        }
        i = i + 1;
    }
    proof {
        assert(orig.take(i as int) =~= orig);
    }
    msgs
}

/// Counts the turn-based effects on the party and the area down by a turn.
fn tick_turn(state: &mut GameState) -> (msgs: Vec<String>)
    ensures
        turn_effects_ticked(*old(state), *final(state), texts(msgs@)),
{
    let mut msgs = tick_members_turn(&mut state.party.members);
    let mut more = tick_turn_effects(&mut state.effects, "the area");
    let ghost before = texts(msgs@);
    let ghost added = texts(more@);
    msgs.append(&mut more);
    proof {
        assert(texts(msgs@) =~= before + added);
    }
    msgs
}

/// The messages of a report after a turn's expiry messages are added: the
/// message becomes all messages joined by line breaks when some expired.
pub open spec fn with_expiries(
    rep: ExplorationActionResult,
    r: ExplorationActionResult,
    expired: Seq<Seq<char>>,
) -> bool {
    &&& r == ExplorationActionResult { message: r.message, messages: r.messages, ..rep }
    &&& texts(r.messages@) == texts(rep.messages@) + expired
    &&& r.message@ == if expired.len() == 0 {
        rep.message@
    } else {
        join_text(texts(r.messages@), "\n"@)
    }
}

fn add_expiries(rep: ExplorationActionResult, expired: Vec<String>) -> (r: ExplorationActionResult)
    ensures
        with_expiries(rep, r, texts(expired@)),
{
    let mut rep = rep;
    if expired.len() == 0 {
        proof {
            assert(texts(rep.messages@) =~= texts(rep.messages@) + texts(expired@));
        }
        return rep;
    }
    let ghost m0 = texts(rep.messages@);
    let mut expired = expired;
    let ghost added = texts(expired@);
    rep.messages.append(&mut expired);
    proof {
        assert(texts(rep.messages@) =~= m0 + added);
    }
    let mut message = String::new();
    append_joined(&mut message, &rep.messages, "\n");
    rep.message = message;
    rep
}

/// The clock can run a turn, when there is one.
pub open spec fn clock_ok(s: GameState) -> bool {
    s.time matches Some(t) ==> clock_can_run(t)
}

/// Refusal without a clock running.
pub open spec fn no_clock(e: EngineError) -> bool {
    wrong_state(e, "not in exploration mode."@)
}

/// Refusal without a dungeon.
pub open spec fn no_dungeon(e: EngineError) -> bool {
    wrong_state(e, "no dungeon state."@)
}

/// The result of a turn-taking step with the clock `t0` and dungeon `d0`
/// put back into the state, and the turn's effects ticked.
pub open spec fn step_reported(
    s0: GameState,
    s: GameState,
    raw: ExplorationResult,
    t: TimeTracker,
    d: DungeonState,
    r: ExplorationActionResult,
) -> bool {
    exists|rep: ExplorationActionResult, expired: Seq<Seq<char>>|
        #![trigger reported(raw, rep), with_expiries(rep, r, expired)]
        reported(raw, rep) && turn_effects_ticked(GameState { time: Some(t), dungeon: Some(d), ..s0 }, s, expired)
            && with_expiries(rep, r, expired)
}

/// One turn of exploring, with the turn-based effects counting down.
pub fn action_advance_dungeon_turn(state: &mut GameState) -> (r: Result<ExplorationActionResult, EngineError>)
    requires
        clock_ok(*old(state)),
    ensures
        if old(state).mode != GameMode::Exploration {
            r matches Err(e) && wrong_state(e, "AdvanceTurn is only available in dungeon exploration mode."@)
                && *final(state) == *old(state)
        } else {
            match (old(state).time, old(state).dungeon) {
                (None, _) => r matches Err(e) && no_clock(e) && *final(state) == *old(state),
                (Some(_), None) => r matches Err(e) && no_dungeon(e) && *final(state) == *old(state),
                (Some(t0), Some(d0)) => r matches Ok(res) && exists|raw: ExplorationResult, t: TimeTracker, d: DungeonState|
                    #[trigger] advance_done(t0, d0, t, d, raw, old(state).dungeon_level) && step_reported(
                        *old(state),
                        *final(state),
                        raw,
                        t,
                        d,
                        res,
                    ),
            }
        },
{
    if state.mode != GameMode::Exploration {
        return Err(
            EngineError::WrongState(String::from_str("AdvanceTurn is only available in dungeon exploration mode.")),
        );
    }
    if state.time.is_none() {
        return Err(EngineError::WrongState(String::from_str("not in exploration mode.")));
    }
    if state.dungeon.is_none() {
        return Err(EngineError::WrongState(String::from_str("no dungeon state.")));
    }
    let ghost s0 = *state;
    let level = state.dungeon_level;
    let mut t = state.time.take().unwrap();
    let mut d = state.dungeon.take().unwrap();
    let ghost t0 = t;
    let ghost d0 = d;
    let raw = advance_dungeon_turn(&mut t, &mut d, level);
    let ghost rawg = raw;
    let ghost tg = t;
    let ghost dg = d;
    state.time = Some(t);
    state.dungeon = Some(d);
    let ghost mid = *state;
    let rep = ExplorationActionResult::from_exploration(raw);
    let ghost repg = rep;
    let expired = tick_turn(state);
    let ghost exg = texts(expired@);
    let res = add_expiries(rep, expired);
    proof {
        assert(mid == GameState { time: Some(tg), dungeon: Some(dg), ..s0 });
        assert(step_reported(s0, *state, rawg, tg, dg, res));
        assert(advance_done(t0, d0, tg, dg, rawg, s0.dungeon_level));
    }
    Ok(res)
}

/// Searches the party's room for a turn, with the turn-based effects
/// counting down.
pub fn action_search_room(state: &mut GameState, is_elf: bool) -> (r: Result<ExplorationActionResult, EngineError>)
    requires
        clock_ok(*old(state)),
    ensures
        match (old(state).time, old(state).dungeon) {
            (None, _) => r matches Err(e) && no_clock(e) && *final(state) == *old(state),
            (Some(_), None) => r matches Err(e) && no_dungeon(e) && *final(state) == *old(state),
            (Some(t0), Some(d0)) => r matches Ok(res) && exists|raw: ExplorationResult, t: TimeTracker, d: DungeonState|
                #[trigger] search_done(t0, d0, t, d, raw, old(state).dungeon_level) && step_reported(
                    *old(state),
                    *final(state),
                    raw,
                    t,
                    d,
                    res,
                ),
        },
{
    if state.time.is_none() {
        return Err(EngineError::WrongState(String::from_str("not in exploration mode.")));
    }
    if state.dungeon.is_none() {
        return Err(EngineError::WrongState(String::from_str("no dungeon state.")));
    }
    let ghost s0 = *state;
    let level = state.dungeon_level;
    let mut t = state.time.take().unwrap();
    let mut d = state.dungeon.take().unwrap();
    let ghost t0 = t;
    let ghost d0 = d;
    let raw = search_room(&mut t, &mut d, level, is_elf);
    let ghost rawg = raw;
    let ghost tg = t;
    let ghost dg = d;
    state.time = Some(t);
    state.dungeon = Some(d);
    let rep = ExplorationActionResult::from_exploration(raw);
    let expired = tick_turn(state);
    let res = add_expiries(rep, expired);
    proof {
        assert(step_reported(s0, *state, rawg, tg, dg, res));
        assert(search_done(t0, d0, tg, dg, rawg, s0.dungeon_level));
    }
    Ok(res)
}

/// Listens at a door of the party's room, with the turn-based effects
/// counting down.
pub fn action_listen_at_door(state: &mut GameState, is_demihuman: bool) -> (r: Result<
    ExplorationActionResult,
    EngineError,
>)
    requires
        clock_ok(*old(state)),
    ensures
        match (old(state).time, old(state).dungeon) {
            (None, _) => r matches Err(e) && no_clock(e) && *final(state) == *old(state),
            (Some(_), None) => r matches Err(e) && no_dungeon(e) && *final(state) == *old(state),
            (Some(t0), Some(d0)) => r matches Ok(res) && exists|raw: ExplorationResult, t: TimeTracker|
                #[trigger] listen_done(t0, d0, t, raw, old(state).dungeon_level) && step_reported(
                    *old(state),
                    *final(state),
                    raw,
                    t,
                    d0,
                    res,
                ),
        },
{
    if state.time.is_none() {
        return Err(EngineError::WrongState(String::from_str("not in exploration mode.")));
    }
    if state.dungeon.is_none() {
        return Err(EngineError::WrongState(String::from_str("no dungeon state.")));
    }
    let ghost s0 = *state;
    let level = state.dungeon_level;
    let mut t = state.time.take().unwrap();
    let ghost t0 = t;
    let raw = match &state.dungeon {
        Some(d) => listen_at_door(&mut t, d, level, is_demihuman),
        None => ExplorationResult { messages: Vec::new(), encounter: None, placed_monsters: None, placed_treasure: None },
    };
    let ghost rawg = raw;
    let ghost tg = t;
    state.time = Some(t);
    let rep = ExplorationActionResult::from_exploration(raw);
    let expired = tick_turn(state);
    let res = add_expiries(rep, expired);
    proof {
        assert(s0.dungeon == Some(s0.dungeon->0));
        assert(step_reported(s0, *state, rawg, tg, s0.dungeon->0, res));
        assert(listen_done(t0, s0.dungeon->0, tg, rawg, s0.dungeon_level));
    }
    Ok(res)
}

/// Outcome of the move action: the clock and dungeon after the move are
/// put back; a refused move becomes an invalid input; the level follows
/// the dungeon's after a move.
pub open spec fn move_action_done(s0: GameState, s: GameState, r: Result<ExplorationActionResult, EngineError>, door_id: u32) -> bool {
    match (s0.time, s0.dungeon) {
        (None, _) => r matches Err(e) && no_clock(e) && s == s0,
        (Some(_), None) => r matches Err(e) && no_dungeon(e) && s == s0,
        (Some(t0), Some(d0)) => exists|raw: Result<ExplorationResult, String>, t: TimeTracker, d: DungeonState|
            #[trigger] move_done(t0, d0, t, d, raw, s0.dungeon_level, door_id) && match raw {
                Err(m) => r matches Err(e) && invalid(e, m@) && s == s0,
                Ok(x) => r matches Ok(res) && reported(x, res) && s == GameState {
                    time: Some(t),
                    dungeon: Some(d),
                    dungeon_level: d.level,
                    ..s0
                },
            },
    }
}

/// Walks the party through an open door of its room.
pub fn action_move_through_door(state: &mut GameState, door_id: u32) -> (r: Result<
    ExplorationActionResult,
    EngineError,
>)
    requires
        clock_ok(*old(state)),
    ensures
        move_action_done(*old(state), *final(state), r, door_id),
{
    if state.time.is_none() {
        return Err(EngineError::WrongState(String::from_str("not in exploration mode.")));
    }
    if state.dungeon.is_none() {
        return Err(EngineError::WrongState(String::from_str("no dungeon state.")));
    }
    let ghost s0 = *state;
    let level = state.dungeon_level;
    let mut t = state.time.take().unwrap();
    let mut d = state.dungeon.take().unwrap();
    let ghost t0 = t;
    let ghost d0 = d;
    let raw = move_through_door(&mut t, &mut d, level, door_id);
    let ghost rawg = raw;
    proof {
        assert(move_done(t0, d0, t, d, rawg, s0.dungeon_level, door_id));
    }
    match raw {
        Err(m) => {
            proof {
                assert(t == t0 && d == d0);
            }
            state.time = Some(t);
            state.dungeon = Some(d);
            proof {
                assert(*state == s0);
            }
            Err(EngineError::InvalidInput(m))
        },
        Ok(x) => {
            let ghost tg = t;
            let ghost dg = d;
            let new_level = d.level;
            state.time = Some(t);
            state.dungeon = Some(d);
            if new_level != state.dungeon_level {
                state.dungeon_level = new_level;
            }
            let res = ExplorationActionResult::from_exploration(x);
            proof {
                assert(*state == GameState { time: Some(tg), dungeon: Some(dg), dungeon_level: dg.level, ..s0 });
            }
            Ok(res)
        },
    }
}

/// Whether the force report tells of a door forced open.
pub open spec fn tells_forced(m: Seq<char>) -> bool {
    contains_text(m, "forces door"@) && contains_text(m, "open"@)
}

/// The state and report after character `c` tried to force door
/// `door_id` of dungeon `d0`.
pub open spec fn force_action_done(s0: GameState, s: GameState, d0: DungeonState, res: ForceDoorResult, c: Character, door_id: u32) -> bool {
    &&& exists|d: DungeonState| #[trigger] force_done(d0, d, res.message@, c, door_id) && s == GameState { dungeon: Some(d), ..s0 }
    &&& res.door_id == door_id
    &&& res.character@ == c.name@
    &&& res.forced_open == tells_forced(res.message@)
}

/// A party member tries to force a door.
pub fn action_force_door(state: &mut GameState, door_id: u32, char_name: &str) -> (r: Result<ForceDoorResult, EngineError>)
    ensures
        match member_index(old(state).party.members@, char_name@) {
            None => r matches Err(e) && invalid(e, no_member_text(char_name@)) && *final(state) == *old(state),
            Some(i) => {
                let c = old(state).party.members@[i];
                match old(state).dungeon {
                    None => r matches Err(e) && no_dungeon(e) && *final(state) == *old(state),
                    Some(d0) => r matches Ok(res) && force_action_done(*old(state), *final(state), d0, res, c, door_id),
                }
            },
        },
{
    let ci = match state.party.find_index(char_name) {
        Some(i) => i,
        None => {
            let mut m = String::from_str("no party member named '");
            m.append(char_name);
            m.append("'.");
            return Err(EngineError::InvalidInput(m));
        },
    };
    if state.dungeon.is_none() {
        return Err(EngineError::WrongState(String::from_str("no dungeon state.")));
    }
    let ghost s0 = *state;
    let mut d = state.dungeon.take().unwrap();
    let ghost d0 = d;
    let message = force_door(&mut d, door_id, &state.party.members[ci]);
    let ghost dg = d;
    state.dungeon = Some(d);
    let forced_open = text_contains(message.as_str(), "forces door") && text_contains(message.as_str(), "open");
    let res = ForceDoorResult { message, door_id, character: state.party.members[ci].name.clone(), forced_open };
    proof {
        assert(force_done(d0, dg, res.message@, s0.party.members@[ci as int], door_id));
        assert(*state == GameState { dungeon: Some(dg), ..s0 });
        assert(res.character@ == s0.party.members@[ci as int].name@);
        assert(res.forced_open == tells_forced(res.message@));
        assert(force_action_done(s0, *state, d0, res, s0.party.members@[ci as int], door_id));
    }
    Ok(res)
}

/// The state and report after character `c` tried to pick the lock of
/// door `door_id` of dungeon `d0`.
pub open spec fn pick_action_done(s0: GameState, s: GameState, d0: DungeonState, res: PickLockResult, c: Character, door_id: u32) -> bool {
    exists|d: DungeonState, pr: CorePickLockResult|
        #![trigger pick_done(d0, d, pr, c, door_id)]
        pick_done(d0, d, pr, c, door_id) && s == GameState { dungeon: Some(d), ..s0 } && res.door_id == door_id
            && res.character@ == c.name@ && res.message@ == pr.message@ && res.success == pr.success
}

/// A party member tries to pick the lock of a door.
pub fn action_pick_lock(state: &mut GameState, door_id: u32, char_name: &str) -> (r: Result<PickLockResult, EngineError>)
    ensures
        match member_index(old(state).party.members@, char_name@) {
            None => r matches Err(e) && invalid(e, no_member_text(char_name@)) && *final(state) == *old(state),
            Some(i) => {
                let c = old(state).party.members@[i];
                match old(state).dungeon {
                    None => r matches Err(e) && no_dungeon(e) && *final(state) == *old(state),
                    Some(d0) => r matches Ok(res) && pick_action_done(*old(state), *final(state), d0, res, c, door_id),
                }
            },
        },
{
    let ci = match state.party.find_index(char_name) {
        Some(i) => i,
        None => {
            let mut m = String::from_str("no party member named '");
            m.append(char_name);
            m.append("'.");
            return Err(EngineError::InvalidInput(m));
        },
    };
    if state.dungeon.is_none() {
        return Err(EngineError::WrongState(String::from_str("no dungeon state.")));
    }
    let ghost s0 = *state;
    let mut d = state.dungeon.take().unwrap();
    let ghost d0 = d;
    let core = pick_lock(&mut d, door_id, &state.party.members[ci]);
    let ghost dg = d;
    let ghost coreg = core;
    state.dungeon = Some(d);
    let res = PickLockResult {
        message: core.message,
        door_id,
        character: state.party.members[ci].name.clone(),
        success: core.success,
    };
    proof {
        assert(pick_done(d0, dg, coreg, s0.party.members@[ci as int], door_id));
        assert(*state == GameState { dungeon: Some(dg), ..s0 });
        assert(res.message@ == coreg.message@ && res.success == coreg.success);
        assert(res.character@ == s0.party.members@[ci as int].name@);
        assert(member_index(s0.party.members@, char_name@) == Some(ci as int));
        assert(s0.dungeon == Some(d0));
        let c = s0.party.members@[ci as int];
        assert(pick_action_done(s0, *state, d0, res, c, door_id));
    }
    Ok(res)
}

/// `s` is `s0` after entering a new dungeon at `level`, whose only room,
/// numbered 0 and named `name`, is where the party stands.
pub open spec fn entered(s0: GameState, s: GameState, level: u32, name: Seq<char>) -> bool {
    &&& s == GameState { dungeon: s.dungeon, time: s.time, dungeon_level: level, mode: GameMode::Exploration, ..s0 }
    &&& s.dungeon matches Some(d) && d.level == level && d.rooms@.len() == 1 && fresh_room(d.rooms@[0], 0, name)
        && d.doors@.len() == 0 && d.current_room == Some(0u32) && d.explored@ == seq![0u32]
    &&& s.time matches Some(t) && t.total_turns == 0 && t.turns_since_rest == 0 && t.lights@.len() == 0
}

/// Enters a new dungeon at a level, starting in a room of the given name.
pub fn action_enter_dungeon(state: &mut GameState, level: u32, room_name: &str) -> (r: Result<EnterDungeonResult, EngineError>)
    ensures
        match old(state).mode {
            GameMode::Wilderness => r matches Err(e) && wrong_state(
                e,
                "cannot enter dungeon while in wilderness mode. Use LeaveWilderness first."@,
            ) && *final(state) == *old(state),
            GameMode::Combat => r matches Err(e) && wrong_state(e, "cannot enter dungeon during combat. Use EndCombat first."@)
                && *final(state) == *old(state),
            GameMode::Exploration => r matches Err(e) && wrong_state(e, "already in exploration mode. Use LeaveDungeon first."@)
                && *final(state) == *old(state),
            GameMode::CharGen => r matches Err(e) && wrong_state(e, "cannot enter dungeon during character generation."@)
                && *final(state) == *old(state),
            GameMode::Idle | GameMode::Downtime => if level == 0 {
                r matches Err(e) && invalid(e, "level must be a positive integer."@) && *final(state) == *old(state)
            } else {
                r matches Ok(res) && entered(*old(state), *final(state), level, room_name@) && res.level == level
                    && res.room_name@ == room_name@ && res.message@ == "entered dungeon level "@ + nat_text(level as nat)
                    + ". starting room: "@ + room_name@ + "."@
            },
        },
{
    match state.mode {
        GameMode::Idle | GameMode::Downtime => {},
        GameMode::CharGen => {
            return Err(EngineError::WrongState(String::from_str("cannot enter dungeon during character generation.")));
        },
        GameMode::Wilderness => {
            return Err(
                EngineError::WrongState(
                    String::from_str("cannot enter dungeon while in wilderness mode. Use LeaveWilderness first."),
                ),
            );
        },
        GameMode::Combat => {
            return Err(EngineError::WrongState(String::from_str("cannot enter dungeon during combat. Use EndCombat first.")));
        },
        GameMode::Exploration => {
            return Err(EngineError::WrongState(String::from_str("already in exploration mode. Use LeaveDungeon first.")));
        },
    }
    if level == 0 {
        return Err(EngineError::InvalidInput(String::from_str("level must be a positive integer.")));
    }
    let mut dungeon = DungeonState::new(level);
    match dungeon.add_room(Room::new(0, room_name)) {
        Err(e) => return Err(EngineError::Internal(e)),
        Ok(()) => {},
    }
    dungeon.explore_current();
    proof {
        assert(dungeon.explored@ =~= seq![0u32]);
    }
    state.enter_exploration(dungeon, level);
    let mut message = String::from_str("entered dungeon level ");
    append_nat(&mut message, level as u64);
    message.append(". starting room: ");
    message.append(room_name);
    message.append(".");
    Ok(EnterDungeonResult { message, level, room_name: String::from_str(room_name) })
}

/// Whether one of the lights is carried by `who`.
pub open spec fn carries_light(ls: Seq<LightSource>, who: Seq<char>) -> bool {
    exists|j: int| 0 <= j < ls.len() && (#[trigger] ls[j]).carrier@ == who
}

/// Lights a light source carried by a party member; one light each.
pub fn action_light(state: &mut GameState, source: LightSourceKind, carrier: &str) -> (r: Result<LightResult, EngineError>)
    ensures
        match old(state).time {
            None => r matches Err(e) && no_clock(e) && *final(state) == *old(state),
            Some(t0) => if carries_light(t0.lights@, carrier@) {
                r matches Err(e) && wrong_state(e, carrier@ + " already has an active light source."@) && *final(state)
                    == *old(state)
            } else {
                &&& r matches Ok(res) && res.source@ == light_name(source) && res.carrier@ == carrier@
                    && res.duration_turns == light_turns(source) && res.message@ == carrier@ + " lights a "@
                    + light_name(source) + " ("@ + nat_text(light_turns(source) as nat) + " turns)."@
                &&& final(state).time matches Some(t) && t.total_turns == t0.total_turns && t.turns_since_rest
                    == t0.turns_since_rest && t.lights@.drop_last() == t0.lights@ && t.lights@.len() == t0.lights@.len()
                    + 1 && t.lights@.last().kind == source && t.lights@.last().carrier@ == carrier@
                    && t.lights@.last().turns_remaining == light_turns(source)
                &&& *final(state) == GameState { time: final(state).time, ..*old(state) }
            },
        },
{
    if state.time.is_none() {
        return Err(EngineError::WrongState(String::from_str("not in exploration mode.")));
    }
    let ghost s0 = *state;
    let mut t = state.time.take().unwrap();
    let ghost t0 = t;
    let mut i: usize = 0;
    while i < t.lights.len()
        invariant
            t == t0,
            s0 == *old(state),
            s0.time == Some(t0),
            *state == (GameState { time: None, ..s0 }),
            i <= t.lights@.len(),
            forall|j: int| 0 <= j < i ==> (#[trigger] t.lights@[j]).carrier@ != carrier@,
        decreases t.lights@.len() - i,
    {
        if str_eq(t.lights[i].carrier.as_str(), carrier) {
            proof {
                assert(t.lights@[i as int].carrier@ == carrier@);
            }
            state.time = Some(t);
            proof {
                assert(*state == s0);
            }
            let mut m = String::from_str(carrier);
            m.append(" already has an active light source.");
            let e = EngineError::WrongState(m);
            proof {
                assert(carries_light(t0.lights@, carrier@));
                assert(wrong_state(e, carrier@ + " already has an active light source."@));
            }
            return Err(e);
        }
        i = i + 1;
    }
    t.light(source, carrier);
    state.time = Some(t);
    let mut message = String::from_str(carrier);
    message.append(" lights a ");
    message.append(source.name());
    message.append(" (");
    append_nat(&mut message, source.max_turns() as u64);
    message.append(" turns).");
    Ok(
        LightResult {
            message,
            source: String::from_str(source.name()),
            carrier: String::from_str(carrier),
            duration_turns: source.max_turns(),
        },
    )
}

/// Lines, each put after a line break.
pub open spec fn prefixed_lines(ls: Seq<Seq<char>>) -> Seq<char>
    decreases ls.len(),
{
    if ls.len() == 0 {
        Seq::empty()
    } else {
        prefixed_lines(ls.drop_last()) + "\n"@ + ls.last()
    }
}

fn append_prefixed(out: &mut String, ls: &Vec<String>)
    ensures
        final(out)@ == old(out)@ + prefixed_lines(texts(ls@)),
{
    let ghost o0 = out@;
    let mut i: usize = 0;
    while i < ls.len()
        invariant
            i <= ls@.len(),
            out@ == o0 + prefixed_lines(texts(ls@).take(i as int)),
        decreases ls@.len() - i,
    {
        proof {
            assert(texts(ls@).take(i as int + 1).drop_last() =~= texts(ls@).take(i as int));
        }
        out.append("\n");
        out.append(ls[i].as_str());
        i = i + 1;
    }
    proof {
        assert(texts(ls@).take(ls@.len() as int) =~= texts(ls@));
    }
}

/// The clock `t` after the party rests for a turn from `t0`.
pub open spec fn rested(t0: TimeTracker, t: TimeTracker) -> bool {
    &&& t.total_turns == t0.total_turns + 1
    &&& t.turns_since_rest == 0
    &&& t.lights@ == lights_after_turn(t0.lights@)
}

/// `s` is `s0` after a turn of rest: the clock went from `t0` to `t` and
/// the turn-based effects ticked, with `expired` reporting those that ran
/// out.
pub open spec fn rested_with(s0: GameState, s: GameState, t0: TimeTracker, t: TimeTracker, expired: Seq<Seq<char>>) -> bool {
    &&& rested(t0, t)
    &&& turn_effects_ticked(GameState { time: Some(t), ..s0 }, s, expired)
}

/// The party rests for a turn: the activity counter starts again, lights
/// burn and turn-based effects count down.
pub fn action_rest(state: &mut GameState) -> (r: Result<RestResult, EngineError>)
    requires
        clock_ok(*old(state)),
    ensures
        match old(state).time {
            None => r matches Err(e) && no_clock(e) && *final(state) == *old(state),
            Some(t0) => r matches Ok(res) && res.total_turns == t0.total_turns + 1 && exists|t: TimeTracker, expired: Seq<Seq<char>>|
                #[trigger] rested_with(*old(state), *final(state), t0, t, expired)
                    && res.message@ == "party rests for one turn. activity counter reset."@ + prefixed_lines(
                    burnt_out_messages(t0.lights@) + expired,
                ),
        },
{
    if state.time.is_none() {
        return Err(EngineError::WrongState(String::from_str("not in exploration mode.")));
    }
    let ghost s0 = *state;
    let mut t = state.time.take().unwrap();
    let ghost t0 = t;
    let mut msgs = t.rest();
    let total_turns = t.total_turns;
    let ghost tg = t;
    state.time = Some(t);
    let ghost mid = *state;
    let mut expired = tick_turn(state);
    let ghost exg = texts(expired@);
    let ghost burnt = texts(msgs@);
    msgs.append(&mut expired);
    proof {
        assert(texts(msgs@) =~= burnt + exg);
    }
    let mut message = String::from_str("party rests for one turn. activity counter reset.");
    append_prefixed(&mut message, &msgs);
    let res = RestResult { message, total_turns };
    proof {
        assert(mid == GameState { time: Some(tg), ..s0 });
        assert(rested(t0, tg));
        assert(turn_effects_ticked(GameState { time: Some(tg), ..s0 }, *state, exg));
        assert(rested_with(s0, *state, t0, tg, exg));
    }
    Ok(res)
}

/// Adds a room to the dungeon.
pub fn action_add_room(state: &mut GameState, room_id: u32, name: &str) -> (r: Result<AddRoomResult, EngineError>)
    ensures
        match old(state).dungeon {
            None => r matches Err(e) && no_dungeon(e) && *final(state) == *old(state),
            Some(d0) => match room_index(d0.rooms@, room_id) {
                Some(_) => r matches Err(e) && invalid(e, room_exists_text(room_id as nat)) && *final(state) == *old(state),
                None => {
                    &&& r matches Ok(res) && res.room_id == room_id && res.name@ == name@ && res.message@ == "added room "@
                        + nat_text(room_id as nat) + ": "@ + name@ + "."@
                    &&& final(state).dungeon matches Some(d) && d == DungeonState { rooms: d.rooms, current_room: d.current_room, ..d0 }
                        && d.rooms@.drop_last() == d0.rooms@ && d.rooms@.len() == d0.rooms@.len() + 1 && fresh_room(
                        d.rooms@.last(),
                        room_id,
                        name@,
                    ) && d.current_room == match d0.current_room {
                        Some(c) => Some(c),
                        None => Some(room_id),
                    }
                    &&& *final(state) == GameState { dungeon: final(state).dungeon, ..*old(state) }
                },
            },
        },
{
    if state.dungeon.is_none() {
        return Err(EngineError::WrongState(String::from_str("no dungeon state.")));
    }
    let mut d = state.dungeon.take().unwrap();
    let ghost d0 = d;
    let room = Room::new(room_id, name);
    let ghost rg = room;
    let added = d.add_room(room);
    proof {
        if added is Ok {
            assert(d.rooms@.drop_last() =~= d0.rooms@);
        }
    }
    state.dungeon = Some(d);
    match added {
        Err(e) => Err(EngineError::InvalidInput(e)),
        Ok(()) => {
            let mut message = String::from_str("added room ");
            append_nat(&mut message, room_id as u64);
            message.append(": ");
            message.append(name);
            message.append(".");
            Ok(AddRoomResult { message, room_id, name: String::from_str(name) })
        },
    }
}

/// Adds a door between two rooms of the dungeon.
pub fn action_add_door(state: &mut GameState, door_id: u32, room_a: u32, room_b: u32, door_state: DoorState) -> (r: Result<
    AddDoorResult,
    EngineError,
>)
    ensures
        match old(state).dungeon {
            None => r matches Err(e) && no_dungeon(e) && *final(state) == *old(state),
            Some(d0) => if room_a == room_b {
                r matches Err(e) && invalid(e, self_door_text(door_id as nat)) && *final(state) == *old(state)
            } else if door_index(d0.doors@, door_id) is Some {
                r matches Err(e) && invalid(e, door_exists_text(door_id as nat)) && *final(state) == *old(state)
            } else if room_index(d0.rooms@, room_a) is None {
                r matches Err(e) && invalid(e, no_room_text(room_a as nat)) && *final(state) == *old(state)
            } else if room_index(d0.rooms@, room_b) is None {
                r matches Err(e) && invalid(e, no_room_text(room_b as nat)) && *final(state) == *old(state)
            } else {
                &&& r matches Ok(res) && res.door_id == door_id && res.room_a == room_a && res.room_b == room_b
                    && res.door_state == door_state && res.message@ == "added door "@ + nat_text(door_id as nat)
                    + " between rooms "@ + nat_text(room_a as nat) + " and "@ + nat_text(room_b as nat) + " ("@
                    + door_state_text(door_state) + ")."@
                &&& final(state).dungeon matches Some(d) && d == DungeonState { doors: d.doors, ..d0 } && d.doors@
                    == d0.doors@.push(
                    Door {
                        id: door_id,
                        room_a,
                        room_b,
                        state: door_state,
                        discovered: false,
                        module_open: false,
                        connection_type: ConnectionType::Door,
                    },
                )
                &&& *final(state) == GameState { dungeon: final(state).dungeon, ..*old(state) }
            },
        },
{
    if state.dungeon.is_none() {
        return Err(EngineError::WrongState(String::from_str("no dungeon state.")));
    }
    let door = match Door::new(door_id, room_a, room_b, door_state) {
        Err(e) => return Err(EngineError::InvalidInput(e)),
        Ok(d) => d,
    };
    let mut d = state.dungeon.take().unwrap();
    let added = d.add_door(door);
    state.dungeon = Some(d);
    match added {
        Err(e) => Err(EngineError::InvalidInput(e)),
        Ok(()) => {
            let mut message = String::from_str("added door ");
            append_nat(&mut message, door_id as u64);
            message.append(" between rooms ");
            append_nat(&mut message, room_a as u64);
            message.append(" and ");
            append_nat(&mut message, room_b as u64);
            message.append(" (");
            message.append(door_state.name());
            message.append(").");
            Ok(AddDoorResult { message, door_id, room_a, room_b, door_state })
        },
    }
}

/// The status of the clock and the dungeon.
pub fn action_exploration_status(state: &GameState) -> (r: Result<ExplorationStatusResult, EngineError>)
    ensures
        match (state.time, state.dungeon) {
            (None, _) => r matches Err(e) && no_clock(e),
            (Some(_), None) => r matches Err(e) && no_dungeon(e),
            (Some(t), Some(d)) => r matches Ok(res) && res.message@ == exploration_status_text(t, d),
        },
{
    match &state.time {
        None => Err(EngineError::WrongState(String::from_str("not in exploration mode."))),
        Some(t) => match &state.dungeon {
            None => Err(EngineError::WrongState(String::from_str("no dungeon state."))),
            Some(d) => Ok(ExplorationStatusResult { message: exploration_status(t, d) }),
        },
    }
}

/// The line for an exit of room `room_id` seen on a look around.
pub open spec fn look_door_line(d: DungeonState, door: Door, room_id: u32) -> Seq<char> {
    let dest = if door.room_a == room_id {
        door.room_b
    } else {
        door.room_a
    };
    let dest_name = match room_index(d.rooms@, dest) {
        Some(k) => d.rooms@[k].name@,
        None => "?"@,
    };
    "  Door "@ + nat_text(door.id as nat) + " → "@ + nat_text(dest as nat) + " ("@ + dest_name + ") ["@
        + door_state_text(door.state) + "]"@
}

/// The lines of a look around room `room` (id `room_id`): its name, its
/// description and its exits.
pub open spec fn look_lines(d: DungeonState, room: Room, room_id: u32) -> Seq<Seq<char>> {
    let doors = doors_from_current_spec(d);
    seq![
        "== "@ + room.name@ + " (room "@ + nat_text(room.id as nat) + ") =="@,
        if room.description@.len() == 0 {
            "No description available."@
        } else {
            room.description@
        },
    ] + if doors.len() == 0 {
        Seq::empty()
    } else {
        seq![Seq::<char>::empty(), "Exits:"@] + doors.map_values(|door: Door| look_door_line(d, door, room_id))
    }
}

fn push_line(v: &mut Vec<String>, s: String)
    ensures
        texts(final(v)@) == texts(old(v)@).push(s@),
{
    let ghost v0 = texts(v@);
    v.push(s);
    proof {
        assert(texts(v@) =~= v0.push(s@));
    }
}

fn look_door_text(d: &DungeonState, door: Door, room_id: u32) -> (r: String)
    ensures
        r@ == look_door_line(*d, door, room_id),
{
    let dest = if door.room_a == room_id {
        door.room_b
    } else {
        door.room_a
    };
    let mut line = String::from_str("  Door ");
    append_nat(&mut line, door.id as u64);
    line.append(" → ");
    append_nat(&mut line, dest as u64);
    line.append(" (");
    match d.find_room(dest) {
        Some(room) => line.append(room.name.as_str()),
        None => line.append("?"),
    }
    line.append(") [");
    line.append(door.state.name());
    line.append("]");
    line
}

/// A look around the party's room: its name, description and exits.
pub fn action_look(state: &GameState) -> (r: Result<LookResult, EngineError>)
    ensures
        match state.dungeon {
            None => r matches Err(e) && no_dungeon(e),
            Some(d) => match d.current_room {
                None => r matches Err(e) && wrong_state(e, "no current room."@),
                Some(id) => match room_index(d.rooms@, id) {
                    None => r matches Err(e) && e is Internal && error_text(e) == "room "@ + nat_text(id as nat)
                        + " not found."@,
                    Some(k) => r matches Ok(res) && res.message@ == join_text(look_lines(d, d.rooms@[k], id), "\n"@)
                        && res.room_id == id && res.room_name@ == d.rooms@[k].name@ && res.description@
                        == d.rooms@[k].description@,
                },
            },
        },
{
    let d = match &state.dungeon {
        None => return Err(EngineError::WrongState(String::from_str("no dungeon state."))),
        Some(d) => d,
    };
    let room_id = match d.current_room {
        None => return Err(EngineError::WrongState(String::from_str("no current room."))),
        Some(id) => id,
    };
    let room = match d.find_room(room_id) {
        None => {
            let mut m = String::from_str("room ");
            append_nat(&mut m, room_id as u64);
            m.append(" not found.");
            return Err(EngineError::Internal(m));
        },
        Some(room) => room,
    };
    let mut lines: Vec<String> = Vec::new();
    let mut head = String::from_str("== ");
    head.append(room.name.as_str());
    head.append(" (room ");
    append_nat(&mut head, room.id as u64);
    head.append(") ==");
    push_line(&mut lines, head);
    if room.description.as_str().unicode_len() == 0 {
        push_line(&mut lines, String::from_str("No description available."));
    } else {
        push_line(&mut lines, room.description.clone());
    }
    let ghost l0 = texts(lines@);
    let doors = d.doors_from_current();
    if doors.len() > 0 {
        push_line(&mut lines, String::new());
        push_line(&mut lines, String::from_str("Exits:"));
        let ghost l1 = texts(lines@);
        let mut i: usize = 0;
        while i < doors.len()
            invariant
                i <= doors@.len(),
                doors@ == doors_from_current_spec(*d),
                d.current_room == Some(room_id),
                texts(lines@) == l1 + doors@.take(i as int).map_values(|door: Door| look_door_line(*d, door, room_id)),
            decreases doors@.len() - i,
        {
            push_line(&mut lines, look_door_text(d, doors[i], room_id));
            proof {
                assert(doors@.take(i as int + 1).map_values(|door: Door| look_door_line(*d, door, room_id)) =~= doors@.take(
                    i as int,
                ).map_values(|door: Door| look_door_line(*d, door, room_id)).push(look_door_line(*d, doors@[i as int], room_id)));
            }
            i = i + 1;
        }
        proof {
            assert(doors@.take(doors@.len() as int) =~= doors@);
        }
    }
    proof {
        assert(texts(lines@) =~= look_lines(*d, *room, room_id));
    }
    let mut message = String::new();
    append_joined(&mut message, &lines, "\n");
    Ok(LookResult { message, room_id, room_name: room.name.clone(), description: room.description.clone() })
}

/// Position of the last living party member among the first `n` with the
/// highest STR.
pub open spec fn strongest_from(ms: Seq<Character>, n: int) -> Option<int>
    decreases n,
{
    if n <= 0 {
        None
    } else {
        let rest = strongest_from(ms, n - 1);
        if ms[n - 1].hp > 0 && match rest {
            Some(b) => ms[n - 1].abilities.strength >= ms[b].abilities.strength,
            None => true,
        } {
            Some(n - 1)
        } else {
            rest
        }
    }
}

proof fn lemma_strongest_in_range(ms: Seq<Character>, n: int)
    requires
        0 <= n <= ms.len(),
    ensures
        strongest_from(ms, n) matches Some(i) ==> 0 <= i < n,
    decreases n,
{
    if n > 0 {
        lemma_strongest_in_range(ms, n - 1);
    }
}

fn strongest_member(ms: &Vec<Character>) -> (r: Option<usize>)
    ensures
        match r {
            Some(i) => strongest_from(ms@, ms@.len() as int) == Some(i as int) && i < ms@.len(),
            None => strongest_from(ms@, ms@.len() as int) is None,
        },
{
    let mut best: Option<usize> = None;
    let mut i: usize = 0;
    while i < ms.len()
        invariant
            i <= ms@.len(),
            match best {
                Some(b) => strongest_from(ms@, i as int) == Some(b as int) && b < i,
                None => strongest_from(ms@, i as int) is None,
            },
        decreases ms@.len() - i,
    {
        if ms[i].hp > 0 {
            let better = match best {
                Some(b) => ms[i].abilities.strength >= ms[b].abilities.strength,
                None => true,
            };
            if better {
                best = Some(i);
            }
        }
        i = i + 1;
    }
    best
}

/// The report of opening a door, with its steps.
pub open spec fn open_report(res: OpenDoorResult, door_id: u32, steps: Seq<Seq<char>>, forced: bool, moved: bool) -> bool {
    &&& res.door_id == door_id
    &&& texts(res.steps@) == steps
    &&& res.message@ == join_text(steps, "\n"@)
    &&& res.forced == forced
    &&& res.moved == moved
}

/// Walking through a passable door after the steps `prior`, from state `s1`.
pub open spec fn open_then_move(
    s1: GameState,
    s: GameState,
    r: Result<OpenDoorResult, EngineError>,
    door_id: u32,
    prior: Seq<Seq<char>>,
    forced: bool,
) -> bool {
    exists|mr: Result<ExplorationActionResult, EngineError>|
        #[trigger] move_action_done(s1, s, mr, door_id) && match mr {
            Ok(m) => r matches Ok(res) && open_report(res, door_id, prior.push(m.message@), forced, true),
            Err(e) => if prior.len() == 0 {
                r matches Err(x) && x == e
            } else {
                r matches Ok(res) && open_report(res, door_id, prior.push("error: "@ + error_text(e)), true, false)
            },
        }
}

/// Outcome of opening door `door_id` that is neither open, locked nor
/// stuck: the strongest living member forces it, then, if it gave, the
/// party walks through.
pub open spec fn forced_then_move(
    s0: GameState,
    s: GameState,
    r: Result<OpenDoorResult, EngineError>,
    d0: DungeonState,
    k: int,
    door_id: u32,
) -> bool {
    match strongest_from(s0.party.members@, s0.party.members@.len() as int) {
        None => r matches Err(e) && invalid(e, "no living party members to force the door."@) && s == s0,
        Some(i) => forced_by(s0, s, r, d0, k, door_id, i),
    }
}

/// Outcome of member `i` forcing door `k` (id `door_id`), then, if it
/// gave, the party walking through.
pub open spec fn forced_by(
    s0: GameState,
    s: GameState,
    r: Result<OpenDoorResult, EngineError>,
    d0: DungeonState,
    k: int,
    door_id: u32,
    i: int,
) -> bool {
    exists|d1: DungeonState, fm: Seq<char>|
        #[trigger] force_done(d0, d1, fm, s0.party.members@[i], door_id) && if d1.doors@[k].state != DoorState::Open {
            r matches Ok(res) && open_report(res, door_id, seq![fm], true, false) && s == GameState {
                dungeon: Some(d1),
                ..s0
            }
        } else {
            open_then_move(GameState { dungeon: Some(d1), ..s0 }, s, r, door_id, seq![fm], true)
        }
}

/// Opens a door and walks through: an open door is walked through; a
/// closed one (or a secret one) is forced by the strongest living member
/// first; locked and stuck doors are refused.
pub fn action_open_door(state: &mut GameState, door_id: u32) -> (r: Result<OpenDoorResult, EngineError>)
    requires
        clock_ok(*old(state)),
    ensures
        match old(state).dungeon {
            None => r matches Err(e) && no_dungeon(e) && *final(state) == *old(state),
            Some(d0) => match door_index(d0.doors@, door_id) {
                None => r matches Err(e) && invalid(e, "door "@ + nat_text(door_id as nat) + " not found."@)
                    && *final(state) == *old(state),
                Some(k) => {
                    let door = d0.doors@[k];
                    if door.state == DoorState::Locked {
                        r matches Err(e) && invalid(
                            e,
                            "door "@ + nat_text(door_id as nat) + " is locked. it must be unlocked before it can be opened."@,
                        ) && *final(state) == *old(state)
                    } else if door.state == DoorState::Stuck {
                        r matches Err(e) && invalid(
                            e,
                            "door "@ + nat_text(door_id as nat) + " is stuck. Use ForceDoor to attempt to force it open."@,
                        ) && *final(state) == *old(state)
                    } else if door.state == DoorState::Open {
                        open_then_move(*old(state), *final(state), r, door_id, Seq::empty(), false)
                    } else {
                        forced_then_move(*old(state), *final(state), r, d0, k, door_id)
                    }
                },
            },
        },
{
    let ghost s0 = *state;
    let door = match &state.dungeon {
        None => return Err(EngineError::WrongState(String::from_str("no dungeon state."))),
        Some(d) => match d.find_door(door_id) {
            None => {
                let mut m = String::from_str("door ");
                append_nat(&mut m, door_id as u64);
                m.append(" not found.");
                return Err(EngineError::InvalidInput(m));
            },
            Some(x) => x,
        },
    };
    proof {
        lemma_door_index(s0.dungeon->0.doors@, door_id);
    }
    if door.state == DoorState::Locked {
        let mut m = String::from_str("door ");
        append_nat(&mut m, door_id as u64);
        m.append(" is locked. it must be unlocked before it can be opened.");
        return Err(EngineError::InvalidInput(m));
    }
    if door.state == DoorState::Stuck {
        let mut m = String::from_str("door ");
        append_nat(&mut m, door_id as u64);
        m.append(" is stuck. Use ForceDoor to attempt to force it open.");
        return Err(EngineError::InvalidInput(m));
    }
    let passable = door.is_passable();
    let mut output: Vec<String> = Vec::new();
    let ghost mut d1g: DungeonState = s0.dungeon->0;
    let ghost mut fmg: Seq<char> = Seq::empty();
    let ghost mut sig: int = 0;
    if !passable {
        let si = match strongest_member(&state.party.members) {
            None => return Err(EngineError::InvalidInput(String::from_str("no living party members to force the door."))),
            Some(i) => i,
        };
        let mut dd = state.dungeon.take().unwrap();
        let ghost d0 = dd;
        let fm = force_door(&mut dd, door_id, &state.party.members[si]);
        proof {
            d1g = dd;
            fmg = fm@;
            sig = si as int;
            assert forall|j: int| 0 <= j < d0.doors@.len() implies (#[trigger] d0.doors@[j]).id == d1g.doors@[j].id by {
                if d1g.doors@ != d0.doors@ {
                    let k = door_index(d0.doors@, door_id)->0;
                    assert(d1g.doors@[j] == d0.doors@.update(k, Door { state: DoorState::Open, ..d0.doors@[k] })[j]);
                }
            };
            lemma_door_index_same_ids(d0.doors@, d1g.doors@, door_id);
        }
        let still_shut = match dd.find_door(door_id) {
            Some(x) => !x.is_passable(),
            None => {
                state.dungeon = Some(dd);
                let mut m = String::from_str("door ");
                append_nat(&mut m, door_id as u64);
                m.append(" not found after forcing.");
                return Err(EngineError::Internal(m));
            },
        };
        state.dungeon = Some(dd);
        push_line(&mut output, fm);
        if still_shut {
            let mut message = String::new();
            append_joined(&mut message, &output, "\n");
            let res = OpenDoorResult { message, door_id, steps: output, forced: true, moved: false };
            let r = Ok(res);
            proof {
                let k = door_index(d0.doors@, door_id)->0;
                assert(texts(res.steps@) =~= seq![fmg]);
                assert(force_done(d0, d1g, fmg, s0.party.members@[si as int], door_id));
                assert(*state == GameState { dungeon: Some(d1g), ..s0 });
                assert(d1g.doors@[k].state != DoorState::Open);
                assert(strongest_from(s0.party.members@, s0.party.members@.len() as int) == Some(si as int));
                assert(open_report(res, door_id, seq![fmg], true, false));
                assert(s0.dungeon == Some(d0));
                assert(door_index(d0.doors@, door_id) == Some(k));
                let i = si as int;
                assert(r matches Ok(res) && open_report(res, door_id, seq![fmg], true, false) && *state == GameState {
                    dungeon: Some(d1g),
                    ..s0
                });
                assert(exists|d1: DungeonState, fm: Seq<char>|
                    #[trigger] force_done(d0, d1, fm, s0.party.members@[i], door_id) && if d1.doors@[k].state
                        != DoorState::Open {
                        r matches Ok(res) && open_report(res, door_id, seq![fm], true, false) && *state == GameState {
                            dungeon: Some(d1),
                            ..s0
                        }
                    } else {
                        open_then_move(GameState { dungeon: Some(d1), ..s0 }, *state, r, door_id, seq![fm], true)
                    });
                assert(forced_by(s0, *state, r, d0, k, door_id, i));
                assert(forced_then_move(s0, *state, r, d0, k, door_id));
            }
            return r;
        }
        proof {
            let k = door_index(d0.doors@, door_id)->0;
            assert(force_done(d0, d1g, fmg, s0.party.members@[si as int], door_id));
            assert(*state == GameState { dungeon: Some(d1g), ..s0 });
            assert(texts(output@) =~= seq![fmg]);
            assert(d1g.doors@[k].state == DoorState::Open);
            assert(strongest_from(s0.party.members@, s0.party.members@.len() as int) == Some(si as int));
        }
    }
    let ghost s1 = *state;
    let ghost prior = texts(output@);
    proof {
        if passable {
            assert(prior =~= Seq::<Seq<char>>::empty());
        }
    }
    let moved = action_move_through_door(state, door_id);
    let ghost mg = moved;
    let r = match moved {
        Ok(m) => {
            push_line(&mut output, m.message);
            let mut message = String::new();
            append_joined(&mut message, &output, "\n");
            Ok(OpenDoorResult { message, door_id, steps: output, forced: !passable, moved: true })
        },
        Err(e) => {
            if output.len() == 0 {
                Err(e)
            } else {
                let mut line = String::from_str("error: ");
                let et = e.to_string();
                line.append(et.as_str());
                push_line(&mut output, line);
                let mut message = String::new();
                append_joined(&mut message, &output, "\n");
                Ok(OpenDoorResult { message, door_id, steps: output, forced: true, moved: false })
            }
        },
    };
    proof {
        assert(move_action_done(s1, *state, mg, door_id));
        assert(open_then_move(s1, *state, r, door_id, prior, !passable));
        if !passable {
            assert(force_done(s0.dungeon->0, d1g, fmg, s0.party.members@[sig], door_id));
            let k = door_index(s0.dungeon->0.doors@, door_id)->0;
            assert(forced_by(s0, *state, r, s0.dungeon->0, k, door_id, sig));
            assert(forced_then_move(s0, *state, r, s0.dungeon->0, k, door_id));
        }
    }
    r
}

} // verus!
