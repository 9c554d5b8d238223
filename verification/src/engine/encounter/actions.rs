//! Encounter actions on the game state.
use vstd::prelude::*;

use crate::engine::combat::actions::{invalid, no_member_text, wrong_state};
use crate::engine::encounter_engine::{
    EncounterSequence, begin_encounter_dungeon, one_side_surprised,
    EvasionResult, check_surprise, evasion_chance_of, evasion_text, reaction_of, reaction_roll,
    reaction_text, surprise_of, surprise_text, attempt_evasion,
};
use crate::model::{Character, hp_alive};
use crate::rules::{cha_reaction, cha_reaction_mod};
use crate::dice::{dice_of, i32_value, parse, parse_i32, roll};
use crate::state::{EngineError, GameMode, GameState, member_index};
use crate::text::{append_int, append_nat, int_text, nat_text};

use super::results::{
    EncounterEntry, RollEncounterResult, EvadeResult, RollReactionResult, RollSurpriseResult, reaction_api_message, reaction_api_text,
    surprise_api_text,
};

verus! {

/// Rolls for surprise on both sides.
pub fn action_roll_surprise(state: &GameState) -> (r: Result<RollSurpriseResult, EngineError>)
    ensures
        r matches Ok(res) && 1 <= res.party_roll <= 6 && 1 <= res.monster_roll <= 6 && res.result@
            == surprise_text(surprise_of(res.party_roll as int, res.monster_roll as int))
            && res.message@ == surprise_api_text(
            res.party_roll as nat,
            res.monster_roll as nat,
            res.result@,
        ),
{
    let (result, party_roll, monster_roll) = check_surprise();
    let text = result.to_string();
    let mut message = String::from_str("party roll: ");
    append_nat(&mut message, party_roll as u64);
    message.append(" monster roll: ");
    append_nat(&mut message, monster_roll as u64);
    message.append(" — ");
    message.append(text.as_str());
    Ok(RollSurpriseResult { message, party_roll, monster_roll, result: text })
}

/// A party member speaks to the monsters: a reaction roll with the
/// speaker's CHA modifier.
pub fn action_roll_reaction(state: &GameState, char_name: &str) -> (r: Result<
    RollReactionResult,
    EngineError,
>)
    ensures
        match member_index(state.party.members@, char_name@) {
            None => r matches Err(e) && invalid(e, no_member_text(char_name@)),
            Some(i) => {
                let c = state.party.members@[i];
                let m = cha_reaction(c.abilities.charisma as int);
                r matches Ok(res) && res.character@ == c.name@ && res.charisma
                    == c.abilities.charisma && res.cha_modifier == m && 2 <= res.raw_roll <= 12
                    && res.modified_roll == res.raw_roll + m && res.reaction@ == reaction_text(
                    reaction_of(res.modified_roll as int),
                ) && res.message@ == reaction_api_text(
                    c.name@,
                    res.charisma as int,
                    m,
                    res.raw_roll as int,
                    res.modified_roll as int,
                    res.reaction@,
                )
            },
        },
{
    let ci = match state.party.find_index(char_name) {
        Some(i) => i,
        None => {
            let mut m = String::from_str("no party member named '");
            m.append(char_name);
            m.append("'.");
            return Err(EngineError::InvalidInput(m));
        },
    };
    let character = &state.party.members[ci];
    let charisma = character.abilities.charisma;
    let (reaction, raw_roll, modified_roll) = reaction_roll(charisma);
    let cha_modifier = cha_reaction_mod(charisma);
    let text = reaction.to_string();
    let message = reaction_api_message(
        &character.name,
        charisma,
        cha_modifier,
        raw_roll,
        modified_roll,
        &text,
    );
    Ok(
        RollReactionResult {
            message,
            character: character.name.clone(),
            charisma,
            cha_modifier,
            raw_roll,
            modified_roll,
            reaction: text,
        },
    )
}

/// Number of living members among the first `n`.
pub open spec fn living_count(ms: Seq<Character>, n: int) -> nat
    decreases n,
{
    if n <= 0 {
        0
    } else {
        living_count(ms, n - 1) + if hp_alive(ms[n - 1].hp) {
            1nat
        } else {
            0nat
        }
    }
}

/// The slowest movement rate among the first `n` living members (120 when
/// there is none).
pub open spec fn slowest_living(ms: Seq<Character>, n: int) -> u32
    decreases n,
{
    if n <= 0 {
        120
    } else {
        let rest = slowest_living(ms, n - 1);
        if !hp_alive(ms[n - 1].hp) {
            rest
        } else if living_count(ms, n - 1) == 0 || ms[n - 1].movement_rate < rest {
            ms[n - 1].movement_rate
        } else {
            rest
        }
    }
}

/// Message of an evasion attempt.
pub open spec fn evade_text(
    party_size: nat,
    party_movement: nat,
    monster_count: nat,
    monster_movement: nat,
    outcome: Seq<char>,
) -> Seq<char> {
    "Party ("@ + nat_text(party_size) + " members, "@ + nat_text(party_movement)
        + "' movement) vs "@ + nat_text(monster_count) + " monsters ("@ + nat_text(monster_movement)
        + "' movement)\n"@ + outcome
}

/// The living party tries to evade the monsters, moving at the pace of its
/// slowest living member.
pub fn action_evade(state: &GameState, monster_count: u32, monster_movement: u32) -> (r: Result<
    EvadeResult,
    EngineError,
>)
    requires
        state.party.members@.len() <= u32::MAX,
    ensures
        ({
            let ms = state.party.members@;
            let size = living_count(ms, ms.len() as int);
            let pace = slowest_living(ms, ms.len() as int);
            if size == 0 {
                r matches Err(e) && invalid(e, "no living party members."@)
            } else {
                match r {
                    Ok(res) => {
                        &&& res.party_size == size
                        &&& res.party_movement == pace
                        &&& res.monster_count == monster_count
                        &&& res.monster_movement == monster_movement
                        &&& pace > monster_movement ==> res.escaped
                        &&& exists|e: EvasionResult|
                            #![trigger evasion_text(e)]
                            e.escaped == res.escaped && res.message@ == evade_text(
                                size,
                                pace as nat,
                                monster_count as nat,
                                monster_movement as nat,
                                evasion_text(e),
                            ) && (pace <= monster_movement ==> (e.chance == Some(
                                evasion_chance_of(size as u32, monster_count),
                            ) && match e.roll {
                                Some(roll) => 1 <= roll <= 100 && e.escaped == (roll <= e.chance->0),
                                None => false,
                            }))
                    },
                    Err(_) => false,
                }
            }
        }),
{
    let mut size: u32 = 0;
    let mut pace: u32 = 120;
    let mut i: usize = 0;
    while i < state.party.members.len()
        invariant
            i <= state.party.members@.len(),
            state.party.members@.len() <= u32::MAX,
            size == living_count(state.party.members@, i as int),
            size <= i,
            pace == slowest_living(state.party.members@, i as int),
        decreases state.party.members@.len() - i,
    {
        let c = &state.party.members[i];
        if c.is_alive() {
            if size == 0 || c.movement_rate < pace {
                pace = c.movement_rate;
            }
            size = size + 1;
        }
        i = i + 1;
    }
    if size == 0 {
        return Err(EngineError::InvalidInput(String::from_str("no living party members.")));
    }
    let result = attempt_evasion(size, pace, monster_count, monster_movement);
    let outcome = result.to_string();
    let mut message = String::from_str("Party (");
    append_nat(&mut message, size as u64);
    message.append(" members, ");
    append_nat(&mut message, pace as u64);
    message.append("' movement) vs ");
    append_nat(&mut message, monster_count as u64);
    message.append(" monsters (");
    append_nat(&mut message, monster_movement as u64);
    message.append("' movement)\n");
    message.append(outcome.as_str());
    let res = EvadeResult {
        message,
        escaped: result.escaped,
        party_size: size,
        party_movement: pace,
        monster_count,
        monster_movement,
    };
    proof {
        assert(res.message@ == evade_text(
            size as nat,
            pace as nat,
            monster_count as nat,
            monster_movement as nat,
            evasion_text(result),
        ));
    }
    Ok(res)
}

/// How many monsters a number-appearing text can give: the number itself,
/// or a total the dice can roll.
pub open spec fn number_possible(notation: Seq<char>, n: i32) -> bool {
    match i32_value(notation) {
        Some(v) => n == v,
        None => match dice_of(notation) {
            Some(e) => e.count + e.modifier <= n <= e.count * e.sides + e.modifier,
            None => false,
        },
    }
}

/// Whether a number-appearing text is a number or dice.
pub open spec fn number_readable(notation: Seq<char>) -> bool {
    i32_value(notation) is Some || dice_of(notation) is Some
}

/// Error text for a number appearing that is neither a number nor dice.
pub open spec fn bad_number_text(notation: Seq<char>) -> Seq<char> {
    "bad dice expr '"@ + notation + "': not a number or dice expression"@
}

/// How many monsters appear: the text read as a number, else rolled as dice.
fn roll_number_appearing(notation: &str) -> (r: Result<i32, EngineError>)
    ensures
        match r {
            Ok(n) => number_possible(notation@, n),
            Err(e) => !number_readable(notation@) && (e matches EngineError::Internal(t) && t@ == bad_number_text(
                notation@,
            )),
        },
{
    match parse_i32(notation) {
        Some(n) => Ok(n),
        None => match parse(notation) {
            Some(e) => {
                let rolled = roll(e);
                Ok(rolled.total)
            },
            None => {
                let mut t = String::from_str("bad dice expr '");
                t.append(notation);
                t.append("': not a number or dice expression");
                Err(EngineError::Internal(t))
            },
        },
    }
}

/// Report of a dungeon encounter.
pub open spec fn dungeon_encounter_text(
    level: u32,
    table_roll: u32,
    entry: EncounterEntry,
    n: i32,
    seq: EncounterSequence,
) -> Seq<char> {
    "ENCOUNTER — Dungeon Level "@ + nat_text(level as nat) + "\nTable roll: "@ + nat_text(table_roll as nat)
        + " → "@ + entry.name@ + "\nNumber appearing: "@ + entry.number@ + " → "@ + int_text(n as int)
        + "\nSurprise: party "@ + nat_text(seq.party_surprise_roll as nat) + ", monsters "@ + nat_text(
        seq.monster_surprise_roll as nat,
    ) + " — "@ + surprise_text(seq.surprise) + "\nDistance: "@ + nat_text(seq.distance as nat) + "' feet"@
}

/// Rolls a random encounter in the dungeon, given the d20 `table_roll` and
/// the entry the level's encounter table has for it (if any): how many
/// appear is read from the entry, then surprise and distance are rolled.
/// Only in exploration with a dungeon level set; wilderness encounters need
/// the wilderness travel state, which this game state does not hold.
pub fn roll_encounter_with(state: &GameState, table_roll: u32, entry: Option<EncounterEntry>) -> (r: Result<
    RollEncounterResult,
    EngineError,
>)
    ensures
        match state.mode {
            GameMode::Exploration => if state.dungeon_level == 0 {
                r matches Err(e) && wrong_state(e, "dungeon level not set. Use EnterDungeon first."@)
            } else {
                match entry {
                    None => r matches Err(e) && e matches EngineError::Internal(t) && t@
                        == "no encounter found for this roll."@,
                    Some(en) => if !number_readable(en.number@) {
                        r matches Err(e) && e matches EngineError::Internal(t) && t@ == bad_number_text(
                            en.number@,
                        )
                    } else {
                        r matches Ok(res) && {
                            &&& res.context@ == "dungeon"@
                            &&& res.level == Some(state.dungeon_level)
                            &&& res.terrain is None
                            &&& res.table_roll == table_roll
                            &&& res.monster_name@ == en.name@
                            &&& res.number_notation@ == en.number@
                            &&& number_possible(en.number@, res.number_appearing)
                            &&& 1 <= res.party_surprise_roll <= 6
                            &&& 1 <= res.monster_surprise_roll <= 6
                            &&& res.surprise@ == surprise_text(
                                surprise_of(res.party_surprise_roll as int, res.monster_surprise_roll as int),
                            )
                            &&& (one_side_surprised(
                                surprise_of(res.party_surprise_roll as int, res.monster_surprise_roll as int),
                            ) ==> 10 <= res.distance <= 40)
                            &&& (!one_side_surprised(
                                surprise_of(res.party_surprise_roll as int, res.monster_surprise_roll as int),
                            ) ==> 20 <= res.distance <= 120)
                            &&& exists|seq: EncounterSequence|
                                seq.party_surprise_roll == res.party_surprise_roll
                                    && seq.monster_surprise_roll == res.monster_surprise_roll
                                    && seq.surprise == surprise_of(
                                    res.party_surprise_roll as int,
                                    res.monster_surprise_roll as int,
                                ) && seq.distance == res.distance && res.message@ == #[trigger] dungeon_encounter_text(
                                    state.dungeon_level,
                                    table_roll,
                                    en,
                                    res.number_appearing,
                                    seq,
                                )
                        }
                    },
                }
            },
            GameMode::Wilderness => r matches Err(e) && wrong_state(e, "no wilderness state."@),
            _ => r matches Err(e) && wrong_state(e, "encounter requires exploration or wilderness mode."@),
        },
{
    match state.mode {
        GameMode::Exploration => {},
        GameMode::Wilderness => {
            return Err(EngineError::WrongState(String::from_str("no wilderness state.")));
        },
        _ => {
            return Err(EngineError::WrongState(String::from_str("encounter requires exploration or wilderness mode.")));
        },
    }
    let level = state.dungeon_level;
    if level == 0 {
        return Err(EngineError::WrongState(String::from_str("dungeon level not set. Use EnterDungeon first.")));
    }
    let entry = match entry {
        Some(e) => e,
        None => {
            return Err(EngineError::Internal(String::from_str("no encounter found for this roll.")));
        },
    };
    let n = match roll_number_appearing(entry.number.as_str()) {
        Ok(n) => n,
        Err(e) => {
            return Err(e);
        },
    };
    let seq = begin_encounter_dungeon();
    let mut message = String::from_str("ENCOUNTER — Dungeon Level ");
    append_nat(&mut message, level as u64);
    message.append("\nTable roll: ");
    append_nat(&mut message, table_roll as u64);
    message.append(" → ");
    message.append(entry.name.as_str());
    message.append("\nNumber appearing: ");
    message.append(entry.number.as_str());
    message.append(" → ");
    append_int(&mut message, n as i64);
    message.append("\nSurprise: party ");
    append_nat(&mut message, seq.party_surprise_roll as u64);
    message.append(", monsters ");
    append_nat(&mut message, seq.monster_surprise_roll as u64);
    message.append(" — ");
    let st = seq.surprise.to_string();
    message.append(st.as_str());
    message.append("\nDistance: ");
    append_nat(&mut message, seq.distance as u64);
    message.append("' feet");
    proof {
        assert(message@ =~= dungeon_encounter_text(level, table_roll, entry, n, seq));
    }
    Ok(
        RollEncounterResult {
            message,
            context: String::from_str("dungeon"),
            level: Some(level),
            terrain: None,
            table_roll,
            monster_name: entry.name.clone(),
            number_notation: entry.number.clone(),
            number_appearing: n,
            party_surprise_roll: seq.party_surprise_roll,
            monster_surprise_roll: seq.monster_surprise_roll,
            surprise: st,
            distance: seq.distance,
        },
    )
}

} // verus!
