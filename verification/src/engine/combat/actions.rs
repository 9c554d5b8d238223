//! Combat actions on the whole game state: each checks that it applies,
//! runs the combat rule and reports what happened.
use vstd::prelude::*;

use crate::model::{
    Character, CombatState, Monster, alive_count, class_name_text, combat_hd_of, dead_count, hp_alive,
    phase_name_text,
};
use crate::state::time::rest_penalty_of;
use crate::state::dungeon::current_room_cleared;
use crate::state::{EngineError, GameMode, GameState, Retainer, error_text, member_index};
use crate::engine::retainer::{loyalty_check, loyalty_outcome_of, retainer_share_of, retainer_xp_share};
use crate::engine::xp::{adjusted_xp_of, award_xp, sat_add_u64, xp_modifier_of};
use crate::text::{
    any_eq_ignore_ascii_case, append_int, append_nat, contains_ignore_case, eq_ignore_ascii_case,
    eq_ignore_case, find_name_index, first_index_ignore_case, int_text, nat_text,
    lowercase, lowercase_text, starts_with, text_starts_with,
};
use crate::rules::{
    can_cast, can_cast_spell, casts_spells, find_spell_level, find_weapon, is_magical_weapon,
    magical_weapon_name, monster_thac0_of, ready_for_next_level, slot_free, standard_mod,
    str_melee_mod, turn_result_of,
    undead_rank_of, slots_of, spell_level_of, spell_slots,
    target_fits, weapon_lookup,
};
use crate::state::effect::{expiry_messages, texts, tick_effects, tick_round_effects};

use super::attack::{
    already_dead_text, attack_made, attack_outcome, attack_refusal, hp_after, index_out_of_range_error,
    damage_rolled, roll_damage, subtract_hp,
    index_out_of_range_text, monster_attack, same_attack, sane_ac,
};
use super::morale::{MoraleResult as CoreMoraleResult, morale_text};
use super::movement::{
    close_text, encounter_move, free_attackers, free_attacks_outcome, lemma_free_attacks_same,
    sat_add, too_far_text, withdrawal_text,
};
use super::results::{
    AttackResult, CloseResult, CombatLogResult, CombatStatusResult, FightingWithdrawalResult,
    CastSpellResult, CombatXpAward, DeclareSpellResult, EndCombatResult, RetainerLoyaltyCheckResult,
    BackstabResult, InitiativeResult, MonsterAttackResult, TurnUndeadResult, as_turning, reports_attack, InitiativeWinner, MoraleResult, NextPhaseResult,
    RetreatResult, SetHelplessResult, as_rolled, lemma_as_rolled, reports_coup, winner_name, winner_of,
};
use super::status::combat_status_text;
use super::turn_undead::{apply_turning, turn_text};
use crate::model::Class;
use crate::dice::random_between;
use super::{
    check_morale, close, combat_status, coup_de_grace, declare_spell, fighting_withdrawal,
    is_disrupted, resolve_character_attack, resolve_turn_undead, retreat,
    roll_initiative, set_monster_helpless,
};

verus! {

/// `e` is the refusal of an action that needs a combat when there is none.
pub open spec fn no_combat(e: EngineError) -> bool {
    e is WrongState && error_text(e) == "no active combat."@
}

/// `e` rejects an argument with the explanation `t`.
pub open spec fn invalid(e: EngineError, t: Seq<char>) -> bool {
    e is InvalidInput && error_text(e) == t
}

/// `e` refuses an action in the current state with the explanation `t`.
pub open spec fn wrong_state(e: EngineError, t: Seq<char>) -> bool {
    e is WrongState && error_text(e) == t
}

/// Error text for a name that is not in the party.
pub open spec fn no_member_text(name: Seq<char>) -> Seq<char> {
    "no party member named '"@ + name + "'."@
}

/// Everything of the game but the combat is unchanged.
pub open spec fn same_but_combat(a: GameState, b: GameState) -> bool {
    &&& b.party == a.party
    &&& b.mode == a.mode
    &&& b.pre_combat_mode == a.pre_combat_mode
    &&& b.notes == a.notes
    &&& b.retainers == a.retainers
    &&& b.effects == a.effects
    &&& b.dungeon == a.dungeon
    &&& b.dungeon_level == a.dungeon_level
    &&& b.module_monsters == a.module_monsters
    &&& b.time == a.time
}

/// The round bookkeeping of a combat is unchanged.
pub open spec fn same_round_state(a: CombatState, b: CombatState) -> bool {
    &&& b.distance == a.distance
    &&& b.round == a.round
    &&& b.phase == a.phase
    &&& b.party_initiative == a.party_initiative
    &&& b.monster_initiative == a.monster_initiative
    &&& b.spell_declarations@ == a.spell_declarations@
    &&& b.pending_spells@ == a.pending_spells@
    &&& b.disrupted@ == a.disrupted@
    &&& b.characters_acted@ == a.characters_acted@
    &&& b.log_len_at_initiative == a.log_len_at_initiative
    &&& b.first_death_checked == a.first_death_checked
    &&& b.half_killed_checked == a.half_killed_checked
}

fn no_active_combat() -> (e: EngineError)
    ensures
        no_combat(e),
{
    EngineError::WrongState(String::from_str("no active combat."))
}

fn no_member(name: &str) -> (e: EngineError)
    ensures
        invalid(e, no_member_text(name@)),
{
    let mut m = String::from_str("no party member named '");
    m.append(name);
    m.append("'.");
    EngineError::InvalidInput(m)
}

/// The status display of the current combat.
pub fn action_combat_status(state: &GameState) -> (r: Result<CombatStatusResult, EngineError>)
    ensures
        match state.combat {
            None => r matches Err(e) && no_combat(e),
            Some(c) => r matches Ok(res) && res.status@ == combat_status_text(
                c,
                state.party.members@,
            ) && res.message@ == res.status@,
        },
{
    match &state.combat {
        None => Err(no_active_combat()),
        Some(combat) => {
            let status = combat_status(combat, state.party.members.as_slice());
            Ok(CombatStatusResult { message: status.clone(), status })
        },
    }
}

/// Marks monster `monster_idx` as helpless (or no longer helpless).
pub fn action_set_helpless(state: &mut GameState, monster_idx: usize, helpless: bool) -> (r: Result<
    SetHelplessResult,
    EngineError,
>)
    ensures
        same_but_combat(*old(state), *final(state)),
        match old(state).combat {
            None => r matches Err(e) && no_combat(e) && *final(state) == *old(state),
            Some(c) => {
                let ms = c.monsters@;
                let valid = monster_idx < ms.len() && hp_alive(ms[monster_idx as int].hp);
                match r {
                    Ok(res) => {
                        &&& valid
                        &&& res.monster_idx == monster_idx
                        &&& res.helpless == helpless
                        &&& res.message@ == super::attack::helpless_text(
                            ms[monster_idx as int].name@,
                            helpless,
                        )
                        &&& final(state).combat matches Some(c2) && c2.monsters@ == ms.update(
                            monster_idx as int,
                            Monster { helpless, ..ms[monster_idx as int] },
                        ) && c2.log@ == c.log@.push(c2.log@.last()) && c2.log@.last()@
                            == res.message@ && same_round_state(c, c2)
                    },
                    Err(e) => {
                        &&& !valid
                        &&& *final(state) == *old(state)
                        &&& invalid(
                            e,
                            if ms.len() == 0 {
                                "no monsters in combat"@
                            } else if monster_idx >= ms.len() {
                                index_out_of_range_text(monster_idx as nat, ms.len())
                            } else {
                                already_dead_text(ms[monster_idx as int].name@)
                            },
                        )
                    },
                }
            },
        },
{
    match &mut state.combat {
        None => Err(no_active_combat()),
        Some(combat) => {
            match set_monster_helpless(combat, monster_idx, helpless) {
                Ok(message) => Ok(SetHelplessResult { message, monster_idx, helpless }),
                Err(e) => Err(EngineError::InvalidInput(e)),
            }
        },
    }
}

/// Kills a helpless monster outright.
pub fn action_coup_de_grace(state: &mut GameState, char_name: &str, monster_idx: usize) -> (r:
    Result<AttackResult, EngineError>)
    ensures
        same_but_combat(*old(state), *final(state)),
        match member_index(old(state).party.members@, char_name@) {
            None => r matches Err(e) && invalid(e, no_member_text(char_name@)) && *final(state)
                == *old(state),
            Some(i) => {
                let ch = old(state).party.members@[i];
                match old(state).combat {
                    None => r matches Err(e) && no_combat(e) && *final(state) == *old(state),
                    Some(c) => {
                        let ms = c.monsters@;
                        let valid = ms.len() > 0 && monster_idx < ms.len() && hp_alive(
                            ms[monster_idx as int].hp,
                        ) && hp_alive(ch.hp) && ms[monster_idx as int].helpless;
                        match r {
                            Ok(res) => {
                                &&& valid
                                &&& res.attacker@ == ch.name@
                                &&& res.target@ == ms[monster_idx as int].name@
                                &&& res.auto_kill && res.target_killed
                                &&& res.message@ == super::attack::coup_text(
                                    ch.name@,
                                    ms[monster_idx as int].name@,
                                )
                                &&& final(state).combat matches Some(c2) && c2.monsters@
                                    == ms.update(
                                    monster_idx as int,
                                    Monster { hp: 0, helpless: false, ..ms[monster_idx as int] },
                                ) && c2.log@ == c.log@.push(c2.log@.last()) && same_round_state(
                                    c,
                                    c2,
                                )
                            },
                            Err(e) => !valid && *final(state) == *old(state) && e is InvalidInput,
                        }
                    },
                }
            },
        },
{
    let ci = match state.party.find_index(char_name) {
        Some(i) => i,
        None => return Err(no_member(char_name)),
    };
    match &mut state.combat {
        None => Err(no_active_combat()),
        Some(combat) => {
            match coup_de_grace(combat, &state.party.members[ci], monster_idx) {
                Ok(res) => {
                    let report = AttackResult::from_coup_de_grace(res);
                    proof {
                        assert(combat.log@.drop_last() == old(state).combat->0.log@);
                    }
                    Ok(report)
                },
                Err(e) => Err(EngineError::InvalidInput(e)),
            }
        },
    }
}

/// Why a character cannot close in: no movement, already in melee, a zero
/// or a too long advance.
pub open spec fn close_refusal(c: Character, distance: nat, feet: Option<u32>) -> Option<Seq<char>> {
    let em = encounter_move(c);
    if em == 0 {
        Some(c.name@ + " cannot move (movement rate 0)."@)
    } else if distance == 0 {
        Some("already in melee range."@)
    } else if feet == Some(0u32) {
        Some("distance to close must be positive."@)
    } else if feet matches Some(f) && f > em {
        Some(too_far_text(c.name@, em, feet->0 as nat))
    } else {
        None
    }
}

/// How far a character closes in: the requested feet (or the encounter
/// movement), at most the distance.
pub open spec fn close_moved(c: Character, distance: nat, feet: Option<u32>) -> nat {
    let wanted: nat = match feet {
        Some(f) => f as nat,
        None => encounter_move(c),
    };
    if wanted <= distance {
        wanted
    } else {
        distance
    }
}

/// A party member closes in on the monsters.
pub fn action_close(state: &mut GameState, char_name: &str, feet: Option<u32>) -> (r: Result<
    CloseResult,
    EngineError,
>)
    ensures
        same_but_combat(*old(state), *final(state)),
        match member_index(old(state).party.members@, char_name@) {
            None => r matches Err(e) && invalid(e, no_member_text(char_name@)) && *final(state)
                == *old(state),
            Some(i) => {
                let ch = old(state).party.members@[i];
                match old(state).combat {
                    None => r matches Err(e) && no_combat(e) && *final(state) == *old(state),
                    Some(c) => match close_refusal(ch, c.distance as nat, feet) {
                        Some(t) => r matches Err(e) && invalid(e, t) && *final(state) == *old(
                            state,
                        ),
                        None => {
                            let moved = close_moved(ch, c.distance as nat, feet);
                            &&& r matches Ok(res) && res.character@ == ch.name@
                                && res.distance_closed == moved && res.new_distance == c.distance
                                - moved && res.message@ == close_text(
                                ch.name@,
                                moved,
                                (c.distance - moved) as nat,
                            )
                            &&& final(state).combat matches Some(c2) && c2.distance == c.distance
                                - moved && c2.monsters@ == c.monsters@ && c2.log@ == c.log@.push(
                                c2.log@.last(),
                            ) && c2.log@.last()@ == close_text(
                                ch.name@,
                                moved,
                                (c.distance - moved) as nat,
                            ) && c2.round == c.round && c2.phase == c.phase
                                && c2.characters_acted@ == c.characters_acted@
                        },
                    },
                }
            },
        },
{
    let ci = match state.party.find_index(char_name) {
        Some(i) => i,
        None => return Err(no_member(char_name)),
    };
    match &mut state.combat {
        None => Err(no_active_combat()),
        Some(combat) => {
            let old_distance = combat.distance;
            match close(combat, &state.party.members[ci], feet) {
                Ok(message) => Ok(
                    CloseResult {
                        message,
                        character: state.party.members[ci].name.clone(),
                        distance_closed: old_distance - combat.distance,
                        new_distance: combat.distance,
                    },
                ),
                Err(e) => Err(EngineError::InvalidInput(e)),
            }
        },
    }
}

/// A party member backs off in a fighting withdrawal.
pub fn action_fighting_withdrawal(state: &mut GameState, char_name: &str) -> (r: Result<
    FightingWithdrawalResult,
    EngineError,
>)
    ensures
        same_but_combat(*old(state), *final(state)),
        match member_index(old(state).party.members@, char_name@) {
            None => r matches Err(e) && invalid(e, no_member_text(char_name@)) && *final(state)
                == *old(state),
            Some(i) => {
                let ch = old(state).party.members@[i];
                match old(state).combat {
                    None => r matches Err(e) && no_combat(e) && *final(state) == *old(state),
                    Some(c) => {
                        let d2 = sat_add(c.distance, (encounter_move(ch) / 2) as u32);
                        &&& r matches Ok(res) && res.withdrawer@ == ch.name@ && res.new_distance
                            == d2 && res.distance_moved == d2 - c.distance && res.message@
                            == withdrawal_text(ch.name@, encounter_move(ch) / 2, d2 as nat)
                        &&& final(state).combat matches Some(c2) && c2.distance == d2
                            && c2.monsters@ == c.monsters@ && c2.log@ == c.log@.push(
                            c2.log@.last(),
                        ) && c2.round == c.round && c2.phase == c.phase
                            && c2.characters_acted@ == c.characters_acted@
                    },
                }
            },
        },
{
    let ci = match state.party.find_index(char_name) {
        Some(i) => i,
        None => return Err(no_member(char_name)),
    };
    match &mut state.combat {
        None => Err(no_active_combat()),
        Some(combat) => {
            let old_distance = combat.distance;
            let message = fighting_withdrawal(combat, &state.party.members[ci]);
            Ok(
                FightingWithdrawalResult {
                    message,
                    withdrawer: state.party.members[ci].name.clone(),
                    distance_moved: combat.distance - old_distance,
                    new_distance: combat.distance,
                },
            )
        },
    }
}

/// One numbered line of the combat log display.
pub open spec fn log_line(i: nat, entry: Seq<char>) -> Seq<char> {
    "  "@ + nat_text(i) + ". "@ + entry + "\n"@
}

/// The numbered lines of the first `n` log entries.
pub open spec fn log_lines(log: Seq<String>, n: int) -> Seq<char>
    decreases n,
{
    if n <= 0 {
        Seq::empty()
    } else {
        log_lines(log, n - 1) + log_line(n as nat, log[n - 1]@)
    }
}

/// The combat log, numbered from 1.
pub fn action_query_combat_log(state: &GameState) -> (r: Result<CombatLogResult, EngineError>)
    ensures
        match state.combat {
            None => r matches Err(e) && no_combat(e),
            Some(c) => r matches Ok(res) && texts(res.log@)
                == texts(c.log@) && res.message@ == if c.log@.len() == 0 {
                "no combat events logged yet."@
            } else {
                "Combat Log:\n"@ + log_lines(c.log@, c.log@.len() as int)
            },
        },
{
    match &state.combat {
        None => Err(no_active_combat()),
        Some(combat) => {
            if combat.log.len() == 0 {
                return Ok(
                    CombatLogResult {
                        message: String::from_str("no combat events logged yet."),
                        log: Vec::new(),
                    },
                );
            }
            let mut message = String::from_str("Combat Log:\n");
            let ghost head = message@;
            let mut log: Vec<String> = Vec::new();
            let mut i: usize = 0;
            while i < combat.log.len()
                invariant
                    i <= combat.log@.len(),
                    message@ == head + log_lines(combat.log@, i as int),
                    texts(log@) == texts(
                        combat.log@.take(i as int),
                    ),
                decreases combat.log@.len() - i,
            {
                message.append("  ");
                append_nat(&mut message, (i as u64) + 1);
                message.append(". ");
                message.append(combat.log[i].as_str());
                message.append("\n");
                let ghost before = log@;
                let entry = combat.log[i].clone();
                log.push(entry);
                proof {
                    let t = texts(combat.log@.take(i as int + 1));
                    assert(t =~= texts(combat.log@.take(i as int)).push(
                        combat.log@[i as int]@,
                    ));
                    assert(texts(log@) =~= texts(
                        before,
                    ).push(entry@));
                    assert(texts(log@) =~= t);
                    assert(message@ =~= head + log_lines(combat.log@, i as int + 1));
                }
                i = i + 1;
            }
            proof {
                assert(combat.log@.take(i as int) =~= combat.log@);
            }
            Ok(CombatLogResult { message, log })
        },
    }
}

/// Message of a phase change.
pub open spec fn phase_change_text(
    from: crate::model::CombatPhase,
    to: crate::model::CombatPhase,
) -> Seq<char> {
    "Phase: "@ + phase_name_text(from) + " → "@ + phase_name_text(to)
}

/// Moves the combat to the next phase of the round and logs it.
pub fn action_next_phase(state: &mut GameState) -> (r: Result<NextPhaseResult, EngineError>)
    ensures
        same_but_combat(*old(state), *final(state)),
        match old(state).combat {
            None => r matches Err(e) && no_combat(e) && *final(state) == *old(state),
            Some(c) => {
                let next = crate::model::next_phase(c.phase);
                &&& r matches Ok(res) && res.previous_phase == c.phase && res.current_phase == next
                    && res.round == c.round && res.message@ == phase_change_text(c.phase, next)
                &&& final(state).combat matches Some(c2) && c2.phase == next && c2.log@
                    == c.log@.push(c2.log@.last()) && c2.log@.last()@ == phase_change_text(
                    c.phase,
                    next,
                ) && c2.monsters@ == c.monsters@ && c2.round == c.round && c2.distance
                    == c.distance
            },
        },
{
    match &mut state.combat {
        None => Err(no_active_combat()),
        Some(combat) => {
            let previous = combat.phase;
            combat.advance_phase();
            let current = combat.phase;
            let mut message = String::from_str("Phase: ");
            message.append(previous.display_name());
            message.append(" → ");
            message.append(current.display_name());
            combat.log_event(message.clone());
            Ok(NextPhaseResult { message, previous_phase: previous, current_phase: current, round: combat.round })
        },
    }
}

/// Every spell slot count of a character can still be raised by one.
pub open spec fn slots_countable(c: Character) -> bool {
    forall|j: int| 0 <= j < 6 ==> #[trigger] c.spell_slots_used@[j] < u32::MAX
}

/// Monster `b` is monster `a` after its round-based effects ticked.
pub open spec fn monster_ticked(a: Monster, b: Monster) -> bool {
    &&& b == Monster { effects: b.effects, ..a }
    &&& b.effects@ == tick_effects(a.effects@, false)
}

/// Character `b` is character `a` after its round-based effects ticked.
pub open spec fn member_ticked(a: Character, b: Character) -> bool {
    &&& b == Character { effects: b.effects, ..a }
    &&& b.effects@ == tick_effects(a.effects@, false)
}

/// Expiry messages of the monsters' round-based effects, monster by monster.
pub open spec fn monsters_expiry(ms: Seq<Monster>) -> Seq<Seq<char>>
    decreases ms.len(),
{
    if ms.len() == 0 {
        Seq::empty()
    } else {
        monsters_expiry(ms.drop_last()) + expiry_messages(
            ms.last().effects@,
            ms.last().name@,
            false,
        )
    }
}

/// Expiry messages of the party's round-based effects, member by member.
pub open spec fn members_expiry(ms: Seq<Character>) -> Seq<Seq<char>>
    decreases ms.len(),
{
    if ms.len() == 0 {
        Seq::empty()
    } else {
        members_expiry(ms.drop_last()) + expiry_messages(
            ms.last().effects@,
            ms.last().name@,
            false,
        )
    }
}

fn tick_monsters(ms: &mut Vec<Monster>) -> (msgs: Vec<String>)
    ensures
        final(ms)@.len() == old(ms)@.len(),
        forall|i: int| 0 <= i < old(ms)@.len() ==> monster_ticked(#[trigger] old(ms)@[i], final(ms)@[i]),
        texts(msgs@) == monsters_expiry(old(ms)@),
{
    let ghost orig = ms@;
    let mut msgs: Vec<String> = Vec::new();
    let mut i: usize = 0;
    while i < ms.len()
        invariant
            ms@.len() == orig.len(),
            i <= orig.len(),
            forall|j: int| 0 <= j < i ==> monster_ticked(#[trigger] orig[j], ms@[j]),
            forall|j: int| i <= j < orig.len() ==> #[trigger] ms@[j] == orig[j],
            texts(msgs@) == monsters_expiry(orig.take(i as int)),
        decreases orig.len() - i,
    {
        let name = ms[i].name.clone();
        let mut more = tick_round_effects(&mut ms[i].effects, name.as_str());
        let ghost before = msgs@;
        let ghost added = more@;
        msgs.append(&mut more);
        proof {
            assert(orig.take(i as int + 1).drop_last() =~= orig.take(i as int));
            assert(texts(msgs@) =~= texts(before) + texts(added));
        }
        i = i + 1;
    }
    proof {
        assert(orig.take(i as int) =~= orig);
    }
    msgs
}

fn tick_members(ms: &mut Vec<Character>) -> (msgs: Vec<String>)
    ensures
        final(ms)@.len() == old(ms)@.len(),
        forall|i: int| 0 <= i < old(ms)@.len() ==> member_ticked(#[trigger] old(ms)@[i], final(ms)@[i]),
        texts(msgs@) == members_expiry(old(ms)@),
{
    let ghost orig = ms@;
    let mut msgs: Vec<String> = Vec::new();
    let mut i: usize = 0;
    while i < ms.len()
        invariant
            ms@.len() == orig.len(),
            i <= orig.len(),
            forall|j: int| 0 <= j < i ==> member_ticked(#[trigger] orig[j], ms@[j]),
            forall|j: int| i <= j < orig.len() ==> #[trigger] ms@[j] == orig[j],
            texts(msgs@) == members_expiry(orig.take(i as int)),
        decreases orig.len() - i,
    {
        let name = ms[i].name.clone();
        let mut more = tick_round_effects(&mut ms[i].effects, name.as_str());
        let ghost before = msgs@;
        let ghost added = more@;
        msgs.append(&mut more);
        proof {
            assert(orig.take(i as int + 1).drop_last() =~= orig.take(i as int));
            assert(texts(msgs@) =~= texts(before) + texts(added));
        }
        i = i + 1;
    }
    proof {
        assert(orig.take(i as int) =~= orig);
    }
    msgs
}

/// Message of an initiative roll.
pub open spec fn initiative_result_text(round: nat, party: int, monsters: int) -> Seq<char> {
    "round "@ + nat_text(round) + " initiative: party "@ + int_text(party) + " vs monsters "@
        + int_text(monsters) + " — "@ + winner_name(winner_of(party, monsters)) + " acts first."@
}

/// Rolls initiative for a new round. Round-based effects on the monsters,
/// the party and the battlefield count down first (from the second round
/// on) and those that run out are logged. Refused when initiative was
/// already rolled this round and nothing has happened since.
pub fn action_roll_initiative(state: &mut GameState) -> (r: Result<InitiativeResult, EngineError>)
    requires
        old(state).combat matches Some(c) ==> c.round < u32::MAX,
    ensures
        final(state).mode == old(state).mode,
        final(state).notes == old(state).notes,
        final(state).retainers == old(state).retainers,
        final(state).dungeon == old(state).dungeon,
        final(state).dungeon_level == old(state).dungeon_level,
        final(state).module_monsters == old(state).module_monsters,
        final(state).time == old(state).time,
        final(state).party.rations == old(state).party.rations,
        match old(state).combat {
            None => r matches Err(e) && no_combat(e) && *final(state) == *old(state),
            Some(c) => if c.round > 0 && c.log@.len() <= c.log_len_at_initiative {
                r matches Err(e) && wrong_state(e, "initiative already rolled for this round."@)
                    && *final(state) == *old(state)
            } else {
                let tick = c.round > 0;
                let old_members = old(state).party.members@;
                let new_members = final(state).party.members@;
                let expiry: Seq<Seq<char>> = if tick {
                    monsters_expiry(c.monsters@) + members_expiry(old_members) + expiry_messages(
                        old(state).effects@,
                        "the battlefield"@,
                        false,
                    )
                } else {
                    Seq::empty()
                };
                match r {
                    Ok(res) => match final(state).combat {
                        Some(c2) => {
                            &&& res.round == c.round + 1
                            &&& 1 <= res.party_initiative <= 6
                            &&& 1 <= res.monster_initiative <= 6
                            &&& res.winner == winner_of(
                                res.party_initiative as int,
                                res.monster_initiative as int,
                            )
                            &&& res.message@ == initiative_result_text(
                                res.round as nat,
                                res.party_initiative as int,
                                res.monster_initiative as int,
                            )
                            &&& c2.round == res.round
                            &&& c2.party_initiative == res.party_initiative
                            &&& c2.monster_initiative == res.monster_initiative
                            &&& c2.log@.last()@ == super::initiative::initiative_text(
                                res.round as nat,
                                res.party_initiative as int,
                                res.monster_initiative as int,
                            )
                            &&& c2.phase == crate::model::CombatPhase::Morale
                            &&& c2.disrupted@.len() == 0
                            &&& c2.characters_acted@.len() == 0
                            &&& c2.distance == c.distance
                            &&& c2.spell_declarations@ == c.spell_declarations@
                            &&& c2.pending_spells@ == c.pending_spells@
                            &&& c2.log@.len() == c.log@.len() + expiry.len() + 1
                            &&& texts(c2.log@.drop_last()) == texts(c.log@) + expiry
                            &&& c2.log_len_at_initiative == c2.log@.len()
                            &&& c2.monsters@.len() == c.monsters@.len()
                            &&& forall|i: int|
                                0 <= i < c.monsters@.len() ==> #[trigger] c2.monsters@[i].attacks_this_round
                                    == 0 && (if tick {
                                    monster_ticked(
                                        c.monsters@[i],
                                        Monster {
                                            attacks_this_round: c.monsters@[i].attacks_this_round,
                                            ..c2.monsters@[i]
                                        },
                                    )
                                } else {
                                    c2.monsters@[i] == Monster {
                                        attacks_this_round: 0,
                                        ..c.monsters@[i]
                                    }
                                })
                            &&& new_members.len() == old_members.len()
                            &&& forall|i: int|
                                0 <= i < old_members.len() ==> if tick {
                                    member_ticked(#[trigger] old_members[i], new_members[i])
                                } else {
                                    new_members[i] == old_members[i]
                                }
                            &&& final(state).effects@ == if tick {
                                tick_effects(old(state).effects@, false)
                            } else {
                                old(state).effects@
                            }
                        },
                        None => false,
                    },
                    Err(_) => false,
                }
            },
        },
{
    let tick = match &state.combat {
        None => {
            return Err(no_active_combat());
        },
        Some(c) => {
            if c.round > 0 && c.log.len() <= c.log_len_at_initiative {
                return Err(
                    EngineError::WrongState(
                        String::from_str("initiative already rolled for this round."),
                    ),
                );
            }
            c.round > 0
        },
    };
    let ghost c0 = old(state).combat->0;
    if tick {
        let mut member_msgs = tick_members(&mut state.party.members);
        let mut global_msgs = tick_round_effects(&mut state.effects, "the battlefield");
        match &mut state.combat {
            Some(combat) => {
                let mut msgs = tick_monsters(&mut combat.monsters);
                let ghost m1 = msgs@;
                let ghost m2 = member_msgs@;
                let ghost m3 = global_msgs@;
                msgs.append(&mut member_msgs);
                msgs.append(&mut global_msgs);
                proof {
                    assert(texts(msgs@) =~= texts(m1) + texts(m2) + texts(m3));
                }
                combat.log.append(&mut msgs);
            },
            None => {},
        }
    }
    let ghost c1 = state.combat->0;
    proof {
        assert(texts(c1.log@) =~= texts(c0.log@) + texts(c1.log@.subrange(c0.log@.len() as int, c1.log@.len() as int)));
    }
    match &mut state.combat {
        Some(combat) => {
            let (party, monsters) = roll_initiative(combat);
            let winner = if party > monsters {
                InitiativeWinner::Party
            } else if monsters > party {
                InitiativeWinner::Monsters
            } else {
                InitiativeWinner::Simultaneous
            };
            let mut message = String::from_str("round ");
            append_nat(&mut message, combat.round as u64);
            message.append(" initiative: party ");
            append_int(&mut message, party as i64);
            message.append(" vs monsters ");
            append_int(&mut message, monsters as i64);
            message.append(" — ");
            message.append(winner.as_str());
            message.append(" acts first.");
            proof {
                assert(combat.log@.drop_last() =~= c1.log@);
            }
            Ok(
                InitiativeResult {
                    message,
                    round: combat.round,
                    party_initiative: party,
                    monster_initiative: monsters,
                    winner,
                },
            )
        },
        None => Err(no_active_combat()),
    }
}

/// The first living monster from `i` on whose lower-cased name begins with
/// the lower-cased `sel`.
pub open spec fn morale_pick_from(ms: Seq<Monster>, sel: Seq<char>, i: int) -> Option<int>
    decreases ms.len() - i,
{
    if i < 0 || i >= ms.len() {
        None
    } else if hp_alive(ms[i].hp) && text_starts_with(lowercase_text(ms[i].name@), lowercase_text(sel)) {
        Some(i)
    } else {
        morale_pick_from(ms, sel, i + 1)
    }
}

/// The first living monster from `i` on.
pub open spec fn first_living_from(ms: Seq<Monster>, i: int) -> Option<int>
    decreases ms.len() - i,
{
    if i < 0 || i >= ms.len() {
        None
    } else if hp_alive(ms[i].hp) {
        Some(i)
    } else {
        first_living_from(ms, i + 1)
    }
}

/// The morale score checked: that of the first living monster named by the
/// selector, or of the first living monster (7 when there is none).
pub open spec fn morale_score_for(ms: Seq<Monster>, selector: Option<Seq<char>>) -> Option<u32> {
    match selector {
        Some(sel) => match morale_pick_from(ms, sel, 0) {
            Some(k) => Some(ms[k].morale),
            None => None,
        },
        None => match first_living_from(ms, 0) {
            Some(k) => Some(ms[k].morale),
            None => Some(7u32),
        },
    }
}

fn pick_morale_score(ms: &Vec<Monster>, selector: Option<&str>) -> (r: Option<u32>)
    ensures
        r == morale_score_for(ms@, match selector {
            Some(s) => Some(s@),
            None => None,
        }),
{
    let mut i: usize = 0;
    match selector {
        Some(sel) => {
            let sel_lower = lowercase(sel);
            while i < ms.len()
                invariant
                    i <= ms@.len(),
                    selector == Some(sel),
                    sel_lower@ == lowercase_text(sel@),
                    morale_pick_from(ms@, sel@, 0) == morale_pick_from(ms@, sel@, i as int),
                decreases ms@.len() - i,
            {
                if ms[i].is_alive() && starts_with(lowercase(ms[i].name.as_str()).as_str(), sel_lower.as_str()) {
                    proof {
                        assert(morale_pick_from(ms@, sel@, i as int) == Some(i as int));
                    }
                    return Some(ms[i].morale);
                }
                i = i + 1;
            }
            None
        },
        None => {
            while i < ms.len()
                invariant
                    i <= ms@.len(),
                    selector is None,
                    first_living_from(ms@, 0) == first_living_from(ms@, i as int),
                decreases ms@.len() - i,
            {
                if ms[i].is_alive() {
                    proof {
                        assert(first_living_from(ms@, i as int) == Some(i as int));
                    }
                    return Some(ms[i].morale);
                }
                i = i + 1;
            }
            Some(7)
        },
    }
}

/// Checks the monsters' morale: for the first living monster whose name
/// begins with `selector`, or for the first living monster.
pub fn action_morale(state: &mut GameState, selector: Option<&str>) -> (r: Result<
    MoraleResult,
    EngineError,
>)
    ensures
        same_but_combat(*old(state), *final(state)),
        match old(state).combat {
            None => r matches Err(e) && no_combat(e) && *final(state) == *old(state),
            Some(c) => if alive_count(c.monsters@) == 0 {
                r matches Err(e) && invalid(e, "no living monsters to check morale for."@)
                    && *final(state) == *old(state)
            } else {
                match morale_score_for(c.monsters@, match selector {
                    Some(s) => Some(s@),
                    None => None,
                }) {
                    None => r matches Err(e) && invalid(
                        e,
                        "no living monster named '"@ + selector->0@ + "'."@,
                    ) && *final(state) == *old(state),
                    Some(score) => match r {
                        Ok(res) => match final(state).combat {
                            Some(c2) => {
                                &&& res.morale_score == score
                                &&& 2 <= res.roll <= 12
                                &&& res.passed == (res.roll as int <= score as int)
                                &&& res.message@ == morale_text(
                                    CoreMoraleResult {
                                        roll: res.roll,
                                        morale_score: score,
                                        passed: res.passed,
                                    },
                                )
                                &&& c2.monsters@ == c.monsters@
                                &&& c2.log@ == c.log@.push(c2.log@.last())
                                &&& c2.log@.last()@ == res.message@
                                &&& same_round_state(c, c2)
                            },
                            None => false,
                        },
                        Err(_) => false,
                    },
                }
            },
        },
{
    match &mut state.combat {
        None => Err(no_active_combat()),
        Some(combat) => {
            if combat.living_monster_count() == 0 {
                return Err(
                    EngineError::InvalidInput(
                        String::from_str("no living monsters to check morale for."),
                    ),
                );
            }
            match pick_morale_score(&combat.monsters, selector) {
                None => {
                    let mut m = String::from_str("no living monster named '");
                    m.append(selector.unwrap());
                    m.append("'.");
                    Err(EngineError::InvalidInput(m))
                },
                Some(score) => {
                    let core = check_morale(combat, score);
                    Ok(MoraleResult::from_check(core))
                },
            }
        },
    }
}

/// A party member retreats at full speed; monsters in melee range get free
/// attacks at +2.
pub fn action_retreat(state: &mut GameState, char_name: &str) -> (r: Result<RetreatResult, EngineError>)
    requires
        match member_index(old(state).party.members@, char_name@) {
            Some(i) => sane_ac(old(state).party.members@[i].ac),
            None => true,
        },
    ensures
        final(state).mode == old(state).mode,
        final(state).notes == old(state).notes,
        final(state).retainers == old(state).retainers,
        final(state).dungeon == old(state).dungeon,
        final(state).dungeon_level == old(state).dungeon_level,
        final(state).module_monsters == old(state).module_monsters,
        final(state).time == old(state).time,
        final(state).effects == old(state).effects,
        final(state).party.rations == old(state).party.rations,
        match old(state).combat {
            None => r matches Err(e) && no_combat(e) && *final(state) == *old(state),
            Some(c) => match member_index(old(state).party.members@, char_name@) {
                None => r matches Err(e) && invalid(e, no_member_text(char_name@)) && *final(state)
                    == *old(state),
                Some(i) => {
                    let ch = old(state).party.members@[i];
                    if !hp_alive(ch.hp) {
                        r matches Err(e) && invalid(e, already_dead_text(ch.name@)) && *final(state)
                            == *old(state)
                    } else {
                        match r {
                            Ok(res) => match final(state).combat {
                                Some(c2) => {
                                    let ch2 = final(state).party.members@[i];
                                    &&& final(state).party.members@ == old(
                                        state,
                                    ).party.members@.update(i, ch2)
                                    &&& ch2 == Character { hp: ch2.hp, ..ch }
                                    &&& res.retreater@ == ch.name@
                                    &&& res.distance_moved as nat == encounter_move(ch)
                                    &&& c2.distance == sat_add(c.distance, encounter_move(ch) as u32)
                                    &&& res.new_distance == c2.distance
                                    &&& res.free_attacks@.len() == 0 ==> ch2.hp == ch.hp
                                    &&& c.distance <= 10 ==> free_attacks_outcome(
                                        free_attackers(c.monsters@, c.monsters@.len() as int),
                                        c.monsters@,
                                        ch.name@,
                                        ch.ac,
                                        ch.hp,
                                        res.free_attacks@.map_values(|a: AttackResult| as_rolled(a)),
                                        ch2.hp,
                                    )
                                    &&& c.distance > 10 ==> res.free_attacks@.len() == 0
                                    &&& c2.monsters@ == c.monsters@
                                    &&& c2.round == c.round
                                    &&& c2.phase == c.phase
                                    &&& c2.characters_acted@ == c.characters_acted@
                                },
                                None => false,
                            },
                            Err(_) => false,
                        }
                    }
                },
            },
        },
{
    if state.combat.is_none() {
        return Err(no_active_combat());
    }
    let ci = match state.party.find_index(char_name) {
        Some(i) => i,
        None => return Err(no_member(char_name)),
    };
    if !state.party.members[ci].is_alive() {
        let mut m = state.party.members[ci].name.clone();
        m.append(" is already dead.");
        return Err(EngineError::InvalidInput(m));
    }
    proof {
        assert(sane_ac(state.party.members@[ci as int].ac));
    }
    let ghost c0 = state.combat->0;
    let ghost ch0 = state.party.members@[ci as int];
    let ghost combat_distance_before = c0.distance;
    match &mut state.combat {
        None => Err(no_active_combat()),
        Some(combat) => {
            let core = retreat(combat, &mut state.party.members[ci]);
            let res = RetreatResult::from_retreat(core);
            proof {
                let rolled = res.free_attacks@.map_values(|a: AttackResult| as_rolled(a));
                assert forall|k: int| 0 <= k < rolled.len() implies same_attack(
                    core.free_attacks@[k],
                    #[trigger] rolled[k],
                ) by {
                    lemma_as_rolled(res.free_attacks@[k], core.free_attacks@[k]);
                };
                if combat_distance_before <= 10 {
                    lemma_free_attacks_same(
                        free_attackers(c0.monsters@, c0.monsters@.len() as int),
                        c0.monsters@,
                        ch0.name@,
                        ch0.ac,
                        ch0.hp,
                        core.free_attacks@,
                        rolled,
                        state.party.members@[ci as int].hp,
                    );
                }
            }
            Ok(res)
        },
    }
}

/// Text of a character who has no spells.
pub open spec fn cannot_cast_text(c: Character) -> Seq<char> {
    c.name@ + " ("@ + class_name_text(c.class) + ") cannot cast spells."@
}

/// Text of a character out of spell slots of a level.
pub open spec fn no_slots_text(c: Character, level: u32) -> Seq<char> {
    let max = slots_of(c.class, c.level as nat);
    let (used, m) = if 1 <= level <= 6 {
        (c.spell_slots_used@[level - 1], max[level - 1])
    } else {
        (0u32, 0u32)
    };
    c.name@ + " has no level "@ + nat_text(level as nat) + " spell slots remaining ("@ + nat_text(
        used as nat,
    ) + " of "@ + nat_text(m as nat) + " used)."@
}

/// Why a character cannot declare `spell`, if it cannot: no spells at all,
/// or no free slot of the spell's level.
pub open spec fn declare_refusal(c: Character, spell: Seq<char>) -> Option<Seq<char>> {
    if !casts_spells(c.class, c.level as nat) {
        Some(cannot_cast_text(c))
    } else if spell_level_of(spell) matches Some(l) && !slot_free(
        c.spell_slots_used@,
        slots_of(c.class, c.level as nat),
        l as nat,
    ) {
        Some(no_slots_text(c, spell_level_of(spell)->0))
    } else {
        None
    }
}

/// Message of a spell declaration.
pub open spec fn declared_text(name: Seq<char>, spell: Seq<char>) -> Seq<char> {
    name + " declares: casting "@ + spell + ". Spell will be disrupted if "@ + name
        + " takes damage before the magic phase."@
}

/// A party member declares a spell for this round (one per round).
pub fn action_declare_spell(state: &mut GameState, char_name: &str, spell_name: &str) -> (r: Result<
    DeclareSpellResult,
    EngineError,
>)
    ensures
        same_but_combat(*old(state), *final(state)),
        match member_index(old(state).party.members@, char_name@) {
            None => r matches Err(e) && invalid(e, no_member_text(char_name@)) && *final(state)
                == *old(state),
            Some(i) => {
                let ch = old(state).party.members@[i];
                match declare_refusal(ch, spell_name@) {
                    Some(t) => r matches Err(e) && invalid(e, t) && *final(state) == *old(state),
                    None => match old(state).combat {
                        None => r matches Err(e) && no_combat(e) && *final(state) == *old(state),
                        Some(c) => if contains_ignore_case(c.spell_declarations@, char_name@) {
                            r matches Err(e) && invalid(
                                e,
                                char_name@ + " has already declared a spell this round."@,
                            ) && *final(state) == *old(state)
                        } else {
                            match r {
                                Ok(res) => match final(state).combat {
                                    Some(c2) => {
                                        &&& res.character@ == char_name@
                                        &&& res.spell@ == spell_name@
                                        &&& res.message@ == declared_text(char_name@, spell_name@)
                                        &&& c2.spell_declarations@.drop_last() == c.spell_declarations@
                                        &&& c2.spell_declarations@.len() == c.spell_declarations@.len() + 1
                                        &&& c2.spell_declarations@.last()@ == char_name@
                                        &&& c2.pending_spells@.drop_last() == c.pending_spells@
                                        &&& c2.pending_spells@.len() == c.pending_spells@.len() + 1
                                        &&& c2.pending_spells@.last().0@ == char_name@
                                        &&& c2.pending_spells@.last().1@ == spell_name@
                                        &&& c2.log@ == c.log@.push(c2.log@.last())
                                        &&& c2.log@.last()@ == super::initiative::declare_text(
                                            char_name@,
                                            spell_name@,
                                        )
                                        &&& c2.monsters@ == c.monsters@
                                        &&& c2.disrupted@ == c.disrupted@
                                        &&& c2.characters_acted@ == c.characters_acted@
                                        &&& c2.round == c.round
                                    },
                                    None => false,
                                },
                                Err(_) => false,
                            }
                        },
                    },
                }
            },
        },
{
    let ci = match state.party.find_index(char_name) {
        Some(i) => i,
        None => return Err(no_member(char_name)),
    };
    let character = &state.party.members[ci];
    if !can_cast(character.class, character.level) {
        let mut m = character.name.clone();
        m.append(" (");
        m.append(character.class.name());
        m.append(") cannot cast spells.");
        return Err(EngineError::InvalidInput(m));
    }
    match find_spell_level(spell_name) {
        Some(level) => {
            let max_slots = spell_slots(character.class, character.level);
            if !can_cast_spell(&character.spell_slots_used, &max_slots, level) {
                let (used, max) = if level >= 1 && level <= 6 {
                    let k = (level - 1) as usize;
                    (character.spell_slots_used[k], max_slots[k])
                } else {
                    (0u32, 0u32)
                };
                let mut m = character.name.clone();
                m.append(" has no level ");
                append_nat(&mut m, level as u64);
                m.append(" spell slots remaining (");
                append_nat(&mut m, used as u64);
                m.append(" of ");
                append_nat(&mut m, max as u64);
                m.append(" used).");
                return Err(EngineError::InvalidInput(m));
            }
        },
        None => {},
    }
    match &mut state.combat {
        None => Err(no_active_combat()),
        Some(combat) => {
            if any_eq_ignore_ascii_case(&combat.spell_declarations, char_name) {
                let mut m = String::from_str(char_name);
                m.append(" has already declared a spell this round.");
                return Err(EngineError::InvalidInput(m));
            }
            declare_spell(combat, char_name, spell_name);
            let mut message = String::from_str(char_name);
            message.append(" declares: casting ");
            message.append(spell_name);
            message.append(". Spell will be disrupted if ");
            message.append(char_name);
            message.append(" takes damage before the magic phase.");
            Ok(
                DeclareSpellResult {
                    message,
                    character: String::from_str(char_name),
                    spell: String::from_str(spell_name),
                },
            )
        },
    }
}

/// Position of the first pending spell from `i` on cast by `name` (ASCII
/// case ignored).
pub open spec fn pending_index_from(ps: Seq<(String, String)>, name: Seq<char>, i: int) -> Option<
    int,
>
    decreases ps.len() - i,
{
    if i < 0 || i >= ps.len() {
        None
    } else if eq_ignore_case(ps[i].0@, name) {
        Some(i)
    } else {
        pending_index_from(ps, name, i + 1)
    }
}

fn find_pending(ps: &Vec<(String, String)>, name: &str) -> (r: Option<usize>)
    ensures
        match r {
            Some(i) => pending_index_from(ps@, name@, 0) == Some(i as int) && i < ps@.len(),
            None => pending_index_from(ps@, name@, 0) is None,
        },
{
    let mut i: usize = 0;
    while i < ps.len()
        invariant
            i <= ps@.len(),
            pending_index_from(ps@, name@, 0) == pending_index_from(ps@, name@, i as int),
        decreases ps@.len() - i,
    {
        if eq_ignore_ascii_case(ps[i].0.as_str(), name) {
            return Some(i);
        }
        i = i + 1;
    }
    None
}

/// Message of casting a declared spell.
pub open spec fn cast_text(name: Seq<char>, spell: Seq<char>, disrupted: bool) -> Seq<char> {
    if disrupted {
        name + "'s "@ + spell + " was disrupted! The spell fails."@
    } else {
        name + " casts "@ + spell + "! Apply spell effects as appropriate."@
    }
}

/// Log entry of casting a declared spell.
pub open spec fn cast_log_text(name: Seq<char>, spell: Seq<char>, disrupted: bool) -> Seq<char> {
    if disrupted {
        name + "'s "@ + spell + " fizzles — spell was disrupted!"@
    } else {
        name + " casts "@ + spell + "!"@
    }
}

/// The spell slots of a character after casting a spell of `level` (levels
/// 1 to 6 use one slot of their level).
pub open spec fn slots_after_cast(used: Seq<u32>, level: Option<u32>) -> Seq<u32> {
    match level {
        Some(l) => if 1 <= l <= 6 {
            used.update(l - 1, (used[l - 1] + 1) as u32)
        } else {
            used
        },
        None => used,
    }
}

/// A party member casts the spell declared this round. A disrupted spell
/// fails, but the attempt still uses the spell slot.
pub fn action_cast_spell(state: &mut GameState, char_name: &str) -> (r: Result<
    CastSpellResult,
    EngineError,
>)
    requires
        match member_index(old(state).party.members@, char_name@) {
            Some(i) => slots_countable(old(state).party.members@[i]),
            None => true,
        },
    ensures
        final(state).mode == old(state).mode,
        final(state).notes == old(state).notes,
        final(state).retainers == old(state).retainers,
        final(state).dungeon == old(state).dungeon,
        final(state).dungeon_level == old(state).dungeon_level,
        final(state).module_monsters == old(state).module_monsters,
        final(state).time == old(state).time,
        final(state).effects == old(state).effects,
        final(state).party.rations == old(state).party.rations,
        match member_index(old(state).party.members@, char_name@) {
            None => r matches Err(e) && invalid(e, no_member_text(char_name@)) && *final(state)
                == *old(state),
            Some(i) => match old(state).combat {
                None => r matches Err(e) && no_combat(e) && *final(state) == *old(state),
                Some(c) => if contains_ignore_case(c.characters_acted@, char_name@) {
                    r matches Err(e) && invalid(e, char_name@ + " has already acted this round."@)
                        && *final(state) == *old(state)
                } else {
                    match pending_index_from(c.pending_spells@, char_name@, 0) {
                        None => r matches Err(e) && invalid(
                            e,
                            char_name@ + " has not declared a spell this round. Use DeclareSpell first."@,
                        ) && *final(state) == *old(state),
                        Some(k) => {
                            let spell = c.pending_spells@[k].1@;
                            let disrupted = contains_ignore_case(c.disrupted@, char_name@);
                            let ch = old(state).party.members@[i];
                            let ch2 = final(state).party.members@[i];
                            match r {
                                Ok(res) => match final(state).combat {
                                    Some(c2) => {
                                        &&& res.character@ == char_name@
                                        &&& res.spell@ == spell
                                        &&& res.disrupted == disrupted
                                        &&& res.cast == !disrupted
                                        &&& res.message@ == cast_text(char_name@, spell, disrupted)
                                        &&& c2.pending_spells@ == c.pending_spells@.remove(k)
                                        &&& c2.spell_declarations@ == match first_index_ignore_case(
                                            c.spell_declarations@,
                                            char_name@,
                                            0,
                                        ) {
                                            Some(j) => c.spell_declarations@.remove(j),
                                            None => c.spell_declarations@,
                                        }
                                        &&& c2.characters_acted@.drop_last() == c.characters_acted@
                                        &&& c2.characters_acted@.len() == c.characters_acted@.len() + 1
                                        &&& c2.characters_acted@.last()@ == char_name@
                                        &&& c2.log@ == c.log@.push(c2.log@.last())
                                        &&& c2.log@.last()@ == cast_log_text(char_name@, spell, disrupted)
                                        &&& c2.monsters@ == c.monsters@
                                        &&& c2.disrupted@ == c.disrupted@
                                        &&& c2.round == c.round
                                        &&& c2.distance == c.distance
                                        &&& final(state).party.members@ == old(
                                            state,
                                        ).party.members@.update(i, ch2)
                                        &&& ch2 == Character { spell_slots_used: ch2.spell_slots_used, ..ch }
                                        &&& ch2.spell_slots_used@ == slots_after_cast(
                                            ch.spell_slots_used@,
                                            spell_level_of(spell),
                                        )
                                    },
                                    None => false,
                                },
                                Err(_) => false,
                            }
                        },
                    }
                },
            },
        },
{
    let ci = match state.party.find_index(char_name) {
        Some(i) => i,
        None => return Err(no_member(char_name)),
    };
    let ghost members0 = state.party.members@;
    let result = match &mut state.combat {
        None => {
            return Err(no_active_combat());
        },
        Some(combat) => {
            if any_eq_ignore_ascii_case(&combat.characters_acted, char_name) {
                let mut m = String::from_str(char_name);
                m.append(" has already acted this round.");
                return Err(EngineError::InvalidInput(m));
            }
            let k = match find_pending(&combat.pending_spells, char_name) {
                Some(k) => k,
                None => {
                    let mut m = String::from_str(char_name);
                    m.append(" has not declared a spell this round. Use DeclareSpell first.");
                    return Err(EngineError::InvalidInput(m));
                },
            };
            let (_, spell_name) = combat.pending_spells.remove(k);
            match find_name_index(&combat.spell_declarations, char_name) {
                Some(j) => {
                    combat.spell_declarations.remove(j);
                },
                None => {},
            }
            let was_disrupted = is_disrupted(combat, char_name);
            combat.characters_acted.push(String::from_str(char_name));
            let mut log_msg = String::from_str(char_name);
            let mut message = String::from_str(char_name);
            if was_disrupted {
                log_msg.append("'s ");
                log_msg.append(spell_name.as_str());
                log_msg.append(" fizzles — spell was disrupted!");
                message.append("'s ");
                message.append(spell_name.as_str());
                message.append(" was disrupted! The spell fails.");
            } else {
                log_msg.append(" casts ");
                log_msg.append(spell_name.as_str());
                log_msg.append("!");
                message.append(" casts ");
                message.append(spell_name.as_str());
                message.append("! Apply spell effects as appropriate.");
            }
            combat.log_event(log_msg);
            CastSpellResult {
                message,
                character: String::from_str(char_name),
                spell: spell_name,
                cast: !was_disrupted,
                disrupted: was_disrupted,
            }
        },
    };
    match find_spell_level(result.spell.as_str()) {
        Some(level) => {
            if level >= 1 && level <= 6 {
                let slot = (level - 1) as usize;
                proof {
                    assert(slots_countable(state.party.members@[ci as int]));
                    assert(state.party.members@[ci as int].spell_slots_used@[slot as int] < u32::MAX);
                }
                let mut slots = state.party.members[ci].spell_slots_used;
                slots[slot] = slots[slot] + 1;
                state.party.members[ci].spell_slots_used = slots;
            }
        },
        None => {},
    }
    proof {
        assert(state.party.members@ =~= members0.update(ci as int, state.party.members@[ci as int]));
        assert(state.party.members@[ci as int].spell_slots_used@ =~= slots_after_cast(
            members0[ci as int].spell_slots_used@,
            spell_level_of(result.spell@),
        ));
    }
    Ok(result)
}

/// Error text for a weapon not in the weapon table.
pub open spec fn unknown_weapon_text(name: Seq<char>) -> Seq<char> {
    "unknown weapon '"@ + name + "'. Try: sword, mace, dagger, short bow, etc."@
}

/// Error text for an attacker who is not in the party.
pub open spec fn no_attacker_text(name: Seq<char>) -> Seq<char> {
    "no party member named '"@ + name + "'. Use 'party' to list members."@
}

/// Error text for a normal weapon against a monster it cannot harm.
pub open spec fn immune_text(monster: Seq<char>, weapon: Seq<char>) -> Seq<char> {
    monster + " is immune to normal weapons! "@ + weapon + " has no effect. Use a magical weapon."@
}

/// Error text for dispatching a helpless monster from too far away.
pub open spec fn dispatch_too_far_text(monster: Seq<char>, distance: nat, name: Seq<char>) -> Seq<char> {
    "cannot dispatch helpless "@ + monster + " at "@ + nat_text(distance) + "' distance. Use \"close "@
        + name + "\" to move into melee range."@
}

/// The character's name was added to the list of those who acted.
pub open spec fn acted_added(c: CombatState, c2: CombatState, name: Seq<char>) -> bool {
    &&& c2.characters_acted@.len() == c.characters_acted@.len() + 1
    &&& c2.characters_acted@.drop_last() == c.characters_acted@
    &&& c2.characters_acted@.last()@ == name
}

/// A party member attacks monster `monster_idx` with a weapon from the
/// weapon table, once per round. A helpless monster within 10' is
/// dispatched outright; monsters immune to normal weapons need a magical one.
pub fn action_attack(state: &mut GameState, char_name: &str, monster_idx: usize, weapon_name: &str) -> (r: Result<
    AttackResult,
    EngineError,
>)
    requires
        match (old(state).combat, member_index(old(state).party.members@, char_name@)) {
            (Some(c), Some(i)) => monster_idx < c.monsters@.len() ==> target_fits(
                old(state).party.members@[i].thac0 as int,
                c.monsters@[monster_idx as int].ac as int,
            ),
            _ => true,
        },
        match old(state).combat {
            Some(c) => c.monsters@.len() == 0 ==> (weapon_lookup(weapon_name@) is None || member_index(
                old(state).party.members@,
                char_name@,
            ) is None || contains_ignore_case(c.characters_acted@, char_name@)),
            None => true,
        },
    ensures
        same_but_combat(*old(state), *final(state)),
        match weapon_lookup(weapon_name@) {
            None => r matches Err(e) && invalid(e, unknown_weapon_text(weapon_name@)) && *final(state)
                == *old(state),
            Some(w) => match member_index(old(state).party.members@, char_name@) {
                None => r matches Err(e) && invalid(e, no_attacker_text(char_name@)) && *final(state)
                    == *old(state),
                Some(i) => {
                    let ch = old(state).party.members@[i];
                    match old(state).combat {
                        None => r matches Err(e) && no_combat(e) && *final(state) == *old(state),
                        Some(c) => {
                            let ms = c.monsters@;
                            let target_ok = monster_idx < ms.len() && hp_alive(ms[monster_idx as int].hp);
                            if contains_ignore_case(c.characters_acted@, char_name@) {
                                r matches Err(e) && invalid(e, char_name@ + " has already acted this round."@)
                                    && *final(state) == *old(state)
                            } else if target_ok && ms[monster_idx as int].immune_to_normal_weapons
                                && !magical_weapon_name(weapon_name@) {
                                r matches Err(e) && invalid(
                                    e,
                                    immune_text(ms[monster_idx as int].name@, weapon_name@),
                                ) && *final(state) == *old(state)
                            } else if target_ok && ms[monster_idx as int].helpless {
                                if c.distance > 10 {
                                    r matches Err(e) && invalid(
                                        e,
                                        dispatch_too_far_text(ms[monster_idx as int].name@, c.distance as nat, char_name@),
                                    ) && *final(state) == *old(state)
                                } else if !hp_alive(ch.hp) {
                                    r matches Err(e) && invalid(e, super::attack::attacker_dead_text(ch.name@))
                                        && *final(state) == *old(state)
                                } else {
                                    match r {
                                        Ok(res) => match final(state).combat {
                                            Some(c2) => {
                                                &&& res.attacker@ == ch.name@
                                                &&& res.target@ == ms[monster_idx as int].name@
                                                &&& res.auto_kill && res.target_killed && res.target_was_helpless
                                                &&& res.message@ == super::attack::coup_text(ch.name@, ms[monster_idx as int].name@)
                                                &&& c2.monsters@ == ms.update(
                                                    monster_idx as int,
                                                    Monster { hp: 0, helpless: false, ..ms[monster_idx as int] },
                                                )
                                                &&& c2.log@ == c.log@.push(c2.log@.last())
                                                &&& c2.log@.last()@ == res.message@
                                                &&& acted_added(c, c2, char_name@)
                                                &&& c2.distance == c.distance
                                                &&& c2.round == c.round
                                                &&& c2.disrupted@ == c.disrupted@
                                            },
                                            None => false,
                                        },
                                        Err(_) => false,
                                    }
                                }
                            } else {
                                match attack_refusal(c, ch, monster_idx, w) {
                                    Some(t) => r matches Err(e) && invalid(e, t) && *final(state) == *old(state),
                                    None => match r {
                                        Ok(res) => match final(state).combat {
                                            Some(c2) => {
                                                &&& reports_attack(res, as_rolled(res))
                                                &&& attack_made(
                                                    c,
                                                    CombatState { characters_acted: c.characters_acted, ..c2 },
                                                    ch,
                                                    monster_idx,
                                                    w,
                                                    rest_penalty_of(old(state).time),
                                                    as_rolled(res),
                                                )
                                                &&& acted_added(c, c2, char_name@)
                                            },
                                            None => false,
                                        },
                                        Err(_) => false,
                                    },
                                }
                            }
                        },
                    }
                },
            },
        },
{
    let rest_penalty: i32 = match &state.time {
        Some(t) => t.rest_penalty(),
        None => 0,
    };
    let weapon = match find_weapon(weapon_name) {
        Some(w) => w,
        None => {
            let mut m = String::from_str("unknown weapon '");
            m.append(weapon_name);
            m.append("'. Try: sword, mace, dagger, short bow, etc.");
            return Err(EngineError::InvalidInput(m));
        },
    };
    let ci = match state.party.find_index(char_name) {
        Some(i) => i,
        None => {
            let mut m = String::from_str("no party member named '");
            m.append(char_name);
            m.append("'. Use 'party' to list members.");
            return Err(EngineError::InvalidInput(m));
        },
    };
    match &mut state.combat {
        None => Err(no_active_combat()),
        Some(combat) => {
            if any_eq_ignore_ascii_case(&combat.characters_acted, char_name) {
                let mut m = String::from_str(char_name);
                m.append(" has already acted this round.");
                return Err(EngineError::InvalidInput(m));
            }
            let target_ok = monster_idx < combat.monsters.len() && combat.monsters[monster_idx].is_alive();
            if target_ok && combat.monsters[monster_idx].immune_to_normal_weapons && !is_magical_weapon(weapon_name) {
                let mut m = combat.monsters[monster_idx].name.clone();
                m.append(" is immune to normal weapons! ");
                m.append(weapon_name);
                m.append(" has no effect. Use a magical weapon.");
                return Err(EngineError::InvalidInput(m));
            }
            if target_ok && combat.monsters[monster_idx].helpless {
                if combat.distance > 10 {
                    let mut m = String::from_str("cannot dispatch helpless ");
                    m.append(combat.monsters[monster_idx].name.as_str());
                    m.append(" at ");
                    append_nat(&mut m, combat.distance as u64);
                    m.append("' distance. Use \"close ");
                    m.append(char_name);
                    m.append("\" to move into melee range.");
                    return Err(EngineError::InvalidInput(m));
                }
                let ghost c0 = *combat;
                return match coup_de_grace(combat, &state.party.members[ci], monster_idx) {
                    Ok(res) => {
                        let ghost c1 = *combat;
                        combat.characters_acted.push(String::from_str(char_name));
                        let report = AttackResult::from_coup_de_grace(res);
                        proof {
                            assert(combat.log@ == c0.log@.push(combat.log@.last()));
                            assert(combat.log@.last()@ == report.message@);
                            assert(combat.characters_acted@.drop_last() =~= c0.characters_acted@);
                            assert(combat.monsters@ == c0.monsters@.update(
                                monster_idx as int,
                                Monster { hp: 0, helpless: false, ..c0.monsters@[monster_idx as int] },
                            ));
                        }
                        Ok(report)
                    },
                    Err(e) => Err(EngineError::InvalidInput(e)),
                };
            }
            match resolve_character_attack(combat, &state.party.members[ci], monster_idx, &weapon, rest_penalty) {
                Ok(a) => {
                    let ghost core = a;
                    let ghost c1 = *combat;
                    combat.characters_acted.push(String::from_str(char_name));
                    proof {
                        assert(combat.characters_acted@.drop_last() =~= c1.characters_acted@);
                        assert(CombatState { characters_acted: c1.characters_acted, ..*combat } == c1);
                    }
                    let res = AttackResult::from_attack(a);
                    proof {
                        lemma_as_rolled(res, core);
                    }
                    Ok(res)
                },
                Err(e) => Err(EngineError::InvalidInput(e)),
            }
        },
    }
}

/// Error text for a monster that has used all its attacks this round.
pub open spec fn attacks_used_text(name: Seq<char>, max: nat) -> Seq<char> {
    name + " has already used all "@ + nat_text(max) + " attack(s) this round."@
}

/// Error text for a monster attacking from beyond melee range.
pub open spec fn monster_too_far_text(name: Seq<char>, distance: nat) -> Seq<char> {
    name + " cannot melee attack at "@ + nat_text(distance)
        + "' distance. Monsters must be within 10' for melee."@
}

/// Number of attack routines a monster has each round (at least one).
pub open spec fn routines_per_round(m: Monster) -> nat {
    if m.attack_routines@.len() == 0 {
        1
    } else {
        m.attack_routines@.len()
    }
}

/// Why monster `idx` cannot attack, if it cannot.
pub open spec fn monster_attack_refusal(c: CombatState, idx: usize) -> Option<Seq<char>> {
    let ms = c.monsters@;
    if ms.len() == 0 {
        Some("no monsters in combat"@)
    } else if idx >= ms.len() {
        Some(index_out_of_range_text(idx as nat, ms.len()))
    } else if !hp_alive(ms[idx as int].hp) {
        Some(ms[idx as int].name@ + " is dead."@)
    } else if ms[idx as int].turned {
        Some(ms[idx as int].name@ + " is turned and cannot attack."@)
    } else if ms[idx as int].attacks_this_round >= routines_per_round(ms[idx as int]) {
        Some(attacks_used_text(ms[idx as int].name@, routines_per_round(ms[idx as int])))
    } else if c.distance > 10 {
        Some(monster_too_far_text(ms[idx as int].name@, c.distance as nat))
    } else {
        None
    }
}

/// Name of the attack routine a monster uses next.
pub open spec fn routine_name(m: Monster) -> Seq<char> {
    if m.attacks_this_round < m.attack_routines@.len() {
        m.attack_routines@[m.attacks_this_round as int].name@
    } else {
        "attack"@
    }
}

/// Monster `monster_idx` makes its next attack routine on a party member,
/// within 10'; each monster has as many attacks per round as routines (at
/// least one).
pub fn action_monster_attack(state: &mut GameState, monster_idx: usize, char_name: &str) -> (r: Result<
    MonsterAttackResult,
    EngineError,
>)
    requires
        match member_index(old(state).party.members@, char_name@) {
            Some(i) => sane_ac(old(state).party.members@[i].ac),
            None => true,
        },
    ensures
        final(state).mode == old(state).mode,
        final(state).notes == old(state).notes,
        final(state).retainers == old(state).retainers,
        final(state).dungeon == old(state).dungeon,
        final(state).dungeon_level == old(state).dungeon_level,
        final(state).module_monsters == old(state).module_monsters,
        final(state).time == old(state).time,
        final(state).effects == old(state).effects,
        final(state).party.rations == old(state).party.rations,
        match old(state).combat {
            None => r matches Err(e) && no_combat(e) && *final(state) == *old(state),
            Some(c) => match monster_attack_refusal(c, monster_idx) {
                Some(t) => r matches Err(e) && invalid(e, t) && *final(state) == *old(state),
                None => match member_index(old(state).party.members@, char_name@) {
                    None => r matches Err(e) && invalid(e, no_member_text(char_name@)) && *final(state)
                        == *old(state),
                    Some(i) => {
                        let ch = old(state).party.members@[i];
                        let m = c.monsters@[monster_idx as int];
                        if !hp_alive(ch.hp) {
                            r matches Err(e) && invalid(e, already_dead_text(ch.name@)) && *final(state)
                                == *old(state)
                        } else {
                            match r {
                                Ok(res) => match final(state).combat {
                                    Some(c2) => {
                                        let ch2 = final(state).party.members@[i];
                                        &&& reports_attack(res.attack, as_rolled(res.attack))
                                        &&& res.message@ == res.attack.message@
                                        &&& res.attack.attacker@ == m.name@
                                        &&& res.attack.target@ == ch.name@
                                        &&& attack_outcome(
                                            as_rolled(res.attack),
                                            monster_thac0_of(combat_hd_of(m.hit_dice)) as int,
                                            ch.ac,
                                            0,
                                            ch.hp,
                                            ch2.hp,
                                        )
                                        &&& res.attack_routine@ == routine_name(m)
                                        &&& res.attacks_remaining == routines_per_round(m) - (
                                        m.attacks_this_round + 1)
                                        &&& final(state).party.members@ == old(state).party.members@.update(i, ch2)
                                        &&& ch2 == Character { hp: ch2.hp, ..ch }
                                        &&& c2.monsters@ == c.monsters@.update(
                                            monster_idx as int,
                                            Monster { attacks_this_round: (m.attacks_this_round + 1) as usize, ..m },
                                        )
                                        &&& c2.log@.subrange(0, c.log@.len() as int) == c.log@
                                        &&& c2.log@.len() > c.log@.len()
                                        &&& c2.log@.last()@ == res.message@
                                        &&& c2.distance == c.distance
                                        &&& c2.round == c.round
                                        &&& c2.characters_acted@ == c.characters_acted@
                                    },
                                    None => false,
                                },
                                Err(_) => false,
                            }
                        }
                    },
                },
            },
        },
{
    match &state.combat {
        None => {
            return Err(no_active_combat());
        },
        Some(combat) => {
            let n = combat.monsters.len();
            if n == 0 {
                return Err(EngineError::InvalidInput(String::from_str("no monsters in combat")));
            }
            if monster_idx >= n {
                return Err(EngineError::InvalidInput(index_out_of_range_error(monster_idx, n)));
            }
            let m = &combat.monsters[monster_idx];
            if !m.is_alive() {
                let mut e = m.name.clone();
                e.append(" is dead.");
                return Err(EngineError::InvalidInput(e));
            }
            if m.turned {
                let mut e = m.name.clone();
                e.append(" is turned and cannot attack.");
                return Err(EngineError::InvalidInput(e));
            }
            let max_attacks = if m.attack_routines.len() == 0 {
                1
            } else {
                m.attack_routines.len()
            };
            if m.attacks_this_round >= max_attacks {
                let mut e = m.name.clone();
                e.append(" has already used all ");
                append_nat(&mut e, max_attacks as u64);
                e.append(" attack(s) this round.");
                return Err(EngineError::InvalidInput(e));
            }
            if combat.distance > 10 {
                let mut e = m.name.clone();
                e.append(" cannot melee attack at ");
                append_nat(&mut e, combat.distance as u64);
                e.append("' distance. Monsters must be within 10' for melee.");
                return Err(EngineError::InvalidInput(e));
            }
        },
    }
    let ci = match state.party.find_index(char_name) {
        Some(i) => i,
        None => return Err(no_member(char_name)),
    };
    if !state.party.members[ci].is_alive() {
        let mut e = state.party.members[ci].name.clone();
        e.append(" is already dead.");
        return Err(EngineError::InvalidInput(e));
    }
    proof {
        assert(sane_ac(state.party.members@[ci as int].ac));
    }
    let ghost members0 = state.party.members@;
    match &mut state.combat {
        None => Err(no_active_combat()),
        Some(combat) => {
            let used = combat.monsters[monster_idx].attacks_this_round;
            let max_attacks = if combat.monsters[monster_idx].attack_routines.len() == 0 {
                1
            } else {
                combat.monsters[monster_idx].attack_routines.len()
            };
            let routine_name = if used < combat.monsters[monster_idx].attack_routines.len() {
                combat.monsters[monster_idx].attack_routines[used].name.clone()
            } else {
                String::from_str("attack")
            };
            let core = monster_attack(combat, monster_idx, &mut state.party.members[ci], used);
            let ghost ms1 = combat.monsters@;
            combat.monsters[monster_idx].attacks_this_round = used + 1;
            proof {
                assert(combat.monsters@ =~= ms1.update(
                    monster_idx as int,
                    Monster { attacks_this_round: (used + 1) as usize, ..ms1[monster_idx as int] },
                ));
            }
            let ghost a0 = core;
            let res = MonsterAttackResult::new(core, routine_name, max_attacks - (used + 1));
            proof {
                lemma_as_rolled(res.attack, a0);
                assert(state.party.members@ =~= members0.update(ci as int, state.party.members@[ci as int]));
            }
            Ok(res)
        },
    }
}

/// Experience value of the dead monsters.
pub open spec fn dead_xp(ms: Seq<Monster>) -> nat
    decreases ms.len(),
{
    if ms.len() == 0 {
        0
    } else {
        dead_xp(ms.drop_last()) + if hp_alive(ms.last().hp) {
            0nat
        } else {
            ms.last().xp_value as nat
        }
    }
}

/// The dead monsters of a prefix are worth no more than those of the whole.
pub proof fn lemma_dead_xp_prefix(ms: Seq<Monster>, i: int)
    requires
        0 <= i <= ms.len(),
    ensures
        dead_xp(ms.take(i)) <= dead_xp(ms),
    decreases ms.len() - i,
{
    if i < ms.len() {
        lemma_dead_xp_prefix(ms, i + 1);
        assert(ms.take(i + 1).drop_last() =~= ms.take(i));
    } else {
        assert(ms.take(i) =~= ms);
    }
}

/// Number of dead party members.
pub open spec fn dead_members(ms: Seq<Character>) -> nat
    decreases ms.len(),
{
    if ms.len() == 0 {
        0
    } else {
        dead_members(ms.drop_last()) + if hp_alive(ms.last().hp) {
            0nat
        } else {
            1nat
        }
    }
}

/// Indices of the living members among the first `n`, in order.
pub open spec fn survivors(ms: Seq<Character>, n: int) -> Seq<int>
    decreases n,
{
    if n <= 0 {
        Seq::empty()
    } else if hp_alive(ms[n - 1].hp) {
        survivors(ms, n - 1).push(n - 1)
    } else {
        survivors(ms, n - 1)
    }
}

/// Indices of the living retainers among the first `n`, in order.
pub open spec fn living_retainers(rs: Seq<Retainer>, n: int) -> Seq<int>
    decreases n,
{
    if n <= 0 {
        Seq::empty()
    } else if hp_alive(rs[n - 1].hp) {
        living_retainers(rs, n - 1).push(n - 1)
    } else {
        living_retainers(rs, n - 1)
    }
}

/// Experience a character has after receiving `amount`, adjusted by its
/// prime requisite.
pub open spec fn xp_after_award(c: Character, amount: u64) -> u64 {
    sat_add_u64(c.xp, adjusted_xp_of(amount, xp_modifier_of(c)))
}

/// Each survivor's share of the experience of the dead monsters (none when
/// the award is skipped or nothing was killed).
pub open spec fn xp_share(total_xp: nat, survivors: nat, skip_xp: bool) -> nat {
    if !skip_xp && total_xp > 0 && survivors > 0 {
        total_xp / survivors
    } else {
        0
    }
}

/// `a` reports the award of `amount` to character `c`.
pub open spec fn award_reported(a: CombatXpAward, c: Character, amount: u64) -> bool {
    &&& a.character@ == c.name@
    &&& a.base_xp == amount
    &&& a.modifier_pct == xp_modifier_of(c)
    &&& a.adjusted_xp == adjusted_xp_of(amount, xp_modifier_of(c))
    &&& a.total_xp == xp_after_award(c, amount)
    &&& a.ready_to_train == ready_for_next_level(c.class, c.level as nat, a.total_xp)
}

/// Message at the end of a combat.
pub open spec fn end_combat_text(rounds: nat, defeated: nat, total: nat) -> Seq<char> {
    "combat ended after "@ + nat_text(rounds) + " rounds. "@ + nat_text(defeated) + " of "@
        + nat_text(total) + " monsters defeated."@
}

fn dead_xp_total(ms: &Vec<Monster>) -> (r: u64)
    requires
        dead_xp(ms@) <= u64::MAX,
    ensures
        r == dead_xp(ms@),
{
    let mut total: u64 = 0;
    let mut i: usize = 0;
    while i < ms.len()
        invariant
            i <= ms@.len(),
            total == dead_xp(ms@.take(i as int)),
            dead_xp(ms@) <= u64::MAX,
        decreases ms@.len() - i,
    {
        proof {
            assert(ms@.take(i as int + 1).drop_last() =~= ms@.take(i as int));
            lemma_dead_xp_prefix(ms@, i as int + 1);
        }
        if !ms[i].is_alive() {
            total = total + ms[i].xp_value;
        }
        i = i + 1;
    }
    proof {
        assert(ms@.take(i as int) =~= ms@);
    }
    total
}

fn count_dead_members(ms: &Vec<Character>) -> (r: usize)
    ensures
        r == dead_members(ms@),
{
    let mut n: usize = 0;
    let mut i: usize = 0;
    while i < ms.len()
        invariant
            i <= ms@.len(),
            n == dead_members(ms@.take(i as int)),
            n <= i,
        decreases ms@.len() - i,
    {
        proof {
            assert(ms@.take(i as int + 1).drop_last() =~= ms@.take(i as int));
        }
        if !ms[i].is_alive() {
            n = n + 1;
        }
        i = i + 1;
    }
    proof {
        assert(ms@.take(i as int) =~= ms@);
    }
    n
}

fn count_survivors(ms: &Vec<Character>) -> (r: usize)
    ensures
        r == survivors(ms@, ms@.len() as int).len(),
{
    let mut n: usize = 0;
    let mut i: usize = 0;
    while i < ms.len()
        invariant
            i <= ms@.len(),
            n == survivors(ms@, i as int).len(),
            n <= i,
        decreases ms@.len() - i,
    {
        if ms[i].is_alive() {
            n = n + 1;
        }
        i = i + 1;
    }
    n
}

fn award_survivors(ms: &mut Vec<Character>, amount: u64) -> (awards: Vec<CombatXpAward>)
    ensures
        final(ms)@.len() == old(ms)@.len(),
        awards@.len() == survivors(old(ms)@, old(ms)@.len() as int).len(),
        forall|k: int|
            0 <= k < awards@.len() ==> award_reported(
                #[trigger] awards@[k],
                old(ms)@[survivors(old(ms)@, old(ms)@.len() as int)[k]],
                amount,
            ),
        forall|j: int|
            0 <= j < old(ms)@.len() ==> #[trigger] final(ms)@[j] == if hp_alive(old(ms)@[j].hp) {
                Character { xp: xp_after_award(old(ms)@[j], amount), ..old(ms)@[j] }
            } else {
                old(ms)@[j]
            },
{
    let ghost orig = ms@;
    let mut awards: Vec<CombatXpAward> = Vec::new();
    let mut i: usize = 0;
    while i < ms.len()
        invariant
            ms@.len() == orig.len(),
            i <= orig.len(),
            awards@.len() == survivors(orig, i as int).len(),
            forall|k: int|
                0 <= k < awards@.len() ==> award_reported(
                    #[trigger] awards@[k],
                    orig[survivors(orig, i as int)[k]],
                    amount,
                ),
            forall|j: int|
                0 <= j < i ==> #[trigger] ms@[j] == if hp_alive(orig[j].hp) {
                    Character { xp: xp_after_award(orig[j], amount), ..orig[j] }
                } else {
                    orig[j]
                },
            forall|j: int| i <= j < orig.len() ==> #[trigger] ms@[j] == orig[j],
        decreases orig.len() - i,
    {
        if ms[i].is_alive() {
            let name = ms[i].name.clone();
            let award = award_xp(&mut ms[i], 0, amount);
            awards.push(
                CombatXpAward {
                    character: name,
                    base_xp: award.base_xp,
                    modifier_pct: award.modifier_pct,
                    adjusted_xp: award.adjusted_xp,
                    total_xp: award.new_total,
                    ready_to_train: award.ready_to_train,
                },
            );
        }
        proof {
            assert forall|k: int| 0 <= k < awards@.len() implies award_reported(
                #[trigger] awards@[k],
                orig[survivors(orig, i as int + 1)[k]],
                amount,
            ) by {
                if k < survivors(orig, i as int).len() {
                    assert(survivors(orig, i as int + 1)[k] == survivors(orig, i as int)[k]);
                }
            };
        }
        i = i + 1;
    }
    awards
}

/// Ends the combat and returns to the mode before it. The experience of the
/// dead monsters is shared equally among the living party members (with
/// their prime requisite adjustment) unless `skip_xp`; living retainers
/// earn half of it and check their loyalty.
pub fn action_end_combat(state: &mut GameState, skip_xp: bool) -> (r: Result<EndCombatResult, EngineError>)
    requires
        match old(state).combat {
            Some(c) => dead_xp(c.monsters@) <= u64::MAX,
            None => true,
        },
    ensures
        match old(state).combat {
            None => r matches Err(e) && no_combat(e) && *final(state) == *old(state),
            Some(c) => {
                let ms = c.monsters@;
                let members = old(state).party.members@;
                let alive = survivors(members, members.len() as int);
                let share = xp_share(dead_xp(ms), alive.len(), skip_xp);
                let rs = old(state).retainers@;
                let loyal = living_retainers(rs, rs.len() as int);
                match r {
                    Ok(res) => {
                        &&& final(state).combat is None
                        &&& final(state).mode == match old(state).pre_combat_mode {
                            Some(m) => m,
                            None => GameMode::Idle,
                        }
                        &&& final(state).pre_combat_mode is None
                        &&& res.mode_after == final(state).mode
                        &&& res.rounds == c.round
                        &&& res.monsters_defeated == dead_count(ms)
                        &&& res.total_monsters == ms.len()
                        &&& res.total_xp == dead_xp(ms)
                        &&& res.party_casualties == dead_members(members)
                        &&& res.xp_per_survivor == share
                        &&& res.message@ == end_combat_text(c.round as nat, dead_count(ms), ms.len())
                        &&& res.xp_awards@.len() == if share > 0 {
                            alive.len()
                        } else {
                            0
                        }
                        &&& forall|k: int|
                            0 <= k < res.xp_awards@.len() ==> award_reported(
                                #[trigger] res.xp_awards@[k],
                                members[alive[k]],
                                share as u64,
                            )
                        &&& final(state).party.members@.len() == members.len()
                        &&& forall|j: int|
                            0 <= j < members.len() ==> #[trigger] final(state).party.members@[j] == if share
                                > 0 && hp_alive(members[j].hp) {
                                Character { xp: xp_after_award(members[j], share as u64), ..members[j] }
                            } else {
                                members[j]
                            }
                        &&& final(state).party.rations == old(state).party.rations
                        &&& final(state).retainers == old(state).retainers
                        &&& match old(state).dungeon {
                            Some(d) => final(state).dungeon matches Some(d2) && current_room_cleared(d, d2),
                            None => final(state).dungeon is None,
                        }
                        &&& final(state).dungeon_level == old(state).dungeon_level
                        &&& final(state).module_monsters == old(state).module_monsters
                        &&& final(state).time == old(state).time
                        &&& final(state).notes == old(state).notes
                        &&& final(state).effects == old(state).effects
                        &&& res.retainer_xp_each == if dead_xp(ms) > 0 && loyal.len() > 0 {
                            Some(retainer_share_of(dead_xp(ms) as u64))
                        } else {
                            None
                        }
                        &&& res.retainer_xp_recipients@.len() == if res.retainer_xp_each is Some {
                            loyal.len()
                        } else {
                            0
                        }
                        &&& forall|k: int|
                            0 <= k < res.retainer_xp_recipients@.len()
                                ==> #[trigger] res.retainer_xp_recipients@[k]@ == rs[loyal[k]].name@
                        &&& res.retainer_loyalty_checks@.len() == loyal.len()
                        &&& forall|k: int|
                            0 <= k < loyal.len() ==> {
                                let chk = #[trigger] res.retainer_loyalty_checks@[k];
                                &&& chk.name@ == rs[loyal[k]].name@
                                &&& chk.loyalty == rs[loyal[k]].loyalty
                                &&& exists|roll: int|
                                    2 <= roll <= 12 && chk.outcome == loyalty_outcome_of(
                                        roll,
                                        chk.loyalty as int,
                                    )
                            }
                    },
                    Err(_) => false,
                }
            },
        },
{
    if state.combat.is_none() {
        return Err(no_active_combat());
    }
    let combat = state.exit_combat().unwrap();
    let rounds = combat.round;
    let defeated = combat.dead_monster_count();
    let total_monsters = combat.monsters.len();
    let total_xp = dead_xp_total(&combat.monsters);
    let casualties = count_dead_members(&state.party.members);
    if let Some(d) = &mut state.dungeon {
        d.clear_current_room();
    }
    let n_survivors = count_survivors(&state.party.members);
    let share: u64 = if !skip_xp && total_xp > 0 && n_survivors > 0 {
        total_xp / (n_survivors as u64)
    } else {
        0
    };
    let xp_awards = if share > 0 {
        award_survivors(&mut state.party.members, share)
    } else {
        Vec::new()
    };
    let ghost rs = state.retainers@;
    let mut names: Vec<String> = Vec::new();
    let mut checks: Vec<RetainerLoyaltyCheckResult> = Vec::new();
    let mut i: usize = 0;
    while i < state.retainers.len()
        invariant
            state.retainers@ == rs,
            i <= rs.len(),
            names@.len() == living_retainers(rs, i as int).len(),
            checks@.len() == names@.len(),
            forall|k: int|
                0 <= k < names@.len() ==> #[trigger] names@[k]@ == rs[living_retainers(rs, i as int)[k]].name@,
            forall|k: int|
                0 <= k < checks@.len() ==> {
                    let chk = #[trigger] checks@[k];
                    &&& chk.name@ == rs[living_retainers(rs, i as int)[k]].name@
                    &&& chk.loyalty == rs[living_retainers(rs, i as int)[k]].loyalty
                    &&& exists|roll: int|
                        2 <= roll <= 12 && chk.outcome == loyalty_outcome_of(roll, chk.loyalty as int)
                },
        decreases rs.len() - i,
    {
        let ghost checks0 = checks@;
        if state.retainers[i].is_alive() {
            let loyalty = state.retainers[i].loyalty;
            let (roll, outcome) = loyalty_check(loyalty);
            names.push(state.retainers[i].name.clone());
            checks.push(
                RetainerLoyaltyCheckResult { name: state.retainers[i].name.clone(), loyalty, outcome },
            );
            proof {
                let chk = checks@[checks@.len() - 1];
                assert(2 <= roll as int <= 12 && chk.outcome == loyalty_outcome_of(
                    roll as int,
                    chk.loyalty as int,
                ));
            }
        }
        proof {
            assert forall|k: int| 0 <= k < checks@.len() implies exists|roll: int|
                2 <= roll <= 12 && (#[trigger] checks@[k]).outcome == loyalty_outcome_of(
                    roll,
                    checks@[k].loyalty as int,
                ) by {
                if k < checks0.len() {
                    assert(checks@[k] == checks0[k]);
                }
            };
        }
        proof {
            assert forall|k: int| 0 <= k < names@.len() implies #[trigger] names@[k]@
                == rs[living_retainers(rs, i as int + 1)[k]].name@ by {
                if k < living_retainers(rs, i as int).len() {
                    assert(living_retainers(rs, i as int + 1)[k] == living_retainers(rs, i as int)[k]);
                }
            };
            assert forall|k: int| 0 <= k < checks@.len() implies #[trigger] checks@[k].name@
                == rs[living_retainers(rs, i as int + 1)[k]].name@ && checks@[k].loyalty
                == rs[living_retainers(rs, i as int + 1)[k]].loyalty by {
                if k < living_retainers(rs, i as int).len() {
                    assert(living_retainers(rs, i as int + 1)[k] == living_retainers(rs, i as int)[k]);
                }
            };
        }
        i = i + 1;
    }
    let retainer_xp_each = if total_xp > 0 && names.len() > 0 {
        Some(retainer_xp_share(total_xp))
    } else {
        None
    };
    let recipients = if retainer_xp_each.is_some() {
        names
    } else {
        Vec::new()
    };
    let mut message = String::from_str("combat ended after ");
    append_nat(&mut message, rounds as u64);
    message.append(" rounds. ");
    append_nat(&mut message, defeated as u64);
    message.append(" of ");
    append_nat(&mut message, total_monsters as u64);
    message.append(" monsters defeated.");
    Ok(
        EndCombatResult {
            message,
            rounds,
            monsters_defeated: defeated,
            total_monsters,
            total_xp,
            xp_per_survivor: share,
            xp_awards,
            party_casualties: casualties,
            mode_after: state.mode,
            retainer_xp_each,
            retainer_xp_recipients: recipients,
            retainer_loyalty_checks: checks,
        },
    )
}

/// The survivors' shares never add up to more than the experience earned.
pub proof fn lemma_xp_shares_within_total(total_xp: nat, survivors: nat, skip_xp: bool)
    ensures
        xp_share(total_xp, survivors, skip_xp) * survivors <= total_xp,
        skip_xp ==> xp_share(total_xp, survivors, skip_xp) == 0,
{
    if !skip_xp && total_xp > 0 && survivors > 0 {
        assert((total_xp / survivors) * survivors <= total_xp) by (nonlinear_arith)
            requires
                survivors > 0,
        ;
    }
}

/// Marking a monster helpless and then not helpless gives back the monster
/// list it started from (for a monster that was not helpless).
pub proof fn lemma_helpless_round_trip(ms: Seq<Monster>, i: int)
    requires
        0 <= i < ms.len(),
        !ms[i].helpless,
    ensures
        ({
            let marked = ms.update(i, Monster { helpless: true, ..ms[i] });
            marked.update(i, Monster { helpless: false, ..marked[i] }) == ms
        }),
{
    let marked = ms.update(i, Monster { helpless: true, ..ms[i] });
    assert(marked.update(i, Monster { helpless: false, ..marked[i] }) =~= ms);
}

/// Error text for a character who cannot turn undead.
pub open spec fn cannot_turn_text(c: Character) -> Seq<char> {
    c.name@ + " ("@ + class_name_text(c.class)
        + ") cannot turn undead. Only Clerics and Paladins can turn undead."@
}

/// A cleric of the party tries to turn the undead monster `monster_idx`.
pub fn action_turn_undead(state: &mut GameState, char_name: &str, monster_idx: usize) -> (r: Result<
    TurnUndeadResult,
    EngineError,
>)
    ensures
        same_but_combat(*old(state), *final(state)),
        match member_index(old(state).party.members@, char_name@) {
            None => r matches Err(e) && invalid(e, no_member_text(char_name@)) && *final(state)
                == *old(state),
            Some(i) => {
                let ch = old(state).party.members@[i];
                if ch.class != Class::Cleric {
                    r matches Err(e) && invalid(e, cannot_turn_text(ch)) && *final(state) == *old(
                        state,
                    )
                } else {
                    match old(state).combat {
                        None => r matches Err(e) && no_combat(e) && *final(state) == *old(state),
                        Some(c) => {
                            let ms = c.monsters@;
                            if monster_idx >= ms.len() {
                                r matches Err(e) && invalid(
                                    e,
                                    "monster index "@ + nat_text(monster_idx as nat) + " out of range."@,
                                ) && *final(state) == *old(state)
                            } else if !hp_alive(ms[monster_idx as int].hp) {
                                r matches Err(e) && invalid(e, "target is already dead."@)
                                    && *final(state) == *old(state)
                            } else if !ms[monster_idx as int].undead {
                                r matches Err(e) && invalid(
                                    e,
                                    ms[monster_idx as int].name@ + " is not undead."@,
                                ) && *final(state) == *old(state)
                            } else {
                                let m = ms[monster_idx as int];
                                let rank = undead_rank_of(combat_hd_of(m.hit_dice));
                                match r {
                                    Ok(res) => match final(state).combat {
                                        Some(c2) => {
                                            &&& res.cleric_name@ == ch.name@
                                            &&& res.cleric_level == ch.level
                                            &&& res.undead_type@ == m.name@
                                            &&& res.undead_rank == rank
                                            &&& res.table_result == turn_result_of(ch.level as int, rank as int)
                                            &&& res.message@ == turn_text(as_turning(res))
                                            &&& c2.monsters@ == if res.success {
                                                apply_turning(ms, 0, res.hd_affected as nat, res.destroyed)
                                            } else {
                                                ms
                                            }
                                            &&& c2.log@ == c.log@.push(c2.log@.last())
                                            &&& c2.log@.last()@ == res.message@
                                            &&& c2.distance == c.distance
                                            &&& c2.round == c.round
                                        },
                                        None => false,
                                    },
                                    Err(_) => false,
                                }
                            }
                        },
                    }
                }
            },
        },
{
    let ci = match state.party.find_index(char_name) {
        Some(i) => i,
        None => return Err(no_member(char_name)),
    };
    let character = &state.party.members[ci];
    if character.class != Class::Cleric {
        let mut m = character.name.clone();
        m.append(" (");
        m.append(character.class.name());
        m.append(") cannot turn undead. Only Clerics and Paladins can turn undead.");
        return Err(EngineError::InvalidInput(m));
    }
    match &mut state.combat {
        None => Err(no_active_combat()),
        Some(combat) => {
            if monster_idx >= combat.monsters.len() {
                let mut m = String::from_str("monster index ");
                append_nat(&mut m, monster_idx as u64);
                m.append(" out of range.");
                return Err(EngineError::InvalidInput(m));
            }
            if !combat.monsters[monster_idx].is_alive() {
                return Err(EngineError::InvalidInput(String::from_str("target is already dead.")));
            }
            if !combat.monsters[monster_idx].undead {
                let mut m = combat.monsters[monster_idx].name.clone();
                m.append(" is not undead.");
                return Err(EngineError::InvalidInput(m));
            }
            let core = resolve_turn_undead(combat, &state.party.members[ci], state.party.members[ci].level, monster_idx);
            let ghost t = core;
            let res = TurnUndeadResult::from_turning(core);
            proof {
                assert(turn_text(as_turning(res)) == turn_text(t));
            }
            Ok(res)
        },
    }
}

/// To-hit bonus of a backstab.
pub const BACKSTAB_ATTACK_BONUS: i32 = 4;

/// Damage multiplier of a backstab.
pub const BACKSTAB_MULTIPLIER: u32 = 2;

/// The d20 roll a backstab needs: THAC0 less the target's AC, the backstab
/// bonus and the STR modifier, kept within 2..20.
pub open spec fn backstab_target_of(thac0: int, ac: int, str_mod: int) -> int {
    let t = thac0 - ac - 4 - str_mod;
    if t < 2 {
        2
    } else if t > 20 {
        20
    } else {
        t
    }
}

/// A d20 roll hits: a natural 20 always, a natural 1 never, else at or
/// above the target number.
pub open spec fn backstab_hits(roll: int, target: int) -> bool {
    roll == 20 || (roll != 1 && roll >= target)
}

/// Backstab damage from the weapon roll: doubled, plus the STR modifier
/// (not doubled), at least 1.
pub open spec fn backstab_damage_of(base: int, str_mod: int) -> int {
    if base * 2 + str_mod < 1 {
        1
    } else {
        base * 2 + str_mod
    }
}

/// Why a backstab is refused, if it is (after the weapon, the thief and the
/// combat were found).
pub open spec fn backstab_refusal(c: CombatState, ch: Character, name: Seq<char>, idx: usize, weapon: Seq<char>, w: crate::rules::WeaponDef) -> Option<Seq<char>> {
    let ms = c.monsters@;
    if contains_ignore_case(c.characters_acted@, name) {
        Some(name + " has already acted this round."@)
    } else if idx >= ms.len() {
        Some("monster index "@ + nat_text(idx as nat) + " out of range."@)
    } else if !hp_alive(ms[idx as int].hp) {
        Some(ms[idx as int].name@ + " is already dead."@)
    } else if ms[idx as int].immune_to_normal_weapons && !magical_weapon_name(weapon) {
        Some(ms[idx as int].name@ + " is immune to normal weapons! "@ + weapon + " has no effect."@)
    } else if (!w.missile || w.melee) && c.distance > 10 {
        Some(w.name@ + " is a melee weapon but monsters are "@ + nat_text(c.distance as nat)
            + "' away. Use \"close "@ + ch.name@ + "\" to move into melee range."@)
    } else if !(!w.missile || w.melee) {
        Some(w.name@ + " is a missile weapon and cannot be used for backstab. Backstab requires a melee weapon."@)
    } else {
        None
    }
}

/// Suffix of a killing blow.
pub open spec fn killed_suffix(alive: bool) -> Seq<char> {
    if alive {
        Seq::<char>::empty()
    } else {
        " — KILLED!"@
    }
}

/// A thief of the party stabs monster `monster_idx` in the back with a melee
/// weapon: +4 to hit, double weapon damage (the STR modifier is added once).
pub fn action_backstab(state: &mut GameState, char_name: &str, monster_idx: usize, weapon_name: &str) -> (r: Result<
    BackstabResult,
    EngineError,
>)
    ensures
        same_but_combat(*old(state), *final(state)),
        match weapon_lookup(weapon_name@) {
            None => r matches Err(e) && invalid(e, "unknown weapon '"@ + weapon_name@ + "'."@)
                && *final(state) == *old(state),
            Some(w) => match member_index(old(state).party.members@, char_name@) {
                None => r matches Err(e) && invalid(e, no_member_text(char_name@)) && *final(state)
                    == *old(state),
                Some(i) => {
                    let ch = old(state).party.members@[i];
                    if ch.class != Class::Thief {
                        r matches Err(e) && invalid(
                            e,
                            ch.name@ + " ("@ + class_name_text(ch.class) + ") cannot backstab."@,
                        ) && *final(state) == *old(state)
                    } else {
                        match old(state).combat {
                            None => r matches Err(e) && no_combat(e) && *final(state) == *old(state),
                            Some(c) => match backstab_refusal(c, ch, char_name@, monster_idx, weapon_name@, w) {
                                Some(t) => r matches Err(e) && invalid(e, t) && *final(state) == *old(state),
                                None => {
                                    let m = c.monsters@[monster_idx as int];
                                    let str_mod = standard_mod(ch.abilities.strength as int);
                                    let target = backstab_target_of(ch.thac0 as int, m.ac as int, str_mod);
                                    match r {
                                        Ok(res) => match final(state).combat {
                                            Some(c2) => {
                                                &&& res.attack_bonus == 4
                                                &&& res.multiplier == 2
                                                &&& res.target_number == target
                                                &&& 1 <= res.attack_roll <= 20
                                                &&& res.hit == backstab_hits(res.attack_roll as int, target)
                                                &&& acted_added(c, c2, char_name@)
                                                &&& c2.log@ == c.log@.push(c2.log@.last())
                                                &&& c2.distance == c.distance
                                                &&& c2.round == c.round
                                                &&& if res.hit {
                                                    &&& res.damage matches Some(d) && exists|base: int, rolls: Seq<u32>|
                                                        #[trigger] damage_rolled(w.damage@, 0, base, rolls)
                                                        && d == backstab_damage_of(base, str_mod)
                                                    &&& c2.monsters@ == c.monsters@.update(
                                                        monster_idx as int,
                                                        Monster { hp: hp_after(m.hp, res.damage->0), ..m },
                                                    )
                                                    &&& res.monster_alive == Some(hp_alive(hp_after(m.hp, res.damage->0)))
                                                    &&& res.message@ == ch.name@ + " backstabs "@ + m.name@ + " (+4 to hit, x2 damage)! Rolled "@
                                                        + int_text(res.attack_roll as int) + " vs target "@ + int_text(target)
                                                        + ": HIT for "@ + int_text(res.damage->0 as int) + " damage"@
                                                        + killed_suffix(hp_alive(hp_after(m.hp, res.damage->0))) + "."@
                                                    &&& c2.log@.last()@ == ch.name@ + " backstabs "@ + m.name@ + " for "@
                                                        + int_text(res.damage->0 as int) + " damage (x2)"@
                                                        + killed_suffix(hp_alive(hp_after(m.hp, res.damage->0)))
                                                } else {
                                                    &&& res.damage is None
                                                    &&& res.monster_alive is None
                                                    &&& c2.monsters@ == c.monsters@
                                                    &&& res.message@ == ch.name@ + " backstab attempt: rolled "@
                                                        + int_text(res.attack_roll as int) + " vs target "@ + int_text(target) + " — MISS."@
                                                    &&& c2.log@.last()@ == ch.name@ + " backstab attempt on "@ + m.name@ + " missed"@
                                                }
                                            },
                                            None => false,
                                        },
                                        Err(_) => false,
                                    }
                                },
                            },
                        }
                    }
                },
            },
        },
{
    let weapon = match find_weapon(weapon_name) {
        Some(w) => w,
        None => {
            let mut m = String::from_str("unknown weapon '");
            m.append(weapon_name);
            m.append("'.");
            return Err(EngineError::InvalidInput(m));
        },
    };
    let ci = match state.party.find_index(char_name) {
        Some(i) => i,
        None => return Err(no_member(char_name)),
    };
    let character = &state.party.members[ci];
    if character.class != Class::Thief {
        let mut m = character.name.clone();
        m.append(" (");
        m.append(character.class.name());
        m.append(") cannot backstab.");
        return Err(EngineError::InvalidInput(m));
    }
    match &mut state.combat {
        None => Err(no_active_combat()),
        Some(combat) => {
            if any_eq_ignore_ascii_case(&combat.characters_acted, char_name) {
                let mut m = String::from_str(char_name);
                m.append(" has already acted this round.");
                return Err(EngineError::InvalidInput(m));
            }
            if monster_idx >= combat.monsters.len() {
                let mut m = String::from_str("monster index ");
                append_nat(&mut m, monster_idx as u64);
                m.append(" out of range.");
                return Err(EngineError::InvalidInput(m));
            }
            if !combat.monsters[monster_idx].is_alive() {
                let mut m = combat.monsters[monster_idx].name.clone();
                m.append(" is already dead.");
                return Err(EngineError::InvalidInput(m));
            }
            if combat.monsters[monster_idx].immune_to_normal_weapons && !is_magical_weapon(weapon_name) {
                let mut m = combat.monsters[monster_idx].name.clone();
                m.append(" is immune to normal weapons! ");
                m.append(weapon_name);
                m.append(" has no effect.");
                return Err(EngineError::InvalidInput(m));
            }
            if !weapon.missile || weapon.melee {
                if combat.distance > 10 {
                    let mut m = String::from_str(weapon.name);
                    m.append(" is a melee weapon but monsters are ");
                    append_nat(&mut m, combat.distance as u64);
                    m.append("' away. Use \"close ");
                    m.append(state.party.members[ci].name.as_str());
                    m.append("\" to move into melee range.");
                    return Err(EngineError::InvalidInput(m));
                }
            } else {
                let mut m = String::from_str(weapon.name);
                m.append(" is a missile weapon and cannot be used for backstab. Backstab requires a melee weapon.");
                return Err(EngineError::InvalidInput(m));
            }
            let character = &state.party.members[ci];
            let str_mod = str_melee_mod(character.abilities.strength);
            let target_ac = combat.monsters[monster_idx].ac;
            let raw_target: i64 = character.thac0 as i64 - target_ac as i64 - BACKSTAB_ATTACK_BONUS as i64
                - str_mod as i64;
            let target_number: i32 = if raw_target < 2 {
                2
            } else if raw_target > 20 {
                20
            } else {
                raw_target as i32
            };
            let attack_roll = random_between(1, 20) as i32;
            let hit = attack_roll == 20 || (attack_roll != 1 && attack_roll >= target_number);
            let ghost c0 = *combat;
            combat.characters_acted.push(String::from_str(char_name));
            proof {
                assert(combat.characters_acted@.drop_last() =~= c0.characters_acted@);
            }
            let monster_name = combat.monsters[monster_idx].name.clone();
            if hit {
                let (base, rolls) = roll_damage(weapon.damage, 0);
                let doubled = base * 2 + str_mod;
                let total = if doubled < 1 {
                    1
                } else {
                    doubled
                };
                proof {
                    assert(total == backstab_damage_of(base as int, standard_mod(character.abilities.strength as int)));
                    assert(damage_rolled(weapon.damage@, 0, base as int, rolls@));
                }
                let ghost ms0 = combat.monsters@;
                let new_hp = subtract_hp(combat.monsters[monster_idx].hp, total);
                combat.monsters[monster_idx].hp = new_hp;
                proof {
                    assert(combat.monsters@ =~= ms0.update(monster_idx as int, Monster { hp: new_hp, ..ms0[monster_idx as int] }));
                }
                let alive = new_hp > 0;
                let mut log = character.name.clone();
                log.append(" backstabs ");
                log.append(monster_name.as_str());
                log.append(" for ");
                append_int(&mut log, total as i64);
                log.append(" damage (x2)");
                if !alive {
                    log.append(" — KILLED!");
                }
                combat.log_event(log);
                let mut message = character.name.clone();
                message.append(" backstabs ");
                message.append(monster_name.as_str());
                message.append(" (+4 to hit, x2 damage)! Rolled ");
                append_int(&mut message, attack_roll as i64);
                message.append(" vs target ");
                append_int(&mut message, target_number as i64);
                message.append(": HIT for ");
                append_int(&mut message, total as i64);
                message.append(" damage");
                if !alive {
                    message.append(" — KILLED!");
                }
                message.append(".");
                Ok(
                    BackstabResult {
                        message,
                        hit: true,
                        attack_roll,
                        target_number,
                        attack_bonus: BACKSTAB_ATTACK_BONUS,
                        multiplier: BACKSTAB_MULTIPLIER,
                        damage: Some(total),
                        monster_alive: Some(alive),
                    },
                )
            } else {
                let mut log = character.name.clone();
                log.append(" backstab attempt on ");
                log.append(monster_name.as_str());
                log.append(" missed");
                combat.log_event(log);
                let mut message = character.name.clone();
                message.append(" backstab attempt: rolled ");
                append_int(&mut message, attack_roll as i64);
                message.append(" vs target ");
                append_int(&mut message, target_number as i64);
                message.append(" — MISS.");
                Ok(
                    BackstabResult {
                        message,
                        hit: false,
                        attack_roll,
                        target_number,
                        attack_bonus: BACKSTAB_ATTACK_BONUS,
                        multiplier: BACKSTAB_MULTIPLIER,
                        damage: None,
                        monster_alive: None,
                    },
                )
            }
        },
    }
}

} // verus!
