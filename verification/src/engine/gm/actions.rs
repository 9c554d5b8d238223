//! The game master's tools on the game state.
use vstd::prelude::*;

use crate::engine::combat::actions::{invalid, no_member_text};
use crate::engine::xp::{XpAward, adjusted_xp_of, award_xp, sat_add_u64, xp_modifier_of};
use crate::dice::random_between;
use crate::model::{Character, class_name_text, hp_alive};
use crate::rules::thief::{
    ThiefSkill, check_skill, has_thief_skills, rolled_on_d6, skill_chance, skill_chance_of,
    skill_name_text, skill_succeeds, thief_class,
};
use crate::rules::{check_level_up, ready_for_next_level, xp_for_level, xp_table};
use crate::state::{EngineError, GameState, member_index};
use crate::text::{
    append_nat, eq_ignore_case, find_name_index, first_index_ignore_case, lowercase, lowercase_text,
    nat_text, str_eq,
};

use super::results::{
    AddNoteResult, AddRationsResult, AwardTreasureXpResult, AwardXpResult, DamageResult,
    DeleteNoteResult, DismissRetainerResult, HealResult, ListNotesResult, ListRetainersResult,
    NoteEntry, RetainerSummary, RulingResult, SetHpResult, SetRationsResult, ThiefSkillCheckResult,
};

verus! {

fn no_party_member(name: &str) -> (e: EngineError)
    ensures
        invalid(e, no_member_text(name@)),
{
    let mut m = String::from_str("no party member named '");
    m.append(name);
    m.append("'.");
    EngineError::InvalidInput(m)
}

/// Everything of the game but the party members is unchanged.
pub open spec fn same_but_members(a: GameState, b: GameState) -> bool {
    &&& b.party.rations == a.party.rations
    &&& b.mode == a.mode
    &&& b.pre_combat_mode == a.pre_combat_mode
    &&& b.combat == a.combat
    &&& b.notes == a.notes
    &&& b.retainers == a.retainers
    &&& b.effects == a.effects
    &&& b.dungeon == a.dungeon
    &&& b.dungeon_level == a.dungeon_level
    &&& b.module_monsters == a.module_monsters
    &&& b.time == a.time
}

/// Only member `i` changed, into `c`.
pub open spec fn member_replaced(a: GameState, b: GameState, i: int, c: Character) -> bool {
    &&& same_but_members(a, b)
    &&& b.party.members@ == a.party.members@.update(i, c)
}

/// Experience needed for the next level, when there is one.
pub open spec fn next_level_xp_of(c: Character) -> Option<u64> {
    let x = xp_table(c.class, c.level as nat + 1);
    if x == u64::MAX {
        None
    } else {
        Some(x)
    }
}

/// Awards experience to a party member, adjusted by the prime requisite or
/// not; totals stop at the largest `u64`.
pub fn action_award_xp(
    state: &mut GameState,
    char_name: &str,
    amount: u64,
    apply_prime_req_modifier: bool,
) -> (r: Result<AwardXpResult, EngineError>)
    requires
        match member_index(old(state).party.members@, char_name@) {
            Some(i) => old(state).party.members@[i].level < u32::MAX,
            None => true,
        },
    ensures
        match member_index(old(state).party.members@, char_name@) {
            None => r matches Err(e) && invalid(e, no_member_text(char_name@)) && *final(state)
                == *old(state),
            Some(i) => {
                let c = old(state).party.members@[i];
                let pct: int = if apply_prime_req_modifier {
                    xp_modifier_of(c)
                } else {
                    0
                };
                let adjusted = if apply_prime_req_modifier {
                    adjusted_xp_of(amount, pct)
                } else {
                    amount
                };
                let total = sat_add_u64(c.xp, adjusted);
                match r {
                    Ok(res) => {
                        &&& res.character@ == c.name@
                        &&& res.base_xp == amount
                        &&& res.adjusted_xp == adjusted
                        &&& res.modifier_pct == pct
                        &&& res.total_xp == total
                        &&& res.ready_to_train == ready_for_next_level(c.class, c.level as nat, total)
                        &&& res.next_level_xp == next_level_xp_of(c)
                        &&& member_replaced(*old(state), *final(state), i, Character { xp: total, ..c })
                    },
                    Err(_) => false,
                }
            },
        },
{
    let ci = match state.party.find_index(char_name) {
        Some(i) => i,
        None => return Err(no_party_member(char_name)),
    };
    let ghost members0 = state.party.members@;
    let (adjusted, pct, total, ready) = if apply_prime_req_modifier {
        let award = award_xp(&mut state.party.members[ci], amount, 0);
        (award.adjusted_xp, award.modifier_pct, award.new_total, award.ready_to_train)
    } else {
        let c = &mut state.party.members[ci];
        c.xp = c.xp.saturating_add(amount);
        let ready = check_level_up(c.class, c.level, c.xp);
        (amount, 0, c.xp, ready)
    };
    let c = &state.party.members[ci];
    let next_xp = xp_for_level(c.class, c.level + 1);
    let next_level_xp = if next_xp == u64::MAX {
        None
    } else {
        Some(next_xp)
    };
    proof {
        assert(state.party.members@ =~= members0.update(ci as int, state.party.members@[ci as int]));
    }
    Ok(
        AwardXpResult {
            character: c.name.clone(),
            base_xp: amount,
            adjusted_xp: adjusted,
            modifier_pct: pct,
            total_xp: total,
            next_level_xp,
            ready_to_train: ready,
        },
    )
}

/// Awards treasure (one experience point per gold piece) and monster
/// experience to a party member, with the prime requisite adjustment.
pub fn action_award_treasure_xp(
    state: &mut GameState,
    char_name: &str,
    treasure_gp: u64,
    monster_xp: u64,
) -> (r: Result<AwardTreasureXpResult, EngineError>)
    ensures
        match member_index(old(state).party.members@, char_name@) {
            None => r matches Err(e) && invalid(e, no_member_text(char_name@)) && *final(state)
                == *old(state),
            Some(i) => {
                let c = old(state).party.members@[i];
                let base = sat_add_u64(treasure_gp, monster_xp);
                let adjusted = adjusted_xp_of(base, xp_modifier_of(c));
                let total = sat_add_u64(c.xp, adjusted);
                match r {
                    Ok(res) => {
                        &&& res.character@ == c.name@
                        &&& res.treasure_gp == treasure_gp
                        &&& res.monster_xp == monster_xp
                        &&& res.base_xp == base
                        &&& res.modifier_pct == xp_modifier_of(c)
                        &&& res.adjusted_xp == adjusted
                        &&& res.total_xp == total
                        &&& res.ready_to_train == ready_for_next_level(c.class, c.level as nat, total)
                        &&& member_replaced(*old(state), *final(state), i, Character { xp: total, ..c })
                    },
                    Err(_) => false,
                }
            },
        },
{
    let ci = match state.party.find_index(char_name) {
        Some(i) => i,
        None => return Err(no_party_member(char_name)),
    };
    let ghost members0 = state.party.members@;
    let award: XpAward = award_xp(&mut state.party.members[ci], treasure_gp, monster_xp);
    proof {
        assert(state.party.members@ =~= members0.update(ci as int, state.party.members@[ci as int]));
    }
    Ok(
        AwardTreasureXpResult {
            character: state.party.members[ci].name.clone(),
            treasure_gp,
            monster_xp,
            base_xp: award.base_xp,
            modifier_pct: award.modifier_pct,
            adjusted_xp: award.adjusted_xp,
            total_xp: award.new_total,
            ready_to_train: award.ready_to_train,
        },
    )
}

/// Records a ruling in the session notes, marked `[RULING]`.
pub fn action_ruling(state: &mut GameState, text: &str) -> (r: Result<RulingResult, EngineError>)
    ensures
        r matches Ok(res) && res.text@ == text@ && res.note@ == "[RULING] "@ + text@,
        final(state).notes@.len() == old(state).notes@.len() + 1,
        final(state).notes@.drop_last() == old(state).notes@,
        final(state).notes@.last()@ == "[RULING] "@ + text@,
        final(state).party == old(state).party,
        final(state).combat == old(state).combat,
        final(state).retainers == old(state).retainers,
        final(state).dungeon == old(state).dungeon,
        final(state).dungeon_level == old(state).dungeon_level,
        final(state).module_monsters == old(state).module_monsters,
        final(state).time == old(state).time,
        final(state).mode == old(state).mode,
{
    let mut note = String::from_str("[RULING] ");
    note.append(text);
    let ghost before = state.notes@;
    state.notes.push(note.clone());
    proof {
        assert(state.notes@.drop_last() =~= before);
    }
    Ok(RulingResult { text: String::from_str(text), note })
}

/// Adds a plain note to the session notes.
pub fn action_add_note(state: &mut GameState, text: &str) -> (r: Result<AddNoteResult, EngineError>)
    ensures
        r matches Ok(res) && res.text@ == text@,
        final(state).notes@.len() == old(state).notes@.len() + 1,
        final(state).notes@.drop_last() == old(state).notes@,
        final(state).notes@.last()@ == text@,
        final(state).party == old(state).party,
        final(state).combat == old(state).combat,
        final(state).retainers == old(state).retainers,
        final(state).dungeon == old(state).dungeon,
        final(state).dungeon_level == old(state).dungeon_level,
        final(state).module_monsters == old(state).module_monsters,
        final(state).time == old(state).time,
        final(state).mode == old(state).mode,
{
    let ghost before = state.notes@;
    state.notes.push(String::from_str(text));
    proof {
        assert(state.notes@.drop_last() =~= before);
    }
    Ok(AddNoteResult { text: String::from_str(text) })
}

/// The session notes, numbered from 1.
pub fn action_list_notes(state: &GameState) -> (r: Result<ListNotesResult, EngineError>)
    ensures
        r matches Ok(res) && res.notes@.len() == state.notes@.len() && forall|i: int|
            0 <= i < state.notes@.len() ==> (#[trigger] res.notes@[i]).index == i + 1
                && res.notes@[i].text@ == state.notes@[i]@,
{
    let mut notes: Vec<NoteEntry> = Vec::new();
    let mut i: usize = 0;
    while i < state.notes.len()
        invariant
            i <= state.notes@.len(),
            notes@.len() == i,
            forall|j: int|
                0 <= j < i ==> (#[trigger] notes@[j]).index == j + 1 && notes@[j].text@
                    == state.notes@[j]@,
        decreases state.notes@.len() - i,
    {
        notes.push(NoteEntry { index: i + 1, text: state.notes[i].clone() });
        i = i + 1;
    }
    Ok(ListNotesResult { notes })
}

/// Error text for a note number outside the notes.
pub open spec fn note_range_text(index: nat, len: nat) -> Seq<char> {
    "index "@ + nat_text(index) + " out of range; have "@ + nat_text(len) + " note"@ + if len == 1 {
        Seq::<char>::empty()
    } else {
        "s"@
    } + "."@
}

/// Deletes note number `index` (counted from 1).
pub fn action_delete_note(state: &mut GameState, index: usize) -> (r: Result<DeleteNoteResult, EngineError>)
    ensures
        final(state).party == old(state).party,
        final(state).combat == old(state).combat,
        final(state).retainers == old(state).retainers,
        final(state).dungeon == old(state).dungeon,
        final(state).dungeon_level == old(state).dungeon_level,
        final(state).module_monsters == old(state).module_monsters,
        final(state).time == old(state).time,
        final(state).mode == old(state).mode,
        ({
            let notes = old(state).notes@;
            if notes.len() == 0 {
                r matches Err(e) && invalid(e, "no notes to delete."@) && *final(state) == *old(state)
            } else if index < 1 || index > notes.len() {
                r matches Err(e) && invalid(e, note_range_text(index as nat, notes.len()))
                    && *final(state) == *old(state)
            } else {
                r matches Ok(res) && res.index == index && res.deleted == notes[index - 1]
                    && final(state).notes@ == notes.remove(index - 1)
            }
        }),
{
    let n = state.notes.len();
    if n == 0 {
        return Err(EngineError::InvalidInput(String::from_str("no notes to delete.")));
    }
    if index < 1 || index > n {
        let mut m = String::from_str("index ");
        append_nat(&mut m, index as u64);
        m.append(" out of range; have ");
        append_nat(&mut m, n as u64);
        m.append(" note");
        if n != 1 {
            m.append("s");
        }
        m.append(".");
        return Err(EngineError::InvalidInput(m));
    }
    let deleted = state.notes.remove(index - 1);
    Ok(DeleteNoteResult { index, deleted })
}

/// The party's retainers.
pub fn action_list_retainers(state: &GameState) -> (r: Result<ListRetainersResult, EngineError>)
    ensures
        r matches Ok(res) && res.retainers@.len() == state.retainers@.len() && forall|i: int|
            0 <= i < state.retainers@.len() ==> {
                let s = #[trigger] res.retainers@[i];
                let t = state.retainers@[i];
                &&& s.name@ == t.name@
                &&& s.class == t.class
                &&& s.level == t.level
                &&& s.hp == t.hp
                &&& s.max_hp == t.max_hp
                &&& s.loyalty == t.loyalty
                &&& s.wage_gp == t.wage_gp
                &&& s.alive == hp_alive(t.hp)
            },
{
    let mut out: Vec<RetainerSummary> = Vec::new();
    let mut i: usize = 0;
    while i < state.retainers.len()
        invariant
            i <= state.retainers@.len(),
            out@.len() == i,
            forall|j: int|
                0 <= j < i ==> {
                    let s = #[trigger] out@[j];
                    let t = state.retainers@[j];
                    &&& s.name@ == t.name@
                    &&& s.class == t.class
                    &&& s.level == t.level
                    &&& s.hp == t.hp
                    &&& s.max_hp == t.max_hp
                    &&& s.loyalty == t.loyalty
                    &&& s.wage_gp == t.wage_gp
                    &&& s.alive == hp_alive(t.hp)
                },
        decreases state.retainers@.len() - i,
    {
        let t = &state.retainers[i];
        out.push(
            RetainerSummary {
                name: t.name.clone(),
                class: t.class,
                level: t.level,
                hp: t.hp,
                max_hp: t.max_hp,
                loyalty: t.loyalty,
                wage_gp: t.wage_gp,
                alive: t.is_alive(),
            },
        );
        i = i + 1;
    }
    Ok(ListRetainersResult { retainers: out })
}

/// Position of the first retainer from `i` on named `name` (ASCII case ignored).
pub open spec fn retainer_index_from(rs: Seq<crate::state::Retainer>, name: Seq<char>, i: int) -> Option<int>
    decreases rs.len() - i,
{
    if i < 0 || i >= rs.len() {
        None
    } else if eq_ignore_case(rs[i].name@, name) {
        Some(i)
    } else {
        retainer_index_from(rs, name, i + 1)
    }
}

/// Dismisses the first retainer with the given name (ASCII case ignored).
pub fn action_dismiss_retainer(state: &mut GameState, name: &str) -> (r: Result<
    DismissRetainerResult,
    EngineError,
>)
    ensures
        final(state).party == old(state).party,
        final(state).combat == old(state).combat,
        final(state).notes == old(state).notes,
        final(state).mode == old(state).mode,
        match retainer_index_from(old(state).retainers@, name@, 0) {
            None => r matches Err(e) && invalid(e, "no retainer named '"@ + name@ + "'."@)
                && *final(state) == *old(state),
            Some(i) => r matches Ok(res) && res.name == old(state).retainers@[i].name && res.class
                == old(state).retainers@[i].class && final(state).retainers@ == old(
                state,
            ).retainers@.remove(i),
        },
{
    let mut i: usize = 0;
    while i < state.retainers.len()
        invariant
            *state == *old(state),
            i <= state.retainers@.len(),
            retainer_index_from(state.retainers@, name@, 0) == retainer_index_from(
                state.retainers@,
                name@,
                i as int,
            ),
        decreases state.retainers@.len() - i,
    {
        if crate::text::eq_ignore_ascii_case(state.retainers[i].name.as_str(), name) {
            let removed = state.retainers.remove(i);
            return Ok(DismissRetainerResult { name: removed.name, class: removed.class });
        }
        i = i + 1;
    }
    let mut m = String::from_str("no retainer named '");
    m.append(name);
    m.append("'.");
    Err(EngineError::InvalidInput(m))
}

/// Hit points after healing: at most the maximum.
pub open spec fn healed_hp(hp: i32, max_hp: i32, amount: i32) -> int {
    if hp + amount < max_hp {
        hp + amount
    } else {
        max_hp as int
    }
}

/// Heals a party member by `amount`, up to the maximum hit points.
pub fn action_heal(state: &mut GameState, char_name: &str, amount: i32) -> (r: Result<HealResult, EngineError>)
    requires
        match member_index(old(state).party.members@, char_name@) {
            Some(i) => {
                let c = old(state).party.members@[i];
                amount >= 1 ==> c.hp + amount <= i32::MAX && healed_hp(c.hp, c.max_hp, amount) - c.hp
                    >= i32::MIN
            },
            None => true,
        },
    ensures
        if amount < 1 {
            r matches Err(e) && invalid(e, "amount must be a positive integer"@) && *final(state)
                == *old(state)
        } else {
            match member_index(old(state).party.members@, char_name@) {
                None => r matches Err(e) && invalid(e, no_member_text(char_name@)) && *final(state)
                    == *old(state),
                Some(i) => {
                    let c = old(state).party.members@[i];
                    let hp = healed_hp(c.hp, c.max_hp, amount);
                    match r {
                        Ok(res) => {
                            &&& res.character@ == c.name@
                            &&& res.old_hp == c.hp
                            &&& res.hp == hp
                            &&& res.healed == hp - c.hp
                            &&& res.max_hp == c.max_hp
                            &&& member_replaced(*old(state), *final(state), i, Character { hp: hp as i32, ..c })
                        },
                        Err(_) => false,
                    }
                },
            }
        },
{
    if amount < 1 {
        return Err(EngineError::InvalidInput(String::from_str("amount must be a positive integer")));
    }
    let ci = match state.party.find_index(char_name) {
        Some(i) => i,
        None => return Err(no_party_member(char_name)),
    };
    let ghost members0 = state.party.members@;
    let c = &mut state.party.members[ci];
    let old_hp = c.hp;
    let raised = c.hp + amount;
    c.hp = if raised < c.max_hp {
        raised
    } else {
        c.max_hp
    };
    let healed = c.hp - old_hp;
    let res = HealResult {
        character: c.name.clone(),
        healed,
        old_hp,
        hp: c.hp,
        max_hp: c.max_hp,
    };
    proof {
        assert(state.party.members@ =~= members0.update(ci as int, state.party.members@[ci as int]));
    }
    Ok(res)
}

/// Deals `amount` damage to a party member.
pub fn action_damage(state: &mut GameState, char_name: &str, amount: i32) -> (r: Result<DamageResult, EngineError>)
    requires
        match member_index(old(state).party.members@, char_name@) {
            Some(i) => amount >= 1 ==> old(state).party.members@[i].hp - amount >= i32::MIN,
            None => true,
        },
    ensures
        if amount < 1 {
            r matches Err(e) && invalid(e, "amount must be a positive integer"@) && *final(state)
                == *old(state)
        } else {
            match member_index(old(state).party.members@, char_name@) {
                None => r matches Err(e) && invalid(e, no_member_text(char_name@)) && *final(state)
                    == *old(state),
                Some(i) => {
                    let c = old(state).party.members@[i];
                    let hp = c.hp - amount;
                    match r {
                        Ok(res) => {
                            &&& res.character@ == c.name@
                            &&& res.damage == amount
                            &&& res.old_hp == c.hp
                            &&& res.hp == hp
                            &&& res.max_hp == c.max_hp
                            &&& res.alive == (hp > 0)
                            &&& res.status@ == if hp > 0 {
                                "wounded"@
                            } else {
                                "DEAD"@
                            }
                            &&& member_replaced(*old(state), *final(state), i, Character { hp: hp as i32, ..c })
                        },
                        Err(_) => false,
                    }
                },
            }
        },
{
    if amount < 1 {
        return Err(EngineError::InvalidInput(String::from_str("amount must be a positive integer")));
    }
    let ci = match state.party.find_index(char_name) {
        Some(i) => i,
        None => return Err(no_party_member(char_name)),
    };
    let ghost members0 = state.party.members@;
    let c = &mut state.party.members[ci];
    let old_hp = c.hp;
    c.hp = c.hp - amount;
    let alive = c.is_alive();
    let status = if alive {
        String::from_str("wounded")
    } else {
        String::from_str("DEAD")
    };
    let res = DamageResult {
        character: c.name.clone(),
        damage: amount,
        old_hp,
        hp: c.hp,
        max_hp: c.max_hp,
        alive,
        status,
    };
    proof {
        assert(state.party.members@ =~= members0.update(ci as int, state.party.members@[ci as int]));
    }
    Ok(res)
}

/// Sets a party member's hit points.
pub fn action_set_hp(state: &mut GameState, char_name: &str, hp: i32) -> (r: Result<SetHpResult, EngineError>)
    ensures
        match member_index(old(state).party.members@, char_name@) {
            None => r matches Err(e) && invalid(e, no_member_text(char_name@)) && *final(state)
                == *old(state),
            Some(i) => {
                let c = old(state).party.members@[i];
                match r {
                    Ok(res) => {
                        &&& res.character@ == c.name@
                        &&& res.old_hp == c.hp
                        &&& res.hp == hp
                        &&& res.max_hp == c.max_hp
                        &&& res.alive == (hp > 0)
                        &&& res.status@ == if hp > 0 {
                            "alive"@
                        } else {
                            "DEAD"@
                        }
                        &&& member_replaced(*old(state), *final(state), i, Character { hp, ..c })
                    },
                    Err(_) => false,
                }
            },
        },
{
    let ci = match state.party.find_index(char_name) {
        Some(i) => i,
        None => return Err(no_party_member(char_name)),
    };
    let ghost members0 = state.party.members@;
    let c = &mut state.party.members[ci];
    let old_hp = c.hp;
    c.hp = hp;
    let alive = c.is_alive();
    let status = if alive {
        String::from_str("alive")
    } else {
        String::from_str("DEAD")
    };
    let res = SetHpResult { character: c.name.clone(), old_hp, hp, max_hp: c.max_hp, alive, status };
    proof {
        assert(state.party.members@ =~= members0.update(ci as int, state.party.members@[ci as int]));
    }
    Ok(res)
}

/// Sets the party's rations.
pub fn action_set_rations(state: &mut GameState, amount: u32) -> (r: Result<SetRationsResult, EngineError>)
    ensures
        r matches Ok(res) && res.old_rations == old(state).party.rations && res.rations == amount,
        final(state).party.rations == amount,
        final(state).party.members == old(state).party.members,
        final(state).combat == old(state).combat,
        final(state).notes == old(state).notes,
        final(state).retainers == old(state).retainers,
        final(state).dungeon == old(state).dungeon,
        final(state).dungeon_level == old(state).dungeon_level,
        final(state).module_monsters == old(state).module_monsters,
        final(state).time == old(state).time,
{
    let old_rations = state.party.rations;
    state.party.rations = amount;
    Ok(SetRationsResult { old_rations, rations: amount })
}

/// Adds rations to the party's stock; the stock stops at the largest `u32`.
pub fn action_add_rations(state: &mut GameState, amount: u32) -> (r: Result<AddRationsResult, EngineError>)
    ensures
        if amount < 1 {
            r matches Err(e) && invalid(e, "amount must be a positive integer"@) && *final(state)
                == *old(state)
        } else {
            let total: u32 = if old(state).party.rations + amount > u32::MAX {
                u32::MAX
            } else {
                (old(state).party.rations + amount) as u32
            };
            &&& r matches Ok(res) && res.added == amount && res.rations == total
            &&& final(state).party.rations == total
            &&& final(state).party.members == old(state).party.members
            &&& final(state).combat == old(state).combat
            &&& final(state).notes == old(state).notes
            &&& final(state).retainers == old(state).retainers
            &&& final(state).dungeon == old(state).dungeon
            &&& final(state).dungeon_level == old(state).dungeon_level
            &&& final(state).module_monsters == old(state).module_monsters
            &&& final(state).time == old(state).time
        },
{
    if amount < 1 {
        return Err(EngineError::InvalidInput(String::from_str("amount must be a positive integer")));
    }
    state.party.rations = state.party.rations.saturating_add(amount);
    Ok(AddRationsResult { added: amount, rations: state.party.rations })
}

/// Deleting the note just added gives back the notes as they were.
pub proof fn lemma_add_then_delete_note(notes: Seq<String>, note: String)
    ensures
        notes.push(note).remove(notes.len() as int) == notes,
{
    assert(notes.push(note).remove(notes.len() as int) =~= notes);
}

/// Healing never raises hit points above the maximum, nor lowers them when
/// they are at or below it.
pub proof fn lemma_heal_bounded(hp: i32, max_hp: i32, amount: i32)
    requires
        amount >= 1,
        hp <= max_hp,
    ensures
        healed_hp(hp, max_hp, amount) <= max_hp,
        healed_hp(hp, max_hp, amount) >= hp,
{
}

// ── Thief skill checks ─────────────────────────────────────────

/// Whether a character is dropped from a skill name before it is matched.
pub open spec fn skill_separator(c: char) -> bool {
    c == ' ' || c == '_' || c == '-'
}

/// A text without spaces, underscores and hyphens.
pub open spec fn without_separators(s: Seq<char>) -> Seq<char>
    decreases s.len(),
{
    if s.len() == 0 {
        Seq::empty()
    } else {
        without_separators(s.drop_last()) + if skill_separator(s.last()) {
            Seq::empty()
        } else {
            seq![s.last()]
        }
    }
}

/// The skill a reduced name (lower case, no separators) stands for.
pub open spec fn skill_for_key(k: Seq<char>) -> Option<ThiefSkill> {
    if k == "climbwalls"@ || k == "climb"@ {
        Some(ThiefSkill::ClimbWalls)
    } else if k == "findtraps"@ || k == "traps"@ {
        Some(ThiefSkill::FindTraps)
    } else if k == "hearnoise"@ || k == "hear"@ || k == "listen"@ {
        Some(ThiefSkill::HearNoise)
    } else if k == "hideshadows"@ || k == "hide"@ || k == "hideinshadows"@ {
        Some(ThiefSkill::HideShadows)
    } else if k == "movesilently"@ || k == "sneak"@ || k == "stealth"@ {
        Some(ThiefSkill::MoveSilently)
    } else if k == "openlocks"@ || k == "pick"@ || k == "lockpick"@ {
        Some(ThiefSkill::OpenLocks)
    } else if k == "pickpockets"@ || k == "pickpocket"@ || k == "steal"@ {
        Some(ThiefSkill::PickPockets)
    } else if k == "readlanguages"@ || k == "read"@ {
        Some(ThiefSkill::ReadLanguages)
    } else {
        None
    }
}

/// The skill a name stands for: lower-cased, without separators, then
/// matched against the skill names and their short forms.
pub open spec fn skill_named(name: Seq<char>) -> Option<ThiefSkill> {
    skill_for_key(without_separators(lowercase_text(name)))
}

fn strip_separators(s: &str) -> (r: String)
    ensures
        r@ == without_separators(s@),
{
    let n = s.unicode_len();
    let mut out = String::new();
    let mut i: usize = 0;
    while i < n
        invariant
            n == s@.len(),
            i <= n,
            out@ == without_separators(s@.take(i as int)),
        decreases n - i,
    {
        let c = s.get_char(i);
        proof {
            assert(s@.take(i as int + 1).drop_last() =~= s@.take(i as int));
        }
        if !(c == ' ' || c == '_' || c == '-') {
            let one = s.substring_char(i, i + 1);
            let ghost before = out@;
            out.append(one);
            proof {
                assert(one@ =~= seq![c]);
                assert(out@ =~= before + seq![c]);
            }
        } else {
            proof {
                assert(out@ =~= out@ + Seq::<char>::empty());
            }
        }
        i = i + 1;
    }
    proof {
        assert(s@.take(n as int) =~= s@);
    }
    out
}

fn parse_thief_skill(name: &str) -> (r: Option<ThiefSkill>)
    ensures
        r == skill_named(name@),
{
    let low = lowercase(name);
    let k = strip_separators(low.as_str());
    let ks = k.as_str();
    if str_eq(ks, "climbwalls") || str_eq(ks, "climb") {
        Some(ThiefSkill::ClimbWalls)
    } else if str_eq(ks, "findtraps") || str_eq(ks, "traps") {
        Some(ThiefSkill::FindTraps)
    } else if str_eq(ks, "hearnoise") || str_eq(ks, "hear") || str_eq(ks, "listen") {
        Some(ThiefSkill::HearNoise)
    } else if str_eq(ks, "hideshadows") || str_eq(ks, "hide") || str_eq(ks, "hideinshadows") {
        Some(ThiefSkill::HideShadows)
    } else if str_eq(ks, "movesilently") || str_eq(ks, "sneak") || str_eq(ks, "stealth") {
        Some(ThiefSkill::MoveSilently)
    } else if str_eq(ks, "openlocks") || str_eq(ks, "pick") || str_eq(ks, "lockpick") {
        Some(ThiefSkill::OpenLocks)
    } else if str_eq(ks, "pickpockets") || str_eq(ks, "pickpocket") || str_eq(ks, "steal") {
        Some(ThiefSkill::PickPockets)
    } else if str_eq(ks, "readlanguages") || str_eq(ks, "read") {
        Some(ThiefSkill::ReadLanguages)
    } else {
        None
    }
}

/// Refusal of a skill check by a character without thief skills.
pub open spec fn no_thief_skills_text(c: Character) -> Seq<char> {
    c.name@ + " ("@ + class_name_text(c.class) + ") does not have thief skills."@
}

/// Refusal of a skill name that names no skill.
pub open spec fn unknown_skill_text(name: Seq<char>) -> Seq<char> {
    "unknown thief skill '"@ + name + "'."@
}

/// The die a skill is rolled on.
pub open spec fn die_text(skill: ThiefSkill) -> Seq<char> {
    if rolled_on_d6(skill) {
        "d6"@
    } else {
        "d%"@
    }
}

/// Report line of a skill check.
pub open spec fn skill_check_text(c: Character, skill: ThiefSkill, roll: u32) -> Seq<char> {
    c.name@ + " attempts "@ + skill_name_text(skill) + " (level "@ + nat_text(c.level as nat)
        + "): target "@ + nat_text(skill_chance_of(skill, c.level as nat) as nat) + ", rolled "@
        + nat_text(roll as nat) + " ("@ + die_text(skill) + ") — "@ + if skill_succeeds(
        skill,
        c.level as nat,
        roll,
    ) {
        "SUCCESS"@
    } else {
        "FAILURE"@
    } + "."@
}

/// A party member tries a thief skill: the chance comes from the skill table
/// at the character's level, and the skill succeeds when a d% roll (a d6
/// roll for hearing noise) is at most that chance.
pub fn action_thief_skill_check(state: &GameState, char_name: &str, skill_name: &str) -> (r: Result<
    ThiefSkillCheckResult,
    EngineError,
>)
    ensures
        match member_index(state.party.members@, char_name@) {
            None => r matches Err(e) && invalid(e, no_member_text(char_name@)),
            Some(i) => {
                let c = state.party.members@[i];
                if !thief_class(c.class) {
                    r matches Err(e) && invalid(e, no_thief_skills_text(c))
                } else {
                    match skill_named(skill_name@) {
                        None => r matches Err(e) && invalid(e, unknown_skill_text(skill_name@)),
                        Some(skill) => match r {
                            Ok(res) => {
                                &&& res.character@ == c.name@
                                &&& res.skill@ == skill_name_text(skill)
                                &&& res.level == c.level
                                &&& res.target == skill_chance_of(skill, c.level as nat)
                                &&& 1 <= res.roll <= (if rolled_on_d6(skill) {
                                    6u32
                                } else {
                                    100u32
                                })
                                &&& res.die_type@ == die_text(skill)
                                &&& res.success == skill_succeeds(skill, c.level as nat, res.roll)
                                &&& res.message@ == skill_check_text(c, skill, res.roll)
                            },
                            Err(_) => false,
                        },
                    }
                }
            },
        },
{
    let ci = match state.party.find_index(char_name) {
        Some(i) => i,
        None => return Err(no_party_member(char_name)),
    };
    let c = &state.party.members[ci];
    if !has_thief_skills(c.class) {
        let mut m = c.name.clone();
        m.append(" (");
        m.append(c.class.name());
        m.append(") does not have thief skills.");
        return Err(EngineError::InvalidInput(m));
    }
    let skill = match parse_thief_skill(skill_name) {
        Some(s) => s,
        None => {
            let mut m = String::from_str("unknown thief skill '");
            m.append(skill_name);
            m.append("'.");
            return Err(EngineError::InvalidInput(m));
        },
    };
    let target = skill_chance(skill, c.level);
    let d6 = skill.is_d6();
    let roll = if d6 {
        random_between(1, 6)
    } else {
        random_between(1, 100)
    };
    let result = check_skill(skill, c.level, roll);
    let die_type = if d6 {
        "d6"
    } else {
        "d%"
    };
    let mut message = c.name.clone();
    message.append(" attempts ");
    message.append(skill.name());
    message.append(" (level ");
    append_nat(&mut message, c.level as u64);
    message.append("): target ");
    append_nat(&mut message, target as u64);
    message.append(", rolled ");
    append_nat(&mut message, roll as u64);
    message.append(" (");
    message.append(die_type);
    message.append(") — ");
    message.append(
        if result.success {
            "SUCCESS"
        } else {
            "FAILURE"
        },
    );
    message.append(".");
    proof {
        assert(message@ =~= skill_check_text(*c, skill, roll));
    }
    Ok(ThiefSkillCheckResult {
        message,
        character: c.name.clone(),
        skill: String::from_str(skill.name()),
        level: c.level,
        target,
        roll,
        die_type: String::from_str(die_type),
        success: result.success,
    })
}

} // verus!
