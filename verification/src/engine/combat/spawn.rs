//! Starting a combat: monsters with given statistics or from the bestiary.
use vstd::prelude::*;

use crate::bestiary::{
    MonsterDef, bestiary_index, bestiary_name, bestiary_routines, bestiary_special, bestiary_stats,
    MonsterKind, bestiary_kind, find_monster, is_bestiary_entry, kind_of, module_lookup,
    primary_damage, routine_names, routine_pairs,
};
use crate::dice::{DiceExpr, MAX_DICE, roll, roll_die};
use crate::model::{CombatState, HitDice, Monster, MonsterAttackRoutine};
use crate::state::effect::texts;
use crate::state::dungeon::{PlacedMonsterInstance, Room, placed_marked, room_index, room_replaced};
use crate::state::{EngineError, GameMode, GameState};
use crate::model::hit_dice_text;
use crate::text::{append_int, append_nat, eq_ignore_ascii_case, eq_ignore_case, int_text, lowercase, lowercase_text, nat_text};

use super::actions::{invalid, no_combat, wrong_state};
use super::attack::join_text;
use super::results::{
    AddMonsterResult, SpawnEncounterResult, SpawnMonsterResult, SpawnPlacedDetail, SpawnPlacedResult,
};
use super::status::append_joined;
use super::status::{combat_status, combat_status_text};

verus! {

/// Statistics of monsters to put into a combat.
pub struct SpawnEncounterParams<'a> {
    pub name: &'a str,
    pub count: u32,
    pub hit_dice: &'a HitDice,
    pub ac: i32,
    pub hp: i32,
    pub damage: &'a str,
    pub morale: u32,
    pub distance: u32,
    pub xp_value: Option<u64>,
    /// Overrides the bestiary's undead flag when given.
    pub undead: Option<bool>,
    /// Overrides the bestiary's immunity to normal weapons when given.
    pub immune_to_normal_weapons: Option<bool>,
}

/// Whether a character is white space: the characters of Unicode's
/// `White_Space` property, which `char::is_whitespace` and `str::trim` go by.
pub open spec fn is_blank_char(c: char) -> bool {
    ||| ('\u{9}' <= c && c <= '\u{D}')
    ||| c == ' '
    ||| c == '\u{85}'
    ||| c == '\u{A0}'
    ||| c == '\u{1680}'
    ||| ('\u{2000}' <= c && c <= '\u{200A}')
    ||| c == '\u{2028}'
    ||| c == '\u{2029}'
    ||| c == '\u{202F}'
    ||| c == '\u{205F}'
    ||| c == '\u{3000}'
}

fn blank_char(c: char) -> (r: bool)
    ensures
        r == is_blank_char(c),
{
    ('\u{9}' <= c && c <= '\u{D}') || c == ' ' || c == '\u{85}' || c == '\u{A0}' || c == '\u{1680}'
        || ('\u{2000}' <= c && c <= '\u{200A}') || c == '\u{2028}' || c == '\u{2029}' || c == '\u{202F}'
        || c == '\u{205F}' || c == '\u{3000}'
}

/// Whether a text holds nothing but white space.
pub open spec fn is_blank(s: Seq<char>) -> bool {
    forall|i: int| 0 <= i < s.len() ==> is_blank_char(#[trigger] s[i])
}

fn blank(s: &str) -> (r: bool)
    ensures
        r == is_blank(s@),
{
    let n = s.unicode_len();
    let mut i: usize = 0;
    while i < n
        invariant
            n == s@.len(),
            i <= n,
            forall|j: int| 0 <= j < i ==> is_blank_char(#[trigger] s@[j]),
        decreases n - i,
    {
        let c = s.get_char(i);
        if !blank_char(c) {
            return false;
        }
        i = i + 1;
    }
    true
}

/// Name of monster `k` (from 0) of a group of `count`: numbered from 1 when
/// there are several.
pub open spec fn spawn_name(name: Seq<char>, count: nat, k: nat) -> Seq<char> {
    if count > 1 {
        name + " "@ + nat_text(k + 1)
    } else {
        name
    }
}

fn spawn_name_exec(name: &str, count: u32, k: u32) -> (r: String)
    ensures
        r@ == spawn_name(name@, count as nat, k as nat),
{
    let mut s = String::from_str(name);
    if count > 1 {
        s.append(" ");
        append_nat(&mut s, k as u64 + 1);
    }
    s
}

/// Monster `m` was made with exactly these statistics, fresh for a combat.
pub open spec fn monster_made(
    m: Monster,
    name: Seq<char>,
    hit_dice: HitDice,
    hp: i32,
    ac: i32,
    damage: Seq<char>,
    morale: u32,
    xp: u64,
    attacks: Seq<Seq<char>>,
    routines: Seq<(Seq<char>, Seq<char>)>,
    undead: bool,
    immune: bool,
) -> bool {
    &&& m.name@ == name
    &&& m.hit_dice == hit_dice
    &&& m.hp == hp
    &&& m.max_hp == hp
    &&& m.ac == ac
    &&& m.damage@ == damage
    &&& m.morale == morale
    &&& m.xp_value == xp
    &&& texts(m.attacks@) == attacks
    &&& routine_pairs(m.attack_routines@) == routines
    &&& m.undead == undead
    &&& m.immune_to_normal_weapons == immune
    &&& !m.turned
    &&& !m.helpless
    &&& m.effects@.len() == 0
    &&& m.attacks_this_round == 0
}

/// The experience value of monsters of a group: the given one, else the
/// bestiary's, else 0.
pub open spec fn group_xp(given: Option<u64>, db: Option<int>) -> u64 {
    match given {
        Some(x) => x,
        None => match db {
            Some(i) => bestiary_stats(i).4,
            None => 0,
        },
    }
}

/// A flag of monsters of a group: the given one, else the bestiary's
/// (`undead` picks which), else false.
pub open spec fn group_flag(given: Option<bool>, db: Option<int>, undead: bool) -> bool {
    match given {
        Some(b) => b,
        None => match db {
            Some(i) => if undead {
                bestiary_stats(i).5
            } else {
                bestiary_stats(i).6
            },
            None => false,
        },
    }
}

/// Attack names of monsters of a group: the bestiary's, else one `attack`.
pub open spec fn group_attacks(db: Option<int>) -> Seq<Seq<char>> {
    match db {
        Some(i) => bestiary_routines(i).map_values(|p: (Seq<char>, Seq<char>)| p.0),
        None => seq!["attack"@],
    }
}

/// Attack routines of monsters of a group: the bestiary's, else one
/// `attack` with the given damage.
pub open spec fn group_routines(db: Option<int>, damage: Seq<char>) -> Seq<(Seq<char>, Seq<char>)> {
    match db {
        Some(i) => bestiary_routines(i),
        None => seq![("attack"@, damage)],
    }
}

/// The monsters of a group made from encounter statistics.
pub open spec fn group_made(ms: Seq<Monster>, p: SpawnEncounterParams, db: Option<int>) -> bool {
    &&& ms.len() == p.count
    &&& forall|k: int|
        0 <= k < ms.len() ==> monster_made(
            #[trigger] ms[k],
            spawn_name(p.name@, p.count as nat, k as nat),
            *p.hit_dice,
            p.hp,
            p.ac,
            p.damage@,
            p.morale,
            group_xp(p.xp_value, db),
            group_attacks(db),
            group_routines(db, p.damage@),
            group_flag(p.undead, db, true),
            group_flag(p.immune_to_normal_weapons, db, false),
        )
}

/// Why encounter statistics are refused, if they are.
pub open spec fn params_refusal(p: SpawnEncounterParams) -> Option<Seq<char>> {
    if is_blank(p.name@) {
        Some("monster name must not be empty."@)
    } else if p.count == 0 {
        Some("count must be a positive integer"@)
    } else if p.hp < 1 {
        Some("hp must be a positive integer"@)
    } else if !(2 <= p.morale <= 12) {
        Some("morale must be 2-12"@)
    } else {
        None
    }
}

fn check_params(p: &SpawnEncounterParams) -> (r: Result<(), EngineError>)
    ensures
        match params_refusal(*p) {
            Some(t) => r matches Err(e) && invalid(e, t),
            None => r is Ok,
        },
{
    if blank(p.name) {
        return Err(EngineError::InvalidInput(String::from_str("monster name must not be empty.")));
    }
    if p.count == 0 {
        return Err(EngineError::InvalidInput(String::from_str("count must be a positive integer")));
    }
    if p.hp < 1 {
        return Err(EngineError::InvalidInput(String::from_str("hp must be a positive integer")));
    }
    if !(2 <= p.morale && p.morale <= 12) {
        return Err(EngineError::InvalidInput(String::from_str("morale must be 2-12")));
    }
    Ok(())
}

fn attack_names_for(db: &Option<MonsterDef>) -> (r: Vec<String>)
    requires
        db matches Some(d) ==> exists|i: int| is_bestiary_entry(*d, i),
    ensures
        match db {
            Some(d) => texts(r@) == routine_names(d.attack_routines@),
            None => texts(r@) == seq!["attack"@],
        },
{
    match db {
        Some(d) => d.attack_names(),
        None => {
            let v = vec![String::from_str("attack")];
            proof {
                assert(texts(v@) =~= seq!["attack"@]);
            }
            v
        },
    }
}

fn routines_for(db: &Option<MonsterDef>, damage: &str) -> (r: Vec<MonsterAttackRoutine>)
    ensures
        match db {
            Some(d) => routine_pairs(r@) == routine_pairs(d.attack_routines@),
            None => routine_pairs(r@) == seq![("attack"@, damage@)],
        },
{
    match db {
        Some(d) => d.routines(),
        None => {
            let v = vec![MonsterAttackRoutine { name: String::from_str("attack"), damage: String::from_str(damage) }];
            proof {
                assert(routine_pairs(v@) =~= seq![("attack"@, damage@)]);
            }
            v
        },
    }
}

proof fn lemma_entry_views(d: MonsterDef, i: int)
    requires
        is_bestiary_entry(d, i),
    ensures
        routine_names(d.attack_routines@) == bestiary_routines(i).map_values(
            |p: (Seq<char>, Seq<char>)| p.0,
        ),
        routine_pairs(d.attack_routines@) == bestiary_routines(i),
{
    assert(routine_names(d.attack_routines@) =~= bestiary_routines(i).map_values(
        |p: (Seq<char>, Seq<char>)| p.0,
    )) by {
        assert forall|k: int| 0 <= k < d.attack_routines@.len() implies #[trigger] routine_names(
            d.attack_routines@,
        )[k] == bestiary_routines(i)[k].0 by {
            assert(routine_pairs(d.attack_routines@)[k] == bestiary_routines(i)[k]);
        };
    };
}

/// Makes the monsters of a group from encounter statistics, the bestiary
/// filling in what is not given.
fn make_group(p: &SpawnEncounterParams, db: &Option<MonsterDef>) -> (r: Vec<Monster>)
    requires
        match db {
            Some(d) => bestiary_index(p.name@) matches Some(i) && is_bestiary_entry(*d, i),
            None => bestiary_index(p.name@) is None,
        },
    ensures
        group_made(r@, *p, bestiary_index(p.name@)),
{
    let ghost dbi = bestiary_index(p.name@);
    let xp: u64 = match p.xp_value {
        Some(x) => x,
        None => match db {
            Some(d) => d.xp,
            None => 0,
        },
    };
    let undead = match p.undead {
        Some(b) => b,
        None => match db {
            Some(d) => d.undead,
            None => false,
        },
    };
    let immune = match p.immune_to_normal_weapons {
        Some(b) => b,
        None => match db {
            Some(d) => d.immune_to_normal_weapons,
            None => false,
        },
    };
    proof {
        if let Some(d) = db {
            lemma_entry_views(*d, dbi->0);
        }
    }
    let mut monsters: Vec<Monster> = Vec::new();
    let mut k: u32 = 0;
    while k < p.count
        invariant
            k <= p.count,
            monsters@.len() == k,
            dbi == bestiary_index(p.name@),
            xp == group_xp(p.xp_value, dbi),
            undead == group_flag(p.undead, dbi, true),
            immune == group_flag(p.immune_to_normal_weapons, dbi, false),
            match db {
                Some(d) => dbi matches Some(i) && is_bestiary_entry(*d, i) && routine_names(d.attack_routines@)
                    == group_attacks(dbi) && routine_pairs(d.attack_routines@) == group_routines(dbi, p.damage@),
                None => dbi is None,
            },
            forall|j: int|
                0 <= j < k ==> monster_made(
                    #[trigger] monsters@[j],
                    spawn_name(p.name@, p.count as nat, j as nat),
                    *p.hit_dice,
                    p.hp,
                    p.ac,
                    p.damage@,
                    p.morale,
                    xp,
                    group_attacks(dbi),
                    group_routines(dbi, p.damage@),
                    undead,
                    immune,
                ),
        decreases p.count - k,
    {
        let mut m = Monster::new(spawn_name_exec(p.name, p.count, k).as_str(), *p.hit_dice);
        m.hp = p.hp;
        m.max_hp = p.hp;
        m.ac = p.ac;
        m.damage = String::from_str(p.damage);
        m.morale = p.morale;
        m.xp_value = xp;
        m.attacks = attack_names_for(db);
        m.attack_routines = routines_for(db, p.damage);
        m.undead = undead;
        m.immune_to_normal_weapons = immune;
        monsters.push(m);
        k = k + 1;
    }
    monsters
}

/// Message of an encounter started.
pub open spec fn combat_started_text(count: nat, name: Seq<char>, distance: nat) -> Seq<char> {
    "combat started: "@ + nat_text(count) + " "@ + name + "(s) at "@ + nat_text(distance)
        + "' distance."@
}

/// Starts a combat with a group of monsters of the given statistics; the
/// bestiary supplies what is not given (experience, undead, immunity,
/// attack routines).
pub fn action_spawn_encounter(state: &mut GameState, params: &SpawnEncounterParams) -> (r: Result<
    SpawnEncounterResult,
    EngineError,
>)
    ensures
        if old(state).combat is Some {
            r matches Err(e) && wrong_state(e, "combat already active. Use 'end_combat' first."@)
                && *final(state) == *old(state)
        } else {
            match params_refusal(*params) {
                Some(t) => r matches Err(e) && invalid(e, t) && *final(state) == *old(state),
                None => {
                    let db = bestiary_index(params.name@);
                    match r {
                        Ok(res) => match final(state).combat {
                            Some(c) => {
                                &&& group_made(c.monsters@, *params, db)
                                &&& c.distance == params.distance
                                &&& c.round == 0
                                &&& c.log@.len() == 0
                                &&& c.characters_acted@.len() == 0
                                &&& final(state).mode == GameMode::Combat
                                &&& final(state).pre_combat_mode == Some(old(state).mode)
                                &&& final(state).party == old(state).party
                                &&& final(state).notes == old(state).notes
                                &&& final(state).retainers == old(state).retainers
                                &&& final(state).dungeon == old(state).dungeon
                                &&& final(state).dungeon_level == old(state).dungeon_level
                                &&& final(state).module_monsters == old(state).module_monsters
                                &&& final(state).time == old(state).time
                                &&& res.message@ == combat_started_text(params.count as nat, params.name@, params.distance as nat)
                                &&& res.encounter_name@ == params.name@
                                &&& res.count == params.count
                                &&& res.hit_dice == *params.hit_dice
                                &&& res.ac == params.ac
                                &&& res.hp == params.hp
                                &&& res.damage@ == params.damage@
                                &&& res.morale == params.morale
                                &&& res.distance == params.distance
                                &&& res.xp_per_monster == group_xp(params.xp_value, db)
                                &&& res.status@ == combat_status_text(c, old(state).party.members@)
                            },
                            None => false,
                        },
                        Err(_) => false,
                    }
                },
            }
        },
{
    if state.combat.is_some() {
        return Err(EngineError::WrongState(String::from_str("combat already active. Use 'end_combat' first.")));
    }
    match check_params(params) {
        Err(e) => {
            return Err(e);
        },
        Ok(()) => {},
    }
    let db = find_monster(params.name);
    let monsters = make_group(params, &db);
    let xp = match params.xp_value {
        Some(x) => x,
        None => match &db {
            Some(d) => d.xp,
            None => 0,
        },
    };
    let combat = CombatState::new(monsters, params.distance);
    let status = combat_status(&combat, state.party.members.as_slice());
    state.enter_combat(combat);
    let mut message = String::from_str("combat started: ");
    append_nat(&mut message, params.count as u64);
    message.append(" ");
    message.append(params.name);
    message.append("(s) at ");
    append_nat(&mut message, params.distance as u64);
    message.append("' distance.");
    Ok(
        SpawnEncounterResult {
            message,
            encounter_name: String::from_str(params.name),
            count: params.count,
            hit_dice: *params.hit_dice,
            ac: params.ac,
            hp: params.hp,
            damage: String::from_str(params.damage),
            morale: params.morale,
            distance: params.distance,
            xp_per_monster: xp,
            status,
        },
    )
}

/// Message of monsters added to a combat.
pub open spec fn monsters_added_text(count: nat, name: Seq<char>, total: nat) -> Seq<char> {
    count_text(count) + " "@ + name + "(s) added to combat. Total monsters: "@ + nat_text(total) + "."@
}

/// A count rendered in decimal.
pub open spec fn count_text(count: nat) -> Seq<char> {
    nat_text(count)
}

/// Log entry of monsters added to a combat.
pub open spec fn monsters_added_log(count: nat, name: Seq<char>, first: nat, last: nat) -> Seq<char> {
    nat_text(count) + " "@ + name + "(s) added to combat (indices "@ + nat_text(first) + "-"@
        + nat_text(last) + ")."@
}

/// Adds a group of monsters of the given statistics to the running combat.
pub fn action_add_monster(state: &mut GameState, params: &SpawnEncounterParams) -> (r: Result<
    AddMonsterResult,
    EngineError,
>)
    ensures
        final(state).party == old(state).party,
        final(state).mode == old(state).mode,
        final(state).notes == old(state).notes,
        final(state).retainers == old(state).retainers,
        final(state).dungeon == old(state).dungeon,
        final(state).dungeon_level == old(state).dungeon_level,
        final(state).module_monsters == old(state).module_monsters,
        final(state).time == old(state).time,
        match old(state).combat {
            None => r matches Err(e) && no_combat(e) && *final(state) == *old(state),
            Some(c) => match params_refusal(*params) {
                Some(t) => r matches Err(e) && invalid(e, t) && *final(state) == *old(state),
                None => {
                    let db = bestiary_index(params.name@);
                    let n = c.monsters@.len();
                    match r {
                        Ok(res) => match final(state).combat {
                            Some(c2) => {
                                &&& c2.monsters@.len() == n + params.count
                                &&& c2.monsters@.subrange(0, n as int) == c.monsters@
                                &&& group_made(c2.monsters@.subrange(n as int, c2.monsters@.len() as int), *params, db)
                                &&& c2.distance == c.distance
                                &&& c2.round == c.round
                                &&& c2.phase == c.phase
                                &&& c2.characters_acted@ == c.characters_acted@
                                &&& c2.log@ == c.log@.push(c2.log@.last())
                                &&& c2.log@.last()@ == monsters_added_log(params.count as nat, params.name@, n, (c2.monsters@.len() - 1) as nat)
                                &&& res.total_monsters == c2.monsters@.len()
                                &&& res.message@ == monsters_added_text(params.count as nat, params.name@, c2.monsters@.len())
                                &&& res.monster_name@ == params.name@
                                &&& res.count == params.count
                                &&& res.hit_dice == *params.hit_dice
                                &&& res.hp == params.hp
                                &&& res.ac == params.ac
                                &&& res.morale == params.morale
                                &&& res.damage@ == params.damage@
                                &&& res.xp_per_monster == group_xp(params.xp_value, db)
                                &&& res.status@ == combat_status_text(c2, old(state).party.members@)
                            },
                            None => false,
                        },
                        Err(_) => false,
                    }
                },
            },
        },
{
    if state.combat.is_none() {
        return Err(EngineError::WrongState(String::from_str("no active combat.")));
    }
    match check_params(params) {
        Err(e) => {
            return Err(e);
        },
        Ok(()) => {},
    }
    let db = find_monster(params.name);
    let mut added = make_group(params, &db);
    let xp = match params.xp_value {
        Some(x) => x,
        None => match &db {
            Some(d) => d.xp,
            None => 0,
        },
    };
    match &mut state.combat {
        None => Err(EngineError::WrongState(String::from_str("no active combat."))),
        Some(combat) => {
            let existing = combat.monsters.len();
            let ghost before = combat.monsters@;
            let ghost group = added@;
            combat.monsters.append(&mut added);
            proof {
                assert(combat.monsters@.subrange(0, existing as int) =~= before);
                assert(combat.monsters@.subrange(existing as int, combat.monsters@.len() as int) =~= group);
            }
            let total = combat.monsters.len();
            let status = combat_status(combat, state.party.members.as_slice());
            let mut log = String::new();
            append_nat(&mut log, params.count as u64);
            log.append(" ");
            log.append(params.name);
            log.append("(s) added to combat (indices ");
            append_nat(&mut log, existing as u64);
            log.append("-");
            append_nat(&mut log, (total - 1) as u64);
            log.append(").");
            let ghost c_before_log = *combat;
            combat.log_event(log);
            let mut message = String::new();
            append_nat(&mut message, params.count as u64);
            message.append(" ");
            message.append(params.name);
            message.append("(s) added to combat. Total monsters: ");
            append_nat(&mut message, total as u64);
            message.append(".");
            proof {
                assert(combat_status_text(*combat, state.party.members@) == combat_status_text(
                    c_before_log,
                    state.party.members@,
                ));
            }
            Ok(
                AddMonsterResult {
                    message,
                    monster_name: String::from_str(params.name),
                    count: params.count,
                    hit_dice: *params.hit_dice,
                    ac: params.ac,
                    hp: params.hp,
                    damage: String::from_str(params.damage),
                    morale: params.morale,
                    xp_per_monster: xp,
                    total_monsters: total,
                    status,
                },
            )
        },
    }
}

/// Lowest and highest total of a hit-point roll for hit dice `hd`: 1d4 below
/// one hit die, one d8 per hit die up to the most dice a roll takes, 4 per
/// hit die past that; the modifier added in each case.
pub open spec fn hp_roll_bounds(hd: HitDice) -> (int, int) {
    if hd.dice == 0 {
        (1 + hd.modifier, 4 + hd.modifier)
    } else if hd.dice <= MAX_DICE {
        (hd.dice + hd.modifier, 8 * hd.dice + hd.modifier)
    } else {
        (4 * hd.dice + hd.modifier, 4 * hd.dice + hd.modifier)
    }
}

/// Hit dice whose hit-point roll cannot leave the range of an `i32`.
pub open spec fn hp_roll_fits(hd: HitDice) -> bool {
    &&& i32::MIN <= hp_roll_bounds(hd).0
    &&& hp_roll_bounds(hd).1 <= i32::MAX
    &&& 4 * hd.dice <= i32::MAX
}

/// `t`, raised to 1 when below.
pub open spec fn at_least_one(t: int) -> int {
    if t < 1 {
        1
    } else {
        t
    }
}

/// `hp` is what a hit-point roll for `hd` can give: a total within the
/// roll's bounds, raised to 1 when below.
pub open spec fn rolled_hp(hd: HitDice, hp: i32) -> bool {
    at_least_one(hp_roll_bounds(hd).0) <= hp <= at_least_one(hp_roll_bounds(hd).1)
}

/// Rolls the hit points of a monster of hit dice `hd` (at least 1).
pub fn roll_monster_hp(hd: HitDice) -> (r: i32)
    requires
        hp_roll_fits(hd),
    ensures
        rolled_hp(hd, r),
{
    let total: i32 = if hd.dice == 0 {
        roll_die(4) as i32 + hd.modifier
    } else if hd.dice <= MAX_DICE {
        let rolled = roll(DiceExpr { count: hd.dice, sides: 8, modifier: 0 });
        rolled.total + hd.modifier
    } else {
        hd.dice as i32 * 4 + hd.modifier
    };
    if total < 1 {
        1
    } else {
        total
    }
}

/// The monsters `ms` are a group of `count` of kind `k` (undead as `undead`
/// says), each with its own rolled hit points.
pub open spec fn kind_group_made(ms: Seq<Monster>, k: MonsterKind, undead: bool, count: nat) -> bool {
    &&& ms.len() == count
    &&& forall|j: int|
        0 <= j < ms.len() ==> {
            &&& monster_made(
                #[trigger] ms[j],
                spawn_name(k.name, count, j as nat),
                k.hit_dice,
                ms[j].hp,
                k.ac,
                primary_damage(k.routines),
                k.morale,
                k.xp,
                k.routines.map_values(|p: (Seq<char>, Seq<char>)| p.0),
                k.routines,
                undead,
                k.immune,
            )
            &&& rolled_hp(k.hit_dice, ms[j].hp)
        }
}

/// The monsters `ms` are a group of `count` of the kind defined by `d`.
pub open spec fn def_group_made(ms: Seq<Monster>, d: MonsterDef, count: nat, undead: bool) -> bool {
    kind_group_made(ms, kind_of(d), undead, count)
}

/// The monsters `ms` are a group of `count` of kind `i` of the core bestiary.
pub open spec fn bestiary_group_made(ms: Seq<Monster>, i: int, count: nat) -> bool {
    kind_group_made(ms, bestiary_kind(i), bestiary_kind(i).undead, count)
}

proof fn lemma_names_of_routines(rs: Seq<MonsterAttackRoutine>)
    ensures
        routine_names(rs) == routine_pairs(rs).map_values(|p: (Seq<char>, Seq<char>)| p.0),
{
    assert(routine_names(rs) =~= routine_pairs(rs).map_values(|p: (Seq<char>, Seq<char>)| p.0));
}

/// Makes a group of `count` monsters of the kind defined by `d`, rolling
/// each one's hit points.
fn make_kind_group(d: &MonsterDef, count: u32, undead: bool) -> (r: Vec<Monster>)
    requires
        hp_roll_fits(d.hit_dice),
    ensures
        def_group_made(r@, *d, count as nat, undead),
{
    proof {
        lemma_names_of_routines(d.attack_routines@);
    }
    let mut monsters: Vec<Monster> = Vec::new();
    let mut k: u32 = 0;
    while k < count
        invariant
            k <= count,
            monsters@.len() == k,
            hp_roll_fits(d.hit_dice),
            routine_names(d.attack_routines@) == routine_pairs(d.attack_routines@).map_values(
                |p: (Seq<char>, Seq<char>)| p.0,
            ),
            forall|j: int|
                0 <= j < k ==> {
                    &&& monster_made(
                        #[trigger] monsters@[j],
                        spawn_name(d.name@, count as nat, j as nat),
                        d.hit_dice,
                        monsters@[j].hp,
                        d.ac,
                        primary_damage(routine_pairs(d.attack_routines@)),
                        d.morale,
                        d.xp,
                        routine_names(d.attack_routines@),
                        routine_pairs(d.attack_routines@),
                        undead,
                        d.immune_to_normal_weapons,
                    )
                    &&& rolled_hp(d.hit_dice, monsters@[j].hp)
                },
        decreases count - k,
    {
        let hp = roll_monster_hp(d.hit_dice);
        let mut m = Monster::new(spawn_name_exec(d.name.as_str(), count, k).as_str(), d.hit_dice);
        m.hp = hp;
        m.max_hp = hp;
        m.ac = d.ac;
        m.damage = d.damage();
        m.morale = d.morale;
        m.xp_value = d.xp;
        m.attacks = d.attack_names();
        m.attack_routines = d.routines();
        m.undead = undead;
        m.immune_to_normal_weapons = d.immune_to_normal_weapons;
        monsters.push(m);
        k = k + 1;
    }
    monsters
}

/// Kinds of the core bestiary have hit dice whose roll fits.
proof fn lemma_bestiary_hp_fits(i: int)
    ensures
        hp_roll_fits(HitDice { dice: bestiary_stats(i).0, modifier: bestiary_stats(i).1 }),
{
}

/// Message of a combat started with monsters of the bestiary.
pub open spec fn kind_started_text(count: nat, name: Seq<char>, distance: nat, special: Seq<char>) -> Seq<
    char,
> {
    combat_started_text(count, name, distance) + if special.len() == 0 {
        Seq::<char>::empty()
    } else {
        " Special: "@ + special
    }
}

/// Error text for a name that the bestiary lacks.
pub open spec fn unknown_monster_text(name: Seq<char>) -> Seq<char> {
    "unknown monster '"@ + name + "'. Use SpawnEncounter for custom monsters."@
}

/// Starts a combat with `count` monsters of the bestiary's kind `name`,
/// each with rolled hit points, at `distance` feet.
pub fn action_spawn_monster(state: &mut GameState, name: &str, count: u32, distance: u32) -> (r: Result<
    SpawnMonsterResult,
    EngineError,
>)
    ensures
        if old(state).combat is Some {
            r matches Err(e) && wrong_state(e, "combat already active. Use 'end_combat' first."@)
                && *final(state) == *old(state)
        } else {
            match bestiary_index(name@) {
                None => r matches Err(e) && invalid(e, unknown_monster_text(name@)) && *final(state)
                    == *old(state),
                Some(i) => {
                    let st = bestiary_stats(i);
                    match r {
                        Ok(res) => match final(state).combat {
                            Some(c) => {
                                &&& bestiary_group_made(c.monsters@, i, count as nat)
                                &&& c.distance == distance
                                &&& c.round == 0
                                &&& c.log@.len() == 0
                                &&& c.characters_acted@.len() == 0
                                &&& final(state).mode == GameMode::Combat
                                &&& final(state).pre_combat_mode == Some(old(state).mode)
                                &&& final(state).party == old(state).party
                                &&& final(state).notes == old(state).notes
                                &&& final(state).retainers == old(state).retainers
                                &&& final(state).dungeon == old(state).dungeon
                                &&& final(state).dungeon_level == old(state).dungeon_level
                                &&& final(state).module_monsters == old(state).module_monsters
                                &&& final(state).time == old(state).time
                                &&& res.message@ == kind_started_text(
                                    count as nat,
                                    bestiary_name(i),
                                    distance as nat,
                                    bestiary_special(i),
                                )
                                &&& res.monster_name@ == bestiary_name(i)
                                &&& res.count == count
                                &&& res.hit_dice == (HitDice { dice: st.0, modifier: st.1 })
                                &&& res.ac == st.2
                                &&& res.damage@ == primary_damage(bestiary_routines(i))
                                &&& res.morale == st.3
                                &&& res.distance == distance
                                &&& res.xp_per_monster == st.4
                                &&& res.special@ == bestiary_special(i)
                                &&& res.status@ == combat_status_text(c, old(state).party.members@)
                            },
                            None => false,
                        },
                        Err(_) => false,
                    }
                },
            }
        },
{
    if state.combat.is_some() {
        return Err(EngineError::WrongState(String::from_str("combat already active. Use 'end_combat' first.")));
    }
    let def = match find_monster(name) {
        Some(d) => d,
        None => {
            let mut t = String::from_str("unknown monster '");
            t.append(name);
            t.append("'. Use SpawnEncounter for custom monsters.");
            return Err(EngineError::InvalidInput(t));
        },
    };
    proof {
        lemma_bestiary_hp_fits(bestiary_index(name@)->0);
    }
    let monsters = make_kind_group(&def, count, def.undead);
    let combat = CombatState::new(monsters, distance);
    let status = combat_status(&combat, state.party.members.as_slice());
    state.enter_combat(combat);
    let mut message = String::from_str("combat started: ");
    append_nat(&mut message, count as u64);
    message.append(" ");
    message.append(def.name.as_str());
    message.append("(s) at ");
    append_nat(&mut message, distance as u64);
    message.append("' distance.");
    if def.special.unicode_len() > 0 {
        message.append(" Special: ");
        message.append(def.special.as_str());
    }
    Ok(
        SpawnMonsterResult {
            message,
            monster_name: def.name.clone(),
            count,
            hit_dice: def.hit_dice,
            ac: def.ac,
            damage: def.damage(),
            morale: def.morale,
            distance,
            xp_per_monster: def.xp,
            special: def.special.clone(),
            status,
        },
    )
}

/// Placed monsters are picked when not yet met and, when a name is given,
/// of that name (ASCII case ignored).
pub open spec fn placed_selected(p: PlacedMonsterInstance, filter: Option<Seq<char>>) -> bool {
    &&& !p.spawned
    &&& match filter {
        Some(f) => eq_ignore_case(p.name@, f),
        None => true,
    }
}

/// The name filter as text.
pub open spec fn filter_view(filter: Option<&str>) -> Option<Seq<char>> {
    match filter {
        Some(f) => Some(f@),
        None => None,
    }
}

/// Positions, among the first `n` placed monsters, of those picked.
pub open spec fn target_positions(pms: Seq<PlacedMonsterInstance>, filter: Option<Seq<char>>, n: int) -> Seq<
    usize,
>
    decreases n,
{
    if n <= 0 {
        Seq::empty()
    } else {
        let rest = target_positions(pms, filter, n - 1);
        if placed_selected(pms[n - 1], filter) {
            rest.push((n - 1) as usize)
        } else {
            rest
        }
    }
}

/// A kind of placed monster resolved for a combat.
pub struct PlacedSpawn {
    pub kind: MonsterKind,
    pub count: u32,
    pub undead: bool,
    /// Whether the definition came from the adventure module.
    pub from_module: bool,
}

/// The spawn of placed monsters `p` with definition `d`.
pub open spec fn spawn_of(k: MonsterKind, p: PlacedMonsterInstance, from_module: bool) -> PlacedSpawn {
    PlacedSpawn {
        kind: k,
        count: p.count,
        undead: match p.undead {
            Some(b) => b,
            None => k.undead,
        },
        from_module,
    }
}

/// How placed monsters `p` resolve: the module's definition filed under the
/// lower-cased name, else the bestiary's kind of that name, else nothing.
pub open spec fn placed_resolution(entries: Seq<(String, MonsterDef)>, p: PlacedMonsterInstance) -> Option<
    PlacedSpawn,
> {
    match module_lookup(entries, lowercase_text(p.name@)) {
        Some(d) => Some(spawn_of(kind_of(d), p, true)),
        None => match bestiary_index(p.name@) {
            Some(i) => Some(spawn_of(bestiary_kind(i), p, false)),
            None => None,
        },
    }
}

/// The resolved spawns of the placed monsters at positions `ts`, in order.
pub open spec fn placed_plan(entries: Seq<(String, MonsterDef)>, pms: Seq<PlacedMonsterInstance>, ts: Seq<usize>) -> Seq<
    PlacedSpawn,
>
    decreases ts.len(),
{
    if ts.len() == 0 {
        Seq::empty()
    } else {
        let rest = placed_plan(entries, pms, ts.drop_last());
        match placed_resolution(entries, pms[ts.last() as int]) {
            Some(sp) => rest.push(sp),
            None => rest,
        }
    }
}

/// Names of the placed monsters at positions `ts` that do not resolve.
pub open spec fn placed_unresolved(entries: Seq<(String, MonsterDef)>, pms: Seq<PlacedMonsterInstance>, ts: Seq<usize>) -> Seq<
    Seq<char>,
>
    decreases ts.len(),
{
    if ts.len() == 0 {
        Seq::empty()
    } else {
        let rest = placed_unresolved(entries, pms, ts.drop_last());
        match placed_resolution(entries, pms[ts.last() as int]) {
            Some(_) => rest,
            None => rest.push(pms[ts.last() as int].name@),
        }
    }
}

/// Names of the placed monsters at positions `ts`.
pub open spec fn target_names(pms: Seq<PlacedMonsterInstance>, ts: Seq<usize>) -> Seq<Seq<char>> {
    ts.map_values(|q: usize| pms[q as int].name@)
}

/// Number of monsters the spawns bring.
pub open spec fn plan_total(plan: Seq<PlacedSpawn>) -> nat
    decreases plan.len(),
{
    if plan.len() == 0 {
        0
    } else {
        plan_total(plan.drop_last()) + plan.last().count as nat
    }
}

/// The monsters `ms` are the groups of the spawns, one after another.
pub open spec fn plan_monsters_made(ms: Seq<Monster>, plan: Seq<PlacedSpawn>) -> bool
    decreases plan.len(),
{
    if plan.len() == 0 {
        ms.len() == 0
    } else {
        let sp = plan.last();
        let n = ms.len() - sp.count;
        &&& n >= 0
        &&& kind_group_made(ms.subrange(n, ms.len() as int), sp.kind, sp.undead, sp.count as nat)
        &&& plan_monsters_made(ms.subrange(0, n), plan.drop_last())
    }
}

proof fn lemma_plan_push(ms: Seq<Monster>, plan: Seq<PlacedSpawn>, g: Seq<Monster>, sp: PlacedSpawn)
    requires
        plan_monsters_made(ms, plan),
        kind_group_made(g, sp.kind, sp.undead, sp.count as nat),
    ensures
        plan_monsters_made(ms + g, plan.push(sp)),
{
    let all = ms + g;
    assert(all.subrange(ms.len() as int, all.len() as int) =~= g);
    assert(all.subrange(0, ms.len() as int) =~= ms);
    assert(plan.push(sp).drop_last() =~= plan);
}

proof fn lemma_plan_len(ms: Seq<Monster>, plan: Seq<PlacedSpawn>)
    requires
        plan_monsters_made(ms, plan),
    ensures
        ms.len() == plan_total(plan),
    decreases plan.len(),
{
    if plan.len() > 0 {
        let n = ms.len() - plan.last().count;
        lemma_plan_len(ms.subrange(0, n), plan.drop_last());
    }
}

/// Source text of a spawn.
pub open spec fn source_text(from_module: bool) -> Seq<char> {
    if from_module {
        "module"@
    } else {
        "core"@
    }
}

/// Report line `d` tells of spawn `sp`.
pub open spec fn detail_matches(d: SpawnPlacedDetail, sp: PlacedSpawn) -> bool {
    &&& d.name@ == sp.kind.name
    &&& d.count == sp.count
    &&& d.hit_dice == sp.kind.hit_dice
    &&& d.ac == sp.kind.ac
    &&& d.morale == sp.kind.morale
    &&& d.xp_per_monster == sp.kind.xp
    &&& d.special@ == sp.kind.special
    &&& d.source@ == source_text(sp.from_module)
}

/// Report lines `ds` tell of the spawns `plan`, one each.
pub open spec fn details_match(ds: Seq<SpawnPlacedDetail>, plan: Seq<PlacedSpawn>) -> bool {
    &&& ds.len() == plan.len()
    &&& forall|j: int| 0 <= j < ds.len() ==> detail_matches(#[trigger] ds[j], plan[j])
}

/// Part of the message for one kind of monster spawned.
pub open spec fn detail_text(d: SpawnPlacedDetail) -> Seq<char> {
    " "@ + d.name@ + " x"@ + nat_text(d.count as nat) + " (HD "@ + hit_dice_text(d.hit_dice)
        + ", AC "@ + int_text(d.ac as int) + ", Morale "@ + nat_text(d.morale as nat) + ", "@
        + nat_text(d.xp_per_monster as nat) + " XP) ["@ + d.source@ + "]."@ + if d.special@.len()
        == 0 {
        Seq::<char>::empty()
    } else {
        " Special: "@ + d.special@
    }
}

/// The message parts of all kinds spawned.
pub open spec fn details_text(ds: Seq<SpawnPlacedDetail>) -> Seq<char>
    decreases ds.len(),
{
    if ds.len() == 0 {
        Seq::empty()
    } else {
        details_text(ds.drop_last()) + detail_text(ds.last())
    }
}

/// The warning on placed monsters without a definition, if any.
pub open spec fn unresolved_warning(names: Seq<Seq<char>>) -> Seq<char> {
    if names.len() == 0 {
        Seq::empty()
    } else {
        " WARNING: "@ + join_text(names, ", "@) + " not found in DB, skipped. Use AddMonster for them."@
    }
}

/// Message of a combat started with placed monsters.
pub open spec fn placed_started_text(distance: nat, ds: Seq<SpawnPlacedDetail>, unresolved: Seq<Seq<char>>) -> Seq<
    char,
> {
    "combat started: placed monsters at "@ + nat_text(distance) + "' distance."@ + details_text(ds)
        + unresolved_warning(unresolved)
}

/// Refusal when no placed monster is picked.
pub open spec fn no_targets_text(filter: Option<Seq<char>>) -> Seq<char> {
    match filter {
        Some(f) => "no unspawned placed monster named '"@ + f + "' in this room."@,
        None => "no unspawned placed monsters in this room."@,
    }
}

/// Refusal when the picked monsters bring no monster at all.
pub open spec fn no_definitions_text(unresolved: Seq<Seq<char>>) -> Seq<char> {
    "no monster definitions found for: "@ + join_text(unresolved, ", "@)
        + ". Use SpawnEncounter with manual stats."@
}

/// Refusal of a current room that the dungeon lacks.
pub open spec fn room_missing_text(id: nat) -> Seq<char> {
    "room "@ + nat_text(id) + " not found."@
}

/// Every definition of the module has hit dice whose roll fits.
pub open spec fn module_defs_fit(entries: Seq<(String, MonsterDef)>) -> bool {
    forall|j: int| 0 <= j < entries.len() ==> hp_roll_fits(#[trigger] entries[j].1.hit_dice)
}

/// Whether rolling hit points for these hit dice stays within an `i32`.
pub fn hit_dice_fit(hd: &HitDice) -> (r: bool)
    ensures
        r == hp_roll_fits(*hd),
{
    let dice = hd.dice as i64;
    let m = hd.modifier as i64;
    let (lo, hi): (i64, i64) = if hd.dice == 0 {
        (1 + m, 4 + m)
    } else if hd.dice <= MAX_DICE {
        (dice + m, 8 * dice + m)
    } else {
        (4 * dice + m, 4 * dice + m)
    };
    i32::MIN as i64 <= lo && hi <= i32::MAX as i64 && 4 * dice <= i32::MAX as i64
}

/// Whether every monster definition of a module has hit dice whose roll
/// fits: what spawning the module's placed monsters asks of them.
pub fn module_defs_fit_check(entries: &Vec<(String, MonsterDef)>) -> (r: bool)
    ensures
        r == module_defs_fit(entries@),
{
    let mut i: usize = 0;
    while i < entries.len()
        invariant
            i <= entries@.len(),
            forall|j: int| 0 <= j < i ==> hp_roll_fits(#[trigger] entries@[j].1.hit_dice),
        decreases entries@.len() - i,
    {
        if !hit_dice_fit(&entries[i].1.hit_dice) {
            return false;
        }
        i = i + 1;
    }
    true
}

/// The state after placed monsters were brought into a combat.
pub open spec fn placed_spawn_done(
    before: GameState,
    after: GameState,
    res: SpawnPlacedResult,
    distance: u32,
    k: int,
    plan: Seq<PlacedSpawn>,
    unresolved: Seq<Seq<char>>,
    names: Seq<Seq<char>>,
) -> bool {
    match (before.dungeon, after.dungeon, after.combat) {
        (Some(d), Some(d2), Some(c)) => {
            &&& plan_monsters_made(c.monsters@, plan)
            &&& c.distance == distance
            &&& c.round == 0
            &&& c.log@.len() == 0
            &&& c.characters_acted@.len() == 0
            &&& after.mode == GameMode::Combat
            &&& after.pre_combat_mode == Some(before.mode)
            &&& after.party == before.party
            &&& after.notes == before.notes
            &&& after.retainers == before.retainers
            &&& after.effects == before.effects
            &&& after.dungeon_level == before.dungeon_level
            &&& after.module_monsters == before.module_monsters
            &&& after.time == before.time
            &&& room_replaced(d, d2, k, Room { placed_monsters: d2.rooms@[k].placed_monsters, ..d.rooms@[k] })
            &&& placed_marked(d.rooms@[k].placed_monsters@, d2.rooms@[k].placed_monsters@, names)
            &&& res.distance == distance
            &&& details_match(res.spawned@, plan)
            &&& texts(res.unresolved@) == unresolved
            &&& res.message@ == placed_started_text(distance as nat, res.spawned@, unresolved)
            &&& res.status@ == combat_status_text(c, before.party.members@)
        },
        _ => false,
    }
}

fn select_targets(pms: &Vec<PlacedMonsterInstance>, filter: Option<&str>) -> (r: Vec<usize>)
    ensures
        r@ == target_positions(pms@, filter_view(filter), pms@.len() as int),
        forall|j: int| 0 <= j < r@.len() ==> #[trigger] r@[j] < pms@.len(),
{
    let mut out: Vec<usize> = Vec::new();
    let mut q: usize = 0;
    while q < pms.len()
        invariant
            q <= pms@.len(),
            out@ == target_positions(pms@, filter_view(filter), q as int),
            forall|j: int| 0 <= j < out@.len() ==> #[trigger] out@[j] < q,
        decreases pms@.len() - q,
    {
        let pm = &pms[q];
        let picked = !pm.spawned && match filter {
            Some(f) => eq_ignore_ascii_case(pm.name.as_str(), f),
            None => true,
        };
        if picked {
            out.push(q);
        }
        q = q + 1;
    }
    out
}

fn append_detail(message: &mut String, d: &SpawnPlacedDetail)
    ensures
        final(message)@ == old(message)@ + detail_text(*d),
{
    let ghost m0 = message@;
    message.append(" ");
    message.append(d.name.as_str());
    message.append(" x");
    append_nat(message, d.count as u64);
    message.append(" (HD ");
    d.hit_dice.append_to(message);
    message.append(", AC ");
    append_int(message, d.ac as i64);
    message.append(", Morale ");
    append_nat(message, d.morale as u64);
    message.append(", ");
    append_nat(message, d.xp_per_monster);
    message.append(" XP) [");
    message.append(d.source.as_str());
    message.append("].");
    if d.special.as_str().unicode_len() > 0 {
        message.append(" Special: ");
        message.append(d.special.as_str());
    }
    proof {
        assert(message@ =~= m0 + detail_text(*d));
    }
}

/// Brings one resolved kind of placed monster into the groups being made.
fn spawn_kind(
    def: &MonsterDef,
    t: &PlacedMonsterInstance,
    from_module: bool,
    monsters: &mut Vec<Monster>,
    details: &mut Vec<SpawnPlacedDetail>,
)
    requires
        hp_roll_fits(def.hit_dice),
    ensures
        final(monsters)@.len() >= old(monsters)@.len(),
        final(monsters)@ == old(monsters)@ + final(monsters)@.subrange(
            old(monsters)@.len() as int,
            final(monsters)@.len() as int,
        ),
        kind_group_made(
            final(monsters)@.subrange(old(monsters)@.len() as int, final(monsters)@.len() as int),
            spawn_of(kind_of(*def), *t, from_module).kind,
            spawn_of(kind_of(*def), *t, from_module).undead,
            t.count as nat,
        ),
        final(details)@ == old(details)@.push(final(details)@.last()),
        detail_matches(final(details)@.last(), spawn_of(kind_of(*def), *t, from_module)),
{
    let undead = match t.undead {
        Some(b) => b,
        None => def.undead,
    };
    let mut group = make_kind_group(def, t.count, undead);
    let ghost before = monsters@;
    let ghost g = group@;
    monsters.append(&mut group);
    proof {
        assert(monsters@.subrange(before.len() as int, monsters@.len() as int) =~= g);
    }
    let source = if from_module {
        String::from_str("module")
    } else {
        String::from_str("core")
    };
    details.push(
        SpawnPlacedDetail {
            name: def.name.clone(),
            count: t.count,
            hit_dice: def.hit_dice,
            ac: def.ac,
            morale: def.morale,
            xp_per_monster: def.xp,
            special: def.special.clone(),
            source,
        },
    );
}

proof fn lemma_module_fits(entries: Seq<(String, MonsterDef)>, key: Seq<char>)
    requires
        module_defs_fit(entries),
    ensures
        module_lookup(entries, key) matches Some(d) ==> hp_roll_fits(d.hit_dice),
{
    crate::bestiary::lemma_entry_index_from(entries, key, 0);
    if let Some(k) = crate::bestiary::entry_index_from(entries, key, 0) {
        assert(hp_roll_fits(entries[k].1.hit_dice));
    }
}

/// Brings the placed monsters of the current room that are not yet met
/// (those named `name_filter` only, when given) into a combat at
/// `distance` feet: the module's definitions first, then the bestiary's;
/// those with neither are reported and skipped.
pub fn action_spawn_placed(state: &mut GameState, distance: u32, name_filter: Option<&str>) -> (r: Result<
    SpawnPlacedResult,
    EngineError,
>)
    requires
        module_defs_fit(old(state).module_monsters.entries@),
    ensures
        if old(state).combat is Some {
            r matches Err(e) && wrong_state(e, "combat already active. Use 'end_combat' first."@)
                && *final(state) == *old(state)
        } else {
            match old(state).dungeon {
                None => r matches Err(e) && wrong_state(e, "not in exploration mode."@) && *final(state)
                    == *old(state),
                Some(d) => match d.current_room {
                    None => r matches Err(e) && wrong_state(e, "no current room."@) && *final(state)
                        == *old(state),
                    Some(id) => match room_index(d.rooms@, id) {
                        None => r matches Err(e) && invalid(e, room_missing_text(id as nat))
                            && *final(state) == *old(state),
                        Some(k) => {
                            let pms = d.rooms@[k].placed_monsters@;
                            let ts = target_positions(pms, filter_view(name_filter), pms.len() as int);
                            let entries = old(state).module_monsters.entries@;
                            let plan = placed_plan(entries, pms, ts);
                            let unresolved = placed_unresolved(entries, pms, ts);
                            if ts.len() == 0 {
                                r matches Err(e) && invalid(e, no_targets_text(filter_view(name_filter)))
                                    && *final(state) == *old(state)
                            } else if plan_total(plan) == 0 {
                                r matches Err(e) && invalid(e, no_definitions_text(unresolved))
                                    && *final(state) == *old(state)
                            } else {
                                r matches Ok(res) && placed_spawn_done(
                                    *old(state),
                                    *final(state),
                                    res,
                                    distance,
                                    k,
                                    plan,
                                    unresolved,
                                    target_names(pms, ts),
                                )
                            }
                        },
                    },
                },
            }
        },
{
    let ghost s0 = *state;
    if state.combat.is_some() {
        return Err(EngineError::WrongState(String::from_str("combat already active. Use 'end_combat' first.")));
    }
    let dungeon = match &state.dungeon {
        None => {
            return Err(EngineError::WrongState(String::from_str("not in exploration mode.")));
        },
        Some(d) => d,
    };
    let room_id = match dungeon.current_room {
        None => {
            return Err(EngineError::WrongState(String::from_str("no current room.")));
        },
        Some(id) => id,
    };
    let pos = match dungeon.room_position(room_id) {
        None => {
            let mut t = String::from_str("room ");
            append_nat(&mut t, room_id as u64);
            t.append(" not found.");
            return Err(EngineError::InvalidInput(t));
        },
        Some(p) => p,
    };
    proof {
        crate::state::dungeon::lemma_room_index(dungeon.rooms@, room_id);
    }
    let pms = &dungeon.rooms[pos].placed_monsters;
    let targets = select_targets(pms, name_filter);
    if targets.len() == 0 {
        let t = match name_filter {
            Some(f) => {
                let mut t = String::from_str("no unspawned placed monster named '");
                t.append(f);
                t.append("' in this room.");
                t
            },
            None => String::from_str("no unspawned placed monsters in this room."),
        };
        return Err(EngineError::InvalidInput(t));
    }
    let ghost entries = state.module_monsters.entries@;
    let ghost ts = targets@;
    let mut monsters: Vec<Monster> = Vec::new();
    let mut details: Vec<SpawnPlacedDetail> = Vec::new();
    let mut unresolved: Vec<String> = Vec::new();
    let mut names: Vec<String> = Vec::new();
    let mut j: usize = 0;
    while j < targets.len()
        invariant
            j <= ts.len(),
            ts == targets@,
            entries == state.module_monsters.entries@,
            module_defs_fit(entries),
            forall|i: int| 0 <= i < ts.len() ==> #[trigger] ts[i] < pms@.len(),
            plan_monsters_made(monsters@, placed_plan(entries, pms@, ts.take(j as int))),
            details_match(details@, placed_plan(entries, pms@, ts.take(j as int))),
            texts(unresolved@) == placed_unresolved(entries, pms@, ts.take(j as int)),
            texts(names@) == target_names(pms@, ts.take(j as int)),
        decreases ts.len() - j,
    {
        let t = &pms[targets[j]];
        let ghost prev = ts.take(j as int);
        let ghost next = ts.take(j as int + 1);
        proof {
            assert(next.drop_last() =~= prev);
            assert(next.last() == ts[j as int]);
            lemma_module_fits(entries, lowercase_text(t.name@));
        }
        let ghost plan0 = placed_plan(entries, pms@, prev);
        let ghost ms0 = monsters@;
        let ghost ds0 = details@;
        let ghost names0 = names@;
        names.push(t.name.clone());
        proof {
            assert(texts(names@) =~= texts(names0).push(t.name@));
            assert(target_names(pms@, next) =~= target_names(pms@, prev).push(pms@[ts[j as int] as int].name@));
        }
        let key = lowercase(t.name.as_str());
        match state.module_monsters.get(key.as_str()) {
            Some(def) => {
                spawn_kind(def, t, true, &mut monsters, &mut details);
                proof {
                    let sp = spawn_of(kind_of(*def), *t, true);
                    lemma_plan_push(ms0, plan0, monsters@.subrange(ms0.len() as int, monsters@.len() as int), sp);
                    assert(details@ =~= ds0.push(details@.last()));
                }
            },
            None => match find_monster(t.name.as_str()) {
                Some(def) => {
                    proof {
                        lemma_bestiary_hp_fits(bestiary_index(t.name@)->0);
                    }
                    spawn_kind(&def, t, false, &mut monsters, &mut details);
                    proof {
                        let sp = spawn_of(kind_of(def), *t, false);
                        lemma_plan_push(ms0, plan0, monsters@.subrange(ms0.len() as int, monsters@.len() as int), sp);
                    }
                },
                None => {
                    let ghost u0 = unresolved@;
                    unresolved.push(t.name.clone());
                    proof {
                        assert(texts(unresolved@) =~= texts(u0).push(t.name@));
                    }
                },
            },
        }
        j = j + 1;
    }
    proof {
        assert(ts.take(ts.len() as int) =~= ts);
        lemma_plan_len(monsters@, placed_plan(entries, pms@, ts));
    }
    if monsters.len() == 0 {
        let mut t = String::from_str("no monster definitions found for: ");
        append_joined(&mut t, &unresolved, ", ");
        t.append(". Use SpawnEncounter with manual stats.");
        return Err(EngineError::InvalidInput(t));
    }
    match &mut state.dungeon {
        Some(d) => {
            d.mark_spawned(pos, &names);
        },
        None => {},
    }
    let combat = CombatState::new(monsters, distance);
    let status = combat_status(&combat, state.party.members.as_slice());
    state.enter_combat(combat);
    let mut message = String::from_str("combat started: placed monsters at ");
    append_nat(&mut message, distance as u64);
    message.append("' distance.");
    let ghost head = message@;
    let mut i: usize = 0;
    while i < details.len()
        invariant
            i <= details@.len(),
            message@ == head + details_text(details@.take(i as int)),
        decreases details@.len() - i,
    {
        let ghost m0 = message@;
        append_detail(&mut message, &details[i]);
        proof {
            assert(details@.take(i as int + 1).drop_last() =~= details@.take(i as int));
        }
        i = i + 1;
    }
    proof {
        assert(details@.take(details@.len() as int) =~= details@);
    }
    if unresolved.len() > 0 {
        message.append(" WARNING: ");
        append_joined(&mut message, &unresolved, ", ");
        message.append(" not found in DB, skipped. Use AddMonster for them.");
    }
    let res = SpawnPlacedResult { message, distance, spawned: details, unresolved, status };
    proof {
        let pms0 = s0.dungeon->0.rooms@[pos as int].placed_monsters@;
        assert(pms0 == pms@);
        let plan = placed_plan(entries, pms0, ts);
        assert(state.dungeon is Some);
        assert(state.combat is Some);
        assert(plan_monsters_made(state.combat->0.monsters@, plan));
        assert(texts(res.unresolved@) == placed_unresolved(entries, pms0, ts));
        assert(details_match(res.spawned@, plan));
        assert(res.message@ == placed_started_text(distance as nat, res.spawned@, texts(res.unresolved@)));
        assert(texts(names@) == target_names(pms0, ts));
        assert(placed_spawn_done(s0, *state, res, distance, pos as int, plan, texts(res.unresolved@), texts(names@)));
    }
    Ok(res)
}

} // verus!
