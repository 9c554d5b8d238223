//! Rule tables of the basic game: ability modifiers, the attack matrix,
//! weapons, experience and spell progression.
use vstd::prelude::*;

use crate::model::Class;
use crate::text::eq_ignore_case;

pub mod module;
pub mod save;
pub mod thief;

verus! {

// ── Ability modifiers ──────────────────────────────────────────

/// The standard modifier band: 3 → -3, 4-5 → -2, 6-8 → -1, 9-12 → 0,
/// 13-15 → +1, 16-17 → +2, 18 → +3 (scores outside 3..18 take the end bands).
pub open spec fn standard_mod(score: int) -> int {
    if score <= 3 {
        -3
    } else if score <= 5 {
        -2
    } else if score <= 8 {
        -1
    } else if score <= 12 {
        0
    } else if score <= 15 {
        1
    } else if score <= 17 {
        2
    } else {
        3
    }
}

fn standard_mod_exec(score: i32) -> (r: i32)
    ensures
        r == standard_mod(score as int),
{
    if score <= 3 {
        -3
    } else if score <= 5 {
        -2
    } else if score <= 8 {
        -1
    } else if score <= 12 {
        0
    } else if score <= 15 {
        1
    } else if score <= 17 {
        2
    } else {
        3
    }
}

/// STR chance, in six, to force a door: 1 up to 8, 2 up to 12, 3 up to 15,
/// 4 up to 17, 5 at 18.
pub open spec fn open_doors_of(score: int) -> u32 {
    if score <= 8 {
        1
    } else if score <= 12 {
        2
    } else if score <= 15 {
        3
    } else if score <= 17 {
        4
    } else {
        5
    }
}

/// STR chance, in six, to force a door.
pub fn str_open_doors(score: i32) -> (r: u32)
    ensures
        r == open_doors_of(score as int),
{
    if score <= 8 {
        1
    } else if score <= 12 {
        2
    } else if score <= 15 {
        3
    } else if score <= 17 {
        4
    } else {
        5
    }
}

/// A thief's chance, in percent, to open locks at a level (levels past 14
/// keep the 14th level's chance; level 0 counts as level 1).
pub open spec fn open_locks_of(level: nat) -> u32 {
    if level <= 1 {
        15
    } else if level == 2 {
        20
    } else if level == 3 {
        25
    } else if level == 4 {
        30
    } else if level == 5 {
        35
    } else if level == 6 {
        45
    } else if level == 7 {
        55
    } else if level == 8 {
        65
    } else if level == 9 {
        75
    } else if level == 10 {
        85
    } else if level == 11 {
        95
    } else if level == 12 {
        96
    } else if level == 13 {
        97
    } else {
        99
    }
}

/// A thief's chance, in percent, to open locks.
pub fn open_locks_chance(level: u32) -> (r: u32)
    ensures
        r == open_locks_of(level as nat),
{
    if level <= 1 {
        15
    } else if level == 2 {
        20
    } else if level == 3 {
        25
    } else if level == 4 {
        30
    } else if level == 5 {
        35
    } else if level == 6 {
        45
    } else if level == 7 {
        55
    } else if level == 8 {
        65
    } else if level == 9 {
        75
    } else if level == 10 {
        85
    } else if level == 11 {
        95
    } else if level == 12 {
        96
    } else if level == 13 {
        97
    } else {
        99
    }
}

/// STR modifier to melee attack and damage rolls.
pub fn str_melee_mod(score: i32) -> (r: i32)
    ensures
        r == standard_mod(score as int),
{
    standard_mod_exec(score)
}

/// DEX modifier to missile attack rolls.
pub fn dex_missile_mod(score: i32) -> (r: i32)
    ensures
        r == standard_mod(score as int),
{
    standard_mod_exec(score)
}

/// DEX modifier to (descending) armour class: a high DEX lowers AC.
pub fn dex_ac_mod(score: i32) -> (r: i32)
    ensures
        r == -standard_mod(score as int),
{
    0 - standard_mod_exec(score)
}

/// CHA modifier to reaction rolls: 3 → -2, 4-8 → -1, 9-12 → 0, 13-17 → +1, 18 → +2.
pub open spec fn cha_reaction(score: int) -> int {
    if score <= 3 {
        -2
    } else if score <= 8 {
        -1
    } else if score <= 12 {
        0
    } else if score <= 17 {
        1
    } else {
        2
    }
}

pub fn cha_reaction_mod(score: i32) -> (r: i32)
    ensures
        r == cha_reaction(score as int),
{
    if score <= 3 {
        -2
    } else if score <= 8 {
        -1
    } else if score <= 12 {
        0
    } else if score <= 17 {
        1
    } else {
        2
    }
}

/// Percentage adjustment to earned experience for a prime requisite score:
/// 3-5 → -20, 6-8 → -10, 9-12 → 0, 13-15 → +5, 16-18 → +10.
pub open spec fn prime_req_pct(score: int) -> int {
    if score <= 5 {
        -20
    } else if score <= 8 {
        -10
    } else if score <= 12 {
        0
    } else if score <= 15 {
        5
    } else {
        10
    }
}

pub fn prime_req_modifier(score: i32) -> (r: i32)
    ensures
        r == prime_req_pct(score as int),
{
    if score <= 5 {
        -20
    } else if score <= 8 {
        -10
    } else if score <= 12 {
        0
    } else if score <= 15 {
        5
    } else {
        10
    }
}

/// Armour class from an armour's base AC, a shield and the DEX modifier.
pub open spec fn ac_of(armour_ac: int, has_shield: bool, dex_mod: int) -> int {
    armour_ac - (if has_shield {
        1int
    } else {
        0int
    }) + dex_mod
}

pub fn calculate_ac(armour_ac: i32, has_shield: bool, dex_mod: i32) -> (r: i32)
    requires
        i32::MIN <= ac_of(armour_ac as int, has_shield, dex_mod as int) <= i32::MAX,
    ensures
        r == ac_of(armour_ac as int, has_shield, dex_mod as int),
{
    let shield: i64 = if has_shield {
        1
    } else {
        0
    };
    (armour_ac as i64 - shield + dex_mod as i64) as i32
}

// ── Attack matrix ──────────────────────────────────────────────

/// The d20 roll needed to hit armour class `ac` with attack value `thac0`.
pub open spec fn target_number_of(thac0: int, ac: int) -> int {
    thac0 - ac
}

/// An attack hits on a natural 20, never on a natural 1, and otherwise when
/// the modified roll reaches the target number.
pub open spec fn attack_hits(thac0: int, ac: int, modifiers: int, roll: int) -> bool {
    roll == 20 || (roll != 1 && roll + modifiers >= target_number_of(thac0, ac))
}

/// The target number `thac0 - ac` fits the `i32` it is reported in.
pub open spec fn target_fits(thac0: int, ac: int) -> bool {
    &&& 0 <= thac0 <= i32::MAX
    &&& i32::MIN <= thac0 - ac <= i32::MAX
}

pub fn target_number(thac0: u32, ac: i32) -> (r: i32)
    requires
        target_fits(thac0 as int, ac as int),
    ensures
        r == target_number_of(thac0 as int, ac as int),
{
    (thac0 as i64 - ac as i64) as i32
}

pub fn hits(thac0: u32, ac: i32, modifiers: i32, roll: u32) -> (r: bool)
    ensures
        r == attack_hits(thac0 as int, ac as int, modifiers as int, roll as int),
{
    roll == 20 || (roll != 1 && roll as i64 + modifiers as i64 >= thac0 as i64 - ac as i64)
}

/// Attack value (THAC0) of a monster by its combat hit dice.
pub open spec fn monster_thac0_of(hd: nat) -> nat {
    if hd == 0 {
        20
    } else if hd <= 7 {
        (20 - hd) as nat
    } else if hd <= 9 {
        12
    } else if hd <= 11 {
        11
    } else if hd <= 13 {
        10
    } else if hd <= 15 {
        9
    } else if hd <= 17 {
        8
    } else if hd <= 19 {
        7
    } else if hd <= 21 {
        6
    } else {
        5
    }
}

pub fn monster_thac0(hd: u32) -> (r: u32)
    ensures
        r == monster_thac0_of(hd as nat),
{
    if hd == 0 {
        20
    } else if hd <= 7 {
        20 - hd
    } else if hd <= 9 {
        12
    } else if hd <= 11 {
        11
    } else if hd <= 13 {
        10
    } else if hd <= 15 {
        9
    } else if hd <= 17 {
        8
    } else if hd <= 19 {
        7
    } else if hd <= 21 {
        6
    } else {
        5
    }
}

/// Missile attack modifier for the distance: +1 at short range, 0 at medium,
/// -1 at long; none in melee (distance 0) or beyond long range.
pub open spec fn missile_range_mod(distance: int, short: int, medium: int, long: int) -> Option<
    int,
> {
    if distance == 0 || distance > long {
        None
    } else if distance <= short {
        Some(1)
    } else if distance <= medium {
        Some(0)
    } else {
        Some(-1)
    }
}

pub fn missile_range_modifier(distance: u32, short: u32, medium: u32, long: u32) -> (r: Option<
    i32,
>)
    ensures
        r == (match missile_range_mod(distance as int, short as int, medium as int, long as int) {
            Some(m) => Some(m as i32),
            None => None,
        }),
{
    if distance == 0 || distance > long {
        None
    } else if distance <= short {
        Some(1)
    } else if distance <= medium {
        Some(0)
    } else {
        Some(-1)
    }
}

// ── Character attack values ────────────────────────────────────

/// How well a class fights.
#[derive(Clone, Copy, Debug, PartialEq, Eq, Structural)]
pub enum CombatAptitude {
    Martial,
    SemiMartial,
    NonMartial,
}

/// THAC0 by combat aptitude and level, per the character attack matrix.
pub open spec fn thac0_of(aptitude: CombatAptitude, level: nat) -> nat {
    match aptitude {
        CombatAptitude::Martial => if 1 <= level <= 3 {
            19
        } else if 4 <= level <= 6 {
            17
        } else if 7 <= level <= 9 {
            14
        } else if 10 <= level <= 12 {
            12
        } else {
            10
        },
        CombatAptitude::SemiMartial => if 1 <= level <= 4 {
            19
        } else if 5 <= level <= 8 {
            17
        } else if 9 <= level <= 12 {
            14
        } else {
            12
        },
        CombatAptitude::NonMartial => if 1 <= level <= 5 {
            19
        } else if 6 <= level <= 10 {
            17
        } else {
            14
        },
    }
}

/// Combat aptitude of each class.
pub open spec fn aptitude_of(c: Class) -> CombatAptitude {
    match c {
        Class::Fighter | Class::Dwarf | Class::Elf | Class::Halfling => CombatAptitude::Martial,
        Class::Cleric | Class::Thief => CombatAptitude::SemiMartial,
        Class::MagicUser => CombatAptitude::NonMartial,
    }
}

pub fn class_aptitude(c: Class) -> (r: CombatAptitude)
    ensures
        r == aptitude_of(c),
{
    match c {
        Class::Fighter | Class::Dwarf | Class::Elf | Class::Halfling => CombatAptitude::Martial,
        Class::Cleric | Class::Thief => CombatAptitude::SemiMartial,
        Class::MagicUser => CombatAptitude::NonMartial,
    }
}

// ── Weapons ────────────────────────────────────────────────────

/// A weapon of the equipment list.
#[derive(Clone, Copy, Debug)]
pub struct WeaponDef {
    pub name: &'static str,
    pub damage: &'static str,
    pub melee: bool,
    pub missile: bool,
    pub range: (u32, u32, u32),
    pub cost_gp: u32,
    pub weight: u32,
}

/// Number of weapons in the equipment list.
pub const WEAPON_COUNT: usize = 19;

/// The equipment list's weapons, by position.
pub open spec fn weapon_spec(i: usize) -> WeaponDef {
    match i {
        0 => WeaponDef { name: "Battle axe", damage: "1d8", melee: true, missile: false, range: (0, 0, 0), cost_gp: 7, weight: 50 },
        1 => WeaponDef { name: "Club", damage: "1d4", melee: true, missile: false, range: (0, 0, 0), cost_gp: 3, weight: 50 },
        2 => WeaponDef { name: "Crossbow", damage: "1d6", melee: false, missile: true, range: (80, 160, 240), cost_gp: 30, weight: 50 },
        3 => WeaponDef { name: "Dagger", damage: "1d4", melee: true, missile: true, range: (10, 20, 30), cost_gp: 3, weight: 10 },
        4 => WeaponDef { name: "Hand axe", damage: "1d6", melee: true, missile: true, range: (10, 20, 30), cost_gp: 4, weight: 30 },
        5 => WeaponDef { name: "Javelin", damage: "1d4", melee: false, missile: true, range: (30, 60, 90), cost_gp: 1, weight: 20 },
        6 => WeaponDef { name: "Lance", damage: "1d6", melee: true, missile: false, range: (0, 0, 0), cost_gp: 5, weight: 120 },
        7 => WeaponDef { name: "Long bow", damage: "1d6", melee: false, missile: true, range: (70, 140, 210), cost_gp: 40, weight: 30 },
        8 => WeaponDef { name: "Mace", damage: "1d6", melee: true, missile: false, range: (0, 0, 0), cost_gp: 5, weight: 30 },
        9 => WeaponDef { name: "Polearm", damage: "1d10", melee: true, missile: false, range: (0, 0, 0), cost_gp: 7, weight: 150 },
        10 => WeaponDef { name: "Short bow", damage: "1d6", melee: false, missile: true, range: (50, 100, 150), cost_gp: 25, weight: 30 },
        11 => WeaponDef { name: "Short sword", damage: "1d6", melee: true, missile: false, range: (0, 0, 0), cost_gp: 7, weight: 30 },
        12 => WeaponDef { name: "Silver dagger", damage: "1d4", melee: true, missile: true, range: (10, 20, 30), cost_gp: 30, weight: 10 },
        13 => WeaponDef { name: "Sling", damage: "1d4", melee: false, missile: true, range: (40, 80, 160), cost_gp: 2, weight: 20 },
        14 => WeaponDef { name: "Spear", damage: "1d6", melee: true, missile: true, range: (20, 40, 60), cost_gp: 4, weight: 30 },
        15 => WeaponDef { name: "Staff", damage: "1d4", melee: true, missile: false, range: (0, 0, 0), cost_gp: 2, weight: 40 },
        16 => WeaponDef { name: "Sword", damage: "1d8", melee: true, missile: false, range: (0, 0, 0), cost_gp: 10, weight: 60 },
        17 => WeaponDef { name: "Two-handed sword", damage: "1d10", melee: true, missile: false, range: (0, 0, 0), cost_gp: 15, weight: 150 },
        _ => WeaponDef { name: "War hammer", damage: "1d6", melee: true, missile: false, range: (0, 0, 0), cost_gp: 5, weight: 30 },
    }
}

/// The equipment list's weapons, by position.
pub fn weapon_at(i: usize) -> (w: WeaponDef)
    requires
        i < WEAPON_COUNT,
    ensures
        w == weapon_spec(i),
{
    match i {
        0 => WeaponDef { name: "Battle axe", damage: "1d8", melee: true, missile: false, range: (0, 0, 0), cost_gp: 7, weight: 50 },
        1 => WeaponDef { name: "Club", damage: "1d4", melee: true, missile: false, range: (0, 0, 0), cost_gp: 3, weight: 50 },
        2 => WeaponDef { name: "Crossbow", damage: "1d6", melee: false, missile: true, range: (80, 160, 240), cost_gp: 30, weight: 50 },
        3 => WeaponDef { name: "Dagger", damage: "1d4", melee: true, missile: true, range: (10, 20, 30), cost_gp: 3, weight: 10 },
        4 => WeaponDef { name: "Hand axe", damage: "1d6", melee: true, missile: true, range: (10, 20, 30), cost_gp: 4, weight: 30 },
        5 => WeaponDef { name: "Javelin", damage: "1d4", melee: false, missile: true, range: (30, 60, 90), cost_gp: 1, weight: 20 },
        6 => WeaponDef { name: "Lance", damage: "1d6", melee: true, missile: false, range: (0, 0, 0), cost_gp: 5, weight: 120 },
        7 => WeaponDef { name: "Long bow", damage: "1d6", melee: false, missile: true, range: (70, 140, 210), cost_gp: 40, weight: 30 },
        8 => WeaponDef { name: "Mace", damage: "1d6", melee: true, missile: false, range: (0, 0, 0), cost_gp: 5, weight: 30 },
        9 => WeaponDef { name: "Polearm", damage: "1d10", melee: true, missile: false, range: (0, 0, 0), cost_gp: 7, weight: 150 },
        10 => WeaponDef { name: "Short bow", damage: "1d6", melee: false, missile: true, range: (50, 100, 150), cost_gp: 25, weight: 30 },
        11 => WeaponDef { name: "Short sword", damage: "1d6", melee: true, missile: false, range: (0, 0, 0), cost_gp: 7, weight: 30 },
        12 => WeaponDef { name: "Silver dagger", damage: "1d4", melee: true, missile: true, range: (10, 20, 30), cost_gp: 30, weight: 10 },
        13 => WeaponDef { name: "Sling", damage: "1d4", melee: false, missile: true, range: (40, 80, 160), cost_gp: 2, weight: 20 },
        14 => WeaponDef { name: "Spear", damage: "1d6", melee: true, missile: true, range: (20, 40, 60), cost_gp: 4, weight: 30 },
        15 => WeaponDef { name: "Staff", damage: "1d4", melee: true, missile: false, range: (0, 0, 0), cost_gp: 2, weight: 40 },
        16 => WeaponDef { name: "Sword", damage: "1d8", melee: true, missile: false, range: (0, 0, 0), cost_gp: 10, weight: 60 },
        17 => WeaponDef { name: "Two-handed sword", damage: "1d10", melee: true, missile: false, range: (0, 0, 0), cost_gp: 15, weight: 150 },
        _ => WeaponDef { name: "War hammer", damage: "1d6", melee: true, missile: false, range: (0, 0, 0), cost_gp: 5, weight: 30 },
    }
}

/// Whether weapon `i` of the list is named `name` (ASCII case ignored).
pub open spec fn weapon_named(i: usize, name: Seq<char>) -> bool {
    eq_ignore_case(weapon_spec(i).name@, name)
}

/// The first weapon of the list, from position `i` on, named `name`.
pub open spec fn weapon_lookup_from(name: Seq<char>, i: nat) -> Option<WeaponDef>
    decreases WEAPON_COUNT - i,
{
    if i >= WEAPON_COUNT {
        None
    } else if weapon_named(i as usize, name) {
        Some(weapon_spec(i as usize))
    } else {
        weapon_lookup_from(name, i + 1)
    }
}

/// The weapon of the list named `name` (the first, ASCII case ignored).
pub open spec fn weapon_lookup(name: Seq<char>) -> Option<WeaponDef> {
    weapon_lookup_from(name, 0)
}

/// Looks a weapon up by name, ASCII letters without regard to case.
pub fn find_weapon(name: &str) -> (r: Option<WeaponDef>)
    ensures
        r == weapon_lookup(name@),
{
    let mut i: usize = 0;
    while i < WEAPON_COUNT
        invariant
            i <= WEAPON_COUNT,
            weapon_lookup(name@) == weapon_lookup_from(name@, i as nat),
        decreases WEAPON_COUNT - i,
    {
        let w = weapon_at(i);
        if crate::text::eq_ignore_ascii_case(w.name, name) {
            return Some(w);
        }
        i = i + 1;
    }
    None
}

// ── Experience ─────────────────────────────────────────────────

/// Maximum level of each class.
pub open spec fn max_level_of(c: Class) -> nat {
    match c {
        Class::Dwarf => 12,
        Class::Elf => 10,
        Class::Halfling => 8,
        _ => 14,
    }
}

/// Experience needed to reach `level` (2..max) for each class; level 1 and
/// below need none; levels past the class maximum are out of reach.
pub open spec fn xp_table(c: Class, level: nat) -> u64 {
    if level <= 1 {
        0
    } else if level > max_level_of(c) {
        u64::MAX
    } else {
        let i = level - 2;
        match c {
            Class::Fighter => seq![2000u64, 4000, 8000, 16000, 32000, 64000, 120000, 240000, 360000, 480000, 600000, 720000, 840000][i],
            Class::Cleric => seq![1500u64, 3000, 6000, 12000, 25000, 50000, 100000, 200000, 300000, 400000, 500000, 600000, 700000][i],
            Class::MagicUser => seq![2500u64, 5000, 10000, 20000, 40000, 80000, 150000, 300000, 450000, 600000, 750000, 900000, 1050000][i],
            Class::Thief => seq![1200u64, 2400, 4800, 9600, 20000, 40000, 80000, 160000, 280000, 400000, 520000, 640000, 760000][i],
            Class::Dwarf => seq![2200u64, 4400, 8800, 17000, 35000, 70000, 140000, 270000, 400000, 530000, 660000][i],
            Class::Elf => seq![4000u64, 8000, 16000, 32000, 64000, 120000, 250000, 400000, 600000][i],
            Class::Halfling => seq![2000u64, 4000, 8000, 16000, 32000, 64000, 120000][i],
        }
    }
}

pub fn xp_for_level(c: Class, level: u32) -> (r: u64)
    ensures
        r == xp_table(c, level as nat),
{
    let max: u32 = match c {
        Class::Dwarf => 12,
        Class::Elf => 10,
        Class::Halfling => 8,
        _ => 14,
    };
    if level <= 1 {
        return 0;
    }
    if level > max {
        return u64::MAX;
    }
    let i = (level - 2) as usize;
    let table: Vec<u64> = match c {
        Class::Fighter => vec![2000u64, 4000, 8000, 16000, 32000, 64000, 120000, 240000, 360000, 480000, 600000, 720000, 840000],
        Class::Cleric => vec![1500u64, 3000, 6000, 12000, 25000, 50000, 100000, 200000, 300000, 400000, 500000, 600000, 700000],
        Class::MagicUser => vec![2500u64, 5000, 10000, 20000, 40000, 80000, 150000, 300000, 450000, 600000, 750000, 900000, 1050000],
        Class::Thief => vec![1200u64, 2400, 4800, 9600, 20000, 40000, 80000, 160000, 280000, 400000, 520000, 640000, 760000],
        Class::Dwarf => vec![2200u64, 4400, 8800, 17000, 35000, 70000, 140000, 270000, 400000, 530000, 660000],
        Class::Elf => vec![4000u64, 8000, 16000, 32000, 64000, 120000, 250000, 400000, 600000],
        Class::Halfling => vec![2000u64, 4000, 8000, 16000, 32000, 64000, 120000],
    };
    proof {
        assert(table@ =~= match c {
            Class::Fighter => seq![2000u64, 4000, 8000, 16000, 32000, 64000, 120000, 240000, 360000, 480000, 600000, 720000, 840000],
            Class::Cleric => seq![1500u64, 3000, 6000, 12000, 25000, 50000, 100000, 200000, 300000, 400000, 500000, 600000, 700000],
            Class::MagicUser => seq![2500u64, 5000, 10000, 20000, 40000, 80000, 150000, 300000, 450000, 600000, 750000, 900000, 1050000],
            Class::Thief => seq![1200u64, 2400, 4800, 9600, 20000, 40000, 80000, 160000, 280000, 400000, 520000, 640000, 760000],
            Class::Dwarf => seq![2200u64, 4400, 8800, 17000, 35000, 70000, 140000, 270000, 400000, 530000, 660000],
            Class::Elf => seq![4000u64, 8000, 16000, 32000, 64000, 120000, 250000, 400000, 600000],
            Class::Halfling => seq![2000u64, 4000, 8000, 16000, 32000, 64000, 120000],
        });
    }
    table[i]
}

/// Whether a character of this class and level has the experience for the next level.
pub open spec fn ready_for_next_level(c: Class, level: nat, xp: u64) -> bool {
    level < max_level_of(c) && xp >= xp_table(c, level + 1)
}

pub fn check_level_up(c: Class, level: u32, xp: u64) -> (r: bool)
    ensures
        r == ready_for_next_level(c, level as nat, xp),
{
    let max: u32 = match c {
        Class::Dwarf => 12,
        Class::Elf => 10,
        Class::Halfling => 8,
        _ => 14,
    };
    if level >= max {
        return false;
    }
    xp >= xp_for_level(c, level + 1)
}

/// The prime requisite score that adjusts earned experience: the lower of
/// the two requisites for elves (STR, INT) and halflings (STR, DEX).
pub open spec fn prime_req_score(c: Class, str: int, int_: int, wis: int, dex: int) -> int {
    match c {
        Class::Fighter | Class::Dwarf => str,
        Class::Cleric => wis,
        Class::MagicUser => int_,
        Class::Thief => dex,
        Class::Elf => if str < int_ {
            str
        } else {
            int_
        },
        Class::Halfling => if str < dex {
            str
        } else {
            dex
        },
    }
}

pub fn class_prime_req_score(c: Class, str: i32, int_: i32, wis: i32, dex: i32) -> (r: i32)
    ensures
        r == prime_req_score(c, str as int, int_ as int, wis as int, dex as int),
{
    match c {
        Class::Fighter | Class::Dwarf => str,
        Class::Cleric => wis,
        Class::MagicUser => int_,
        Class::Thief => dex,
        Class::Elf => if str < int_ {
            str
        } else {
            int_
        },
        Class::Halfling => if str < dex {
            str
        } else {
            dex
        },
    }
}

// ── Spells ─────────────────────────────────────────────────────

/// Spell slots per spell level (1..6) for arcane casters by caster level.
pub open spec fn arcane_slots(level: nat) -> Seq<u32> {
    if level == 0 {
        seq![0u32, 0, 0, 0, 0, 0]
    } else if level == 1 {
        seq![1u32, 0, 0, 0, 0, 0]
    } else if level == 2 {
        seq![2u32, 0, 0, 0, 0, 0]
    } else if level == 3 {
        seq![2u32, 1, 0, 0, 0, 0]
    } else if level == 4 {
        seq![2u32, 2, 0, 0, 0, 0]
    } else if level == 5 {
        seq![2u32, 2, 1, 0, 0, 0]
    } else if level == 6 {
        seq![2u32, 2, 2, 0, 0, 0]
    } else if level == 7 {
        seq![3u32, 2, 2, 1, 0, 0]
    } else if level == 8 {
        seq![3u32, 3, 2, 2, 0, 0]
    } else if level == 9 {
        seq![3u32, 3, 3, 2, 1, 0]
    } else if level == 10 {
        seq![3u32, 3, 3, 3, 2, 0]
    } else if level == 11 {
        seq![4u32, 3, 3, 3, 2, 1]
    } else if level == 12 {
        seq![4u32, 4, 3, 3, 3, 2]
    } else if level == 13 {
        seq![4u32, 4, 4, 3, 3, 3]
    } else {
        seq![4u32, 4, 4, 4, 3, 3]
    }
}

/// Spell slots per spell level (1..5) for divine casters by caster level.
pub open spec fn divine_slots(level: nat) -> Seq<u32> {
    if level <= 1 {
        seq![0u32, 0, 0, 0, 0, 0]
    } else if level == 2 {
        seq![1u32, 0, 0, 0, 0, 0]
    } else if level == 3 {
        seq![2u32, 0, 0, 0, 0, 0]
    } else if level == 4 {
        seq![2u32, 1, 0, 0, 0, 0]
    } else if level == 5 {
        seq![2u32, 2, 0, 0, 0, 0]
    } else if level == 6 {
        seq![2u32, 2, 1, 1, 0, 0]
    } else if level == 7 {
        seq![2u32, 2, 2, 1, 1, 0]
    } else if level == 8 {
        seq![3u32, 3, 2, 2, 1, 0]
    } else if level == 9 {
        seq![3u32, 3, 3, 2, 2, 0]
    } else if level == 10 {
        seq![4u32, 4, 3, 3, 2, 0]
    } else if level == 11 {
        seq![4u32, 4, 4, 3, 3, 0]
    } else if level == 12 {
        seq![5u32, 5, 4, 4, 3, 0]
    } else if level == 13 {
        seq![5u32, 5, 5, 4, 4, 0]
    } else {
        seq![6u32, 5, 5, 5, 4, 0]
    }
}

/// Spell slots of a class at a level.
pub open spec fn slots_of(c: Class, level: nat) -> Seq<u32> {
    match c {
        Class::MagicUser => arcane_slots(level),
        Class::Elf => arcane_slots(if level > 10 {
            10
        } else {
            level
        }),
        Class::Cleric => divine_slots(level),
        _ => seq![0u32, 0, 0, 0, 0, 0],
    }
}

fn arcane_slot_array(level: u32) -> (r: [u32; 6])
    ensures
        r@ == arcane_slots(level as nat),
{
    let r = if level == 0 {
        [0u32, 0, 0, 0, 0, 0]
    } else if level == 1 {
        [1u32, 0, 0, 0, 0, 0]
    } else if level == 2 {
        [2u32, 0, 0, 0, 0, 0]
    } else if level == 3 {
        [2u32, 1, 0, 0, 0, 0]
    } else if level == 4 {
        [2u32, 2, 0, 0, 0, 0]
    } else if level == 5 {
        [2u32, 2, 1, 0, 0, 0]
    } else if level == 6 {
        [2u32, 2, 2, 0, 0, 0]
    } else if level == 7 {
        [3u32, 2, 2, 1, 0, 0]
    } else if level == 8 {
        [3u32, 3, 2, 2, 0, 0]
    } else if level == 9 {
        [3u32, 3, 3, 2, 1, 0]
    } else if level == 10 {
        [3u32, 3, 3, 3, 2, 0]
    } else if level == 11 {
        [4u32, 3, 3, 3, 2, 1]
    } else if level == 12 {
        [4u32, 4, 3, 3, 3, 2]
    } else if level == 13 {
        [4u32, 4, 4, 3, 3, 3]
    } else {
        [4u32, 4, 4, 4, 3, 3]
    };
    proof {
        assert(r@ =~= arcane_slots(level as nat));
    }
    r
}

fn divine_slot_array(level: u32) -> (r: [u32; 6])
    ensures
        r@ == divine_slots(level as nat),
{
    let r = if level <= 1 {
        [0u32, 0, 0, 0, 0, 0]
    } else if level == 2 {
        [1u32, 0, 0, 0, 0, 0]
    } else if level == 3 {
        [2u32, 0, 0, 0, 0, 0]
    } else if level == 4 {
        [2u32, 1, 0, 0, 0, 0]
    } else if level == 5 {
        [2u32, 2, 0, 0, 0, 0]
    } else if level == 6 {
        [2u32, 2, 1, 1, 0, 0]
    } else if level == 7 {
        [2u32, 2, 2, 1, 1, 0]
    } else if level == 8 {
        [3u32, 3, 2, 2, 1, 0]
    } else if level == 9 {
        [3u32, 3, 3, 2, 2, 0]
    } else if level == 10 {
        [4u32, 4, 3, 3, 2, 0]
    } else if level == 11 {
        [4u32, 4, 4, 3, 3, 0]
    } else if level == 12 {
        [5u32, 5, 4, 4, 3, 0]
    } else if level == 13 {
        [5u32, 5, 5, 4, 4, 0]
    } else {
        [6u32, 5, 5, 5, 4, 0]
    };
    proof {
        assert(r@ =~= divine_slots(level as nat));
    }
    r
}

/// Spell slots of a class at a level, per spell level 1..6.
pub fn spell_slots(c: Class, level: u32) -> (r: [u32; 6])
    ensures
        r@ == slots_of(c, level as nat),
{
    match c {
        Class::MagicUser => arcane_slot_array(level),
        Class::Elf => arcane_slot_array(if level > 10 {
            10
        } else {
            level
        }),
        Class::Cleric => divine_slot_array(level),
        _ => {
            let r = [0u32, 0, 0, 0, 0, 0];
            proof {
                assert(r@ =~= seq![0u32, 0, 0, 0, 0, 0]);
            }
            r
        },
    }
}

/// A class casts spells at a level when it has at least one slot.
pub open spec fn casts_spells(c: Class, level: nat) -> bool {
    exists|i: int| 0 <= i < 6 && #[trigger] slots_of(c, level)[i] > 0
}

pub fn can_cast(c: Class, level: u32) -> (r: bool)
    ensures
        r == casts_spells(c, level as nat),
{
    let slots = spell_slots(c, level);
    let mut i: usize = 0;
    while i < 6
        invariant
            i <= 6,
            slots@ == slots_of(c, level as nat),
            forall|j: int| 0 <= j < i ==> slots@[j] == 0,
        decreases 6 - i,
    {
        if slots[i] > 0 {
            return true;
        }
        i = i + 1;
    }
    false
}

/// A slot of spell level `spell_level` is free when fewer have been used than the maximum.
pub open spec fn slot_free(used: Seq<u32>, max: Seq<u32>, spell_level: nat) -> bool {
    1 <= spell_level <= 6 && used[spell_level - 1] < max[spell_level - 1]
}

pub fn can_cast_spell(used: &[u32; 6], max: &[u32; 6], spell_level: u32) -> (r: bool)
    ensures
        r == slot_free(used@, max@, spell_level as nat),
{
    if spell_level < 1 || spell_level > 6 {
        return false;
    }
    let i = (spell_level - 1) as usize;
    used[i] < max[i]
}

/// Number of known spells.
pub const SPELL_COUNT: usize = 36;

/// The known spells and their levels, by position (arcane list first, then divine).
pub open spec fn spell_spec(i: usize) -> (&'static str, u32) {
    match i {
        0 => ("Charm Person", 1),
        1 => ("Detect Magic", 1),
        2 => ("Floating Disc", 1),
        3 => ("Hold Portal", 1),
        4 => ("Light", 1),
        5 => ("Magic Missile", 1),
        6 => ("Protection from Evil", 1),
        7 => ("Read Languages", 1),
        8 => ("Read Magic", 1),
        9 => ("Shield", 1),
        10 => ("Sleep", 1),
        11 => ("Ventriloquism", 1),
        12 => ("Continual Light", 2),
        13 => ("Detect Evil", 2),
        14 => ("Detect Invisible", 2),
        15 => ("ESP", 2),
        16 => ("Invisibility", 2),
        17 => ("Knock", 2),
        18 => ("Levitate", 2),
        19 => ("Locate Object", 2),
        20 => ("Mirror Image", 2),
        21 => ("Phantasmal Force", 2),
        22 => ("Web", 2),
        23 => ("Wizard Lock", 2),
        24 => ("Cure Light Wounds", 1),
        25 => ("Purify Food and Water", 1),
        26 => ("Remove Fear", 1),
        27 => ("Resist Cold", 1),
        28 => ("Bless", 2),
        29 => ("Find Traps", 2),
        30 => ("Hold Person", 2),
        31 => ("Know Alignment", 2),
        32 => ("Resist Fire", 2),
        33 => ("Silence 15' Radius", 2),
        34 => ("Snake Charm", 2),
        _ => ("Speak with Animals", 2),
    }
}

/// The known spells and their levels, by position (arcane list first, then divine).
pub fn spell_at(i: usize) -> (r: (&'static str, u32))
    requires
        i < SPELL_COUNT,
    ensures
        r == spell_spec(i),
        1 <= r.1 <= 2,
{
    match i {
        0 => ("Charm Person", 1),
        1 => ("Detect Magic", 1),
        2 => ("Floating Disc", 1),
        3 => ("Hold Portal", 1),
        4 => ("Light", 1),
        5 => ("Magic Missile", 1),
        6 => ("Protection from Evil", 1),
        7 => ("Read Languages", 1),
        8 => ("Read Magic", 1),
        9 => ("Shield", 1),
        10 => ("Sleep", 1),
        11 => ("Ventriloquism", 1),
        12 => ("Continual Light", 2),
        13 => ("Detect Evil", 2),
        14 => ("Detect Invisible", 2),
        15 => ("ESP", 2),
        16 => ("Invisibility", 2),
        17 => ("Knock", 2),
        18 => ("Levitate", 2),
        19 => ("Locate Object", 2),
        20 => ("Mirror Image", 2),
        21 => ("Phantasmal Force", 2),
        22 => ("Web", 2),
        23 => ("Wizard Lock", 2),
        24 => ("Cure Light Wounds", 1),
        25 => ("Purify Food and Water", 1),
        26 => ("Remove Fear", 1),
        27 => ("Resist Cold", 1),
        28 => ("Bless", 2),
        29 => ("Find Traps", 2),
        30 => ("Hold Person", 2),
        31 => ("Know Alignment", 2),
        32 => ("Resist Fire", 2),
        33 => ("Silence 15' Radius", 2),
        34 => ("Snake Charm", 2),
        _ => ("Speak with Animals", 2),
    }
}

/// Whether spell `i` of the list is named `name` (ASCII case ignored).
pub open spec fn spell_named(i: usize, name: Seq<char>) -> bool {
    eq_ignore_case(spell_spec(i).0@, name)
}

/// Level of the first spell of the list, from position `i` on, named `name`.
pub open spec fn spell_lookup_from(name: Seq<char>, i: nat) -> Option<u32>
    decreases SPELL_COUNT - i,
{
    if i >= SPELL_COUNT {
        None
    } else if spell_named(i as usize, name) {
        Some(spell_spec(i as usize).1)
    } else {
        spell_lookup_from(name, i + 1)
    }
}

/// Level of the spell named `name` (the first of the list, ASCII case ignored).
pub open spec fn spell_level_of(name: Seq<char>) -> Option<u32> {
    spell_lookup_from(name, 0)
}

/// Level of a known spell, looked up by name without regard to ASCII case.
pub fn find_spell_level(name: &str) -> (r: Option<u32>)
    ensures
        r == spell_level_of(name@),
        r matches Some(l) ==> 1 <= l <= 2,
{
    let mut i: usize = 0;
    while i < SPELL_COUNT
        invariant
            i <= SPELL_COUNT,
            spell_level_of(name@) == spell_lookup_from(name@, i as nat),
        decreases SPELL_COUNT - i,
    {
        let (n, l) = spell_at(i);
        if crate::text::eq_ignore_ascii_case(n, name) {
            return Some(l);
        }
        i = i + 1;
    }
    None
}

/// A weapon counts as magical when its name carries a bonus, as in `Sword +1`.
pub open spec fn magical_weapon_name(name: Seq<char>) -> bool {
    name.contains('+')
}

/// Whether the named weapon is magical (its name carries a `+` bonus).
pub fn is_magical_weapon(name: &str) -> (r: bool)
    ensures
        r == magical_weapon_name(name@),
{
    let n = name.unicode_len();
    let mut i: usize = 0;
    while i < n
        invariant
            n == name@.len(),
            i <= n,
            forall|j: int| 0 <= j < i ==> name@[j] != '+',
        decreases n - i,
    {
        if name.get_char(i) == '+' {
            return true;
        }
        i = i + 1;
    }
    false
}

// ── Turning undead ─────────────────────────────────────────────

/// An entry of the turning table.
#[derive(Clone, Copy, Debug, PartialEq, Eq, Structural)]
pub enum TurnResult {
    /// The cleric cannot turn this undead.
    Impossible,
    /// Turned on a 2d6 roll of at least this number.
    Roll(u32),
    /// Turned automatically.
    Turned,
    /// Destroyed automatically.
    Destroyed,
}

/// Column of the turning table for undead of `hd` hit dice: 1 and 2 HD
/// take the first two columns, 3 HD the fourth, and so on up to the eighth
/// (7 HD and more).
pub open spec fn undead_rank_of(hd: nat) -> nat {
    if hd <= 1 {
        1
    } else if hd == 2 {
        2
    } else if hd >= 7 {
        8
    } else {
        hd + 1
    }
}

pub fn undead_rank_from_hd(hd: u32) -> (r: u32)
    ensures
        r == undead_rank_of(hd as nat),
        1 <= r <= 8,
{
    if hd <= 1 {
        1
    } else if hd == 2 {
        2
    } else if hd >= 7 {
        8
    } else {
        hd + 1
    }
}

/// The turning table by the difference between the cleric's level and the
/// undead's rank: two or more below is impossible, then 11, 9 and 7 on 2d6,
/// one or two above turns, three or more above destroys.
pub open spec fn turn_result_of(level: int, rank: int) -> TurnResult {
    let diff = level - rank;
    if diff <= -3 {
        TurnResult::Impossible
    } else if diff == -2 {
        TurnResult::Roll(11)
    } else if diff == -1 {
        TurnResult::Roll(9)
    } else if diff == 0 {
        TurnResult::Roll(7)
    } else if diff <= 2 {
        TurnResult::Turned
    } else {
        TurnResult::Destroyed
    }
}

pub fn turn_undead_result(cleric_level: u32, rank: u32) -> (r: TurnResult)
    ensures
        r == turn_result_of(cleric_level as int, rank as int),
{
    let diff = cleric_level as i64 - rank as i64;
    if diff <= -3 {
        TurnResult::Impossible
    } else if diff == -2 {
        TurnResult::Roll(11)
    } else if diff == -1 {
        TurnResult::Roll(9)
    } else if diff == 0 {
        TurnResult::Roll(7)
    } else if diff <= 2 {
        TurnResult::Turned
    } else {
        TurnResult::Destroyed
    }
}

/// A higher-level cleric never does worse on the turning table.
pub open spec fn turn_strength(t: TurnResult) -> int {
    match t {
        TurnResult::Impossible => 0,
        TurnResult::Roll(n) => 13 - n,
        TurnResult::Turned => 20,
        TurnResult::Destroyed => 21,
    }
}

pub proof fn lemma_turning_improves_with_level(l1: int, l2: int, rank: int)
    requires
        l1 <= l2,
    ensures
        turn_strength(turn_result_of(l1, rank)) <= turn_strength(turn_result_of(l2, rank)),
{
}

/// The turning table by how far the cleric's level stands from the undead's
/// rank: at the rank a 2d6 roll of 7 is needed (and only there); one or two
/// levels above, the undead are turned with no roll; three or more above,
/// destroyed; one below needs 9, two below 11, three or more below cannot
/// turn at all.
pub proof fn lemma_turning_by_level_and_rank(level: int, rank: int)
    ensures
        level == rank + 1 ==> turn_result_of(level, rank) == TurnResult::Turned,
        level == rank + 2 ==> turn_result_of(level, rank) == TurnResult::Turned,
        level >= rank + 3 ==> turn_result_of(level, rank) == TurnResult::Destroyed,
        (turn_result_of(level, rank) == TurnResult::Roll(7)) <==> level == rank,
        level == rank - 1 ==> turn_result_of(level, rank) == TurnResult::Roll(9),
        level == rank - 2 ==> turn_result_of(level, rank) == TurnResult::Roll(11),
        level <= rank - 3 ==> turn_result_of(level, rank) == TurnResult::Impossible,
        (turn_result_of(level, rank) is Turned || turn_result_of(level, rank) is Destroyed) <==> level > rank,
{
}

/// A roll that is neither a natural 1 nor a natural 20 hits exactly when the
/// roll plus the attack modifiers reaches THAC0 less the target's armour
/// class; a natural 20 always hits and a natural 1 always misses.
pub proof fn lemma_hit_roll_with_modifiers(thac0: int, ac: int, modifiers: int, roll: int)
    ensures
        2 <= roll <= 19 ==> (attack_hits(thac0, ac, modifiers, roll) <==> roll + modifiers >= thac0 - ac),
        roll == 20 ==> attack_hits(thac0, ac, modifiers, roll),
        roll == 1 ==> !attack_hits(thac0, ac, modifiers, roll),
{
}

/// An attack bonus counts in full: with modifiers `m` an attack hits exactly
/// when it would with no modifiers against a THAC0 lower by `m`, and a
/// bonus of one more point is worth one more point on the die.
pub proof fn lemma_modifier_counts_in_full(thac0: int, ac: int, m: int, roll: int)
    requires
        2 <= roll <= 18,
    ensures
        attack_hits(thac0, ac, m, roll) == attack_hits(thac0 - m, ac, 0, roll),
        attack_hits(thac0, ac, m + 1, roll) == attack_hits(thac0, ac, m, roll + 1),
{
}

/// Raising the attack modifiers never turns a hit into a miss, and for a
/// roll that is not a natural 1 or 20 a large enough bonus makes it hit and
/// a large enough penalty makes it miss.
pub proof fn lemma_modifier_monotone(thac0: int, ac: int, m1: int, m2: int, roll: int)
    requires
        m1 <= m2,
    ensures
        attack_hits(thac0, ac, m1, roll) ==> attack_hits(thac0, ac, m2, roll),
        2 <= roll <= 19 ==> attack_hits(thac0, ac, thac0 - ac - roll, roll),
        2 <= roll <= 19 ==> !attack_hits(thac0, ac, thac0 - ac - roll - 1, roll),
{
}

/// Each class's experience adjustment goes by its prime requisite: STR for
/// fighters and dwarves, WIS for clerics, INT for magic-users, DEX for
/// thieves, the lower of STR and INT for elves and of STR and DEX for
/// halflings; no other ability counts.
pub proof fn lemma_prime_requisites(str: int, int_: int, wis: int, dex: int, other: int)
    ensures
        prime_req_score(Class::Fighter, str, int_, wis, dex) == str,
        prime_req_score(Class::Dwarf, str, int_, wis, dex) == str,
        prime_req_score(Class::Cleric, str, int_, wis, dex) == wis,
        prime_req_score(Class::MagicUser, str, int_, wis, dex) == int_,
        prime_req_score(Class::Thief, str, int_, wis, dex) == dex,
        prime_req_score(Class::Elf, str, int_, wis, dex) == if str <= int_ {
            str
        } else {
            int_
        },
        prime_req_score(Class::Halfling, str, int_, wis, dex) == if str <= dex {
            str
        } else {
            dex
        },
        prime_req_score(Class::Cleric, other, other, wis, other) == prime_req_score(Class::Cleric, str, int_, wis, dex),
        prime_req_score(Class::MagicUser, other, int_, other, other) == prime_req_score(Class::MagicUser, str, int_, wis, dex),
        prime_req_score(Class::Thief, other, other, other, dex) == prime_req_score(Class::Thief, str, int_, wis, dex),
        prime_req_score(Class::Fighter, str, other, other, other) == prime_req_score(Class::Fighter, str, int_, wis, dex),
        prime_req_score(Class::Dwarf, str, other, other, other) == prime_req_score(Class::Dwarf, str, int_, wis, dex),
{
}

/// Ability modifiers rise with the score, are 0 for average scores (9 to
/// 12), and are symmetric: a score as far below 10.5 as another is above it
/// has the opposite modifier.
pub proof fn lemma_standard_mod_shape(a: int, b: int)
    ensures
        a <= b ==> standard_mod(a) <= standard_mod(b),
        9 <= a <= 12 ==> standard_mod(a) == 0,
        3 <= a <= 18 ==> standard_mod(21 - a) == -standard_mod(a),
        -3 <= standard_mod(a) <= 3,
{
}

/// The experience adjustment rises with the prime requisite score and is
/// none for scores from 9 to 12.
pub proof fn lemma_prime_req_pct_shape(a: int, b: int)
    ensures
        a <= b ==> prime_req_pct(a) <= prime_req_pct(b),
        9 <= a <= 12 ==> prime_req_pct(a) == 0,
        a < 9 ==> prime_req_pct(a) < 0,
        a > 12 ==> prime_req_pct(a) > 0,
{
}

/// A worse armour class (a higher number) and a better attack value (a
/// lower THAC0) never turn a hit into a miss.
pub proof fn lemma_hits_monotone(thac0: int, t2: int, ac: int, ac2: int, m: int, roll: int)
    requires
        t2 <= thac0,
        ac <= ac2,
    ensures
        attack_hits(thac0, ac, m, roll) ==> attack_hits(thac0, ac2, m, roll),
        attack_hits(thac0, ac, m, roll) ==> attack_hits(t2, ac, m, roll),
{
}

/// Missile fire: impossible in melee (distance 0) and beyond long range;
/// within range, a closer target is never harder to hit.
pub proof fn lemma_missile_range_closer(d1: int, d2: int, short: int, medium: int, long: int)
    requires
        0 < d1 <= d2 <= long,
    ensures
        missile_range_mod(d1, short, medium, long) is Some,
        missile_range_mod(d2, short, medium, long) is Some,
        missile_range_mod(d1, short, medium, long)->0 >= missile_range_mod(d2, short, medium, long)->0,
        missile_range_mod(0, short, medium, long) is None,
        missile_range_mod(long + 1, short, medium, long) is None,
{
}

/// Attack values never get worse with level, and at any level a martial
/// class attacks at least as well as a semi-martial one, which attacks at
/// least as well as a non-martial one.
pub proof fn lemma_thac0_improves(a: CombatAptitude, l1: nat, l2: nat)
    requires
        1 <= l1 <= l2,
    ensures
        thac0_of(a, l2) <= thac0_of(a, l1),
        thac0_of(CombatAptitude::Martial, l1) <= thac0_of(CombatAptitude::SemiMartial, l1),
        thac0_of(CombatAptitude::SemiMartial, l1) <= thac0_of(CombatAptitude::NonMartial, l1),
        thac0_of(a, l1) <= 19,
{
}

/// Undead with more hit dice never stand in an easier column of the
/// turning table; 1 HD undead stand in the first column, 7 HD and more in
/// the last.
pub proof fn lemma_undead_rank_rises(h1: nat, h2: nat)
    requires
        h1 <= h2,
    ensures
        undead_rank_of(h1) <= undead_rank_of(h2),
        1 <= undead_rank_of(h1) <= 8,
        h1 <= 1 ==> undead_rank_of(h1) == 1,
        h2 >= 7 ==> undead_rank_of(h2) == 8,
{
}

} // verus!
