//! The data the engine works on: characters, monsters and the state of a
//! combat encounter.
use vstd::prelude::*;

use crate::rules::save::SavingThrows;
use crate::dice::{
    canonical_digits, digits_value, lemma_digits_value_below, lemma_nat_text_digits, lemma_run_end_at, run_end,
};
use crate::text::{append_int, append_nat, int_text, nat_text};

verus! {

/// Character classes of the basic rules.
#[derive(Clone, Copy, Debug, PartialEq, Eq, Structural)]
pub enum Class {
    Cleric,
    Dwarf,
    Elf,
    Fighter,
    Halfling,
    MagicUser,
    Thief,
}

/// Display name of a class.
pub open spec fn class_name_text(c: Class) -> Seq<char> {
    match c {
        Class::Cleric => "Cleric"@,
        Class::Dwarf => "Dwarf"@,
        Class::Elf => "Elf"@,
        Class::Fighter => "Fighter"@,
        Class::Halfling => "Halfling"@,
        Class::MagicUser => "Magic-User"@,
        Class::Thief => "Thief"@,
    }
}

impl Class {
    /// Display name of the class.
    pub fn name(&self) -> (r: &'static str)
        ensures
            r@ == class_name_text(*self),
    {
        match self {
            Class::Cleric => "Cleric",
            Class::Dwarf => "Dwarf",
            Class::Elf => "Elf",
            Class::Fighter => "Fighter",
            Class::Halfling => "Halfling",
            Class::MagicUser => "Magic-User",
            Class::Thief => "Thief",
        }
    }
}

/// Alignment of a character.
#[derive(Clone, Copy, Debug, PartialEq, Eq, Structural)]
pub enum Alignment {
    Lawful,
    Neutral,
    Chaotic,
}

/// The six ability scores.
#[derive(Clone, Copy, Debug, PartialEq, Eq, Structural)]
pub struct AbilityScores {
    pub strength: i32,
    pub intelligence: i32,
    pub wisdom: i32,
    pub dexterity: i32,
    pub constitution: i32,
    pub charisma: i32,
}

impl AbilityScores {
    /// Scores in the order STR, INT, WIS, DEX, CON, CHA.
    pub fn from_array(a: &[i32; 6]) -> (r: AbilityScores)
        ensures
            r.strength == a@[0],
            r.intelligence == a@[1],
            r.wisdom == a@[2],
            r.dexterity == a@[3],
            r.constitution == a@[4],
            r.charisma == a@[5],
    {
        AbilityScores {
            strength: a[0],
            intelligence: a[1],
            wisdom: a[2],
            dexterity: a[3],
            constitution: a[4],
            charisma: a[5],
        }
    }
}

/// An item carried by a character; weight is in coins.
#[derive(Clone, Debug)]
pub struct Item {
    pub name: String,
    pub weight: u32,
    pub value_gp: u32,
    pub equipped: bool,
}

impl Item {
    /// A new, unequipped item.
    pub fn new(name: &str, weight: u32, value_gp: u32) -> (r: Item)
        ensures
            r.name@ == name@,
            r.weight == weight,
            r.value_gp == value_gp,
            !r.equipped,
    {
        Item { name: String::from_str(name), weight, value_gp, equipped: false }
    }
}

/// How long an active effect lasts.
#[derive(Clone, Copy, Debug, PartialEq, Eq, Structural)]
pub enum EffectDuration {
    Rounds(u32),
    Turns(u32),
    Permanent,
    Concentration,
}

/// A spell or condition currently affecting a creature or an area.
#[derive(Clone, Debug)]
pub struct ActiveEffect {
    pub id: u32,
    pub name: String,
    pub source: String,
    pub duration: EffectDuration,
    pub notes: String,
}

/// A player character.
#[derive(Clone, Debug)]
pub struct Character {
    pub name: String,
    pub class: Class,
    pub level: u32,
    pub abilities: AbilityScores,
    pub hp: i32,
    pub max_hp: i32,
    pub ac: i32,
    pub xp: u64,
    pub inventory: Vec<Item>,
    pub alignment: Alignment,
    pub gold_gp: u32,
    pub saving_throws: Option<SavingThrows>,
    pub thac0: u32,
    pub movement_rate: u32,
    pub spell_slots_used: [u32; 6],
    pub effects: Vec<ActiveEffect>,
}

/// A character or monster is alive while its hit points are above zero.
pub open spec fn hp_alive(hp: i32) -> bool {
    hp > 0
}

impl Character {
    /// A level-1 character with average abilities, unarmoured, with no gear.
    pub fn new(name: &str, class: Class) -> (r: Character)
        ensures
            r.name@ == name@,
            r.class == class,
            r.level == 1,
            r.abilities == (AbilityScores {
                strength: 10,
                intelligence: 10,
                wisdom: 10,
                dexterity: 10,
                constitution: 10,
                charisma: 10,
            }),
            r.hp == 1,
            r.max_hp == 1,
            r.ac == 9,
            r.xp == 0,
            r.inventory@.len() == 0,
            r.alignment == Alignment::Neutral,
            r.gold_gp == 0,
            r.saving_throws is None,
            r.thac0 == 19,
            r.movement_rate == 120,
            r.spell_slots_used@ == seq![0u32, 0u32, 0u32, 0u32, 0u32, 0u32],
            r.effects@.len() == 0,
    {
        Character {
            name: String::from_str(name),
            class,
            level: 1,
            abilities: AbilityScores {
                strength: 10,
                intelligence: 10,
                wisdom: 10,
                dexterity: 10,
                constitution: 10,
                charisma: 10,
            },
            hp: 1,
            max_hp: 1,
            ac: 9,
            xp: 0,
            inventory: Vec::new(),
            alignment: Alignment::Neutral,
            gold_gp: 0,
            saving_throws: None,
            thac0: 19,
            movement_rate: 120,
            spell_slots_used: [0, 0, 0, 0, 0, 0],
            effects: Vec::new(),
        }
    }

    /// Whether the character has hit points left.
    pub fn is_alive(&self) -> (r: bool)
        ensures
            r == hp_alive(self.hp),
    {
        self.hp > 0
    }
}

/// Hit dice of a monster: a number of dice and a modifier, as in `4+1` or `1-1`.
#[derive(Clone, Copy, Debug, PartialEq, Eq, Structural)]
pub struct HitDice {
    pub dice: u32,
    pub modifier: i32,
}

/// The hit dice a monster attacks and is turned with: a negative modifier
/// counts one die less.
pub open spec fn combat_hd_of(hd: HitDice) -> nat {
    if hd.modifier < 0 && hd.dice > 0 {
        (hd.dice - 1) as nat
    } else {
        hd.dice as nat
    }
}

/// Rendering of hit dice: `4+1`, `1-1`, `3`.
pub open spec fn hit_dice_text(hd: HitDice) -> Seq<char> {
    if hd.modifier > 0 {
        nat_text(hd.dice as nat) + "+"@ + int_text(hd.modifier as int)
    } else if hd.modifier < 0 {
        nat_text(hd.dice as nat) + int_text(hd.modifier as int)
    } else {
        nat_text(hd.dice as nat)
    }
}

/// Hit dice whose number of dice and whose modifier have at most four digits.
pub open spec fn hit_dice_in_limits(h: HitDice) -> bool {
    h.dice <= 9999 && -9999 <= h.modifier <= 9999
}

/// The hit dice within limits written `s`, when there are such.
pub open spec fn hit_dice_of(s: Seq<char>) -> Option<HitDice> {
    if exists|h: HitDice| hit_dice_in_limits(h) && #[trigger] hit_dice_text(h) == s {
        Some(choose|h: HitDice| hit_dice_in_limits(h) && #[trigger] hit_dice_text(h) == s)
    } else {
        None
    }
}

/// How the text of hit dice is laid out: the dice's digits, then a sign and
/// the modifier's digits when the modifier is not zero.
proof fn lemma_hit_dice_text_shape(h: HitDice)
    requires
        hit_dice_in_limits(h),
    ensures
        ({
            let s = hit_dice_text(h);
            let i = nat_text(h.dice as nat).len() as int;
            &&& 1 <= i <= 4
            &&& i <= s.len()
            &&& run_end(s, 0) == i
            &&& canonical_digits(s.subrange(0, i))
            &&& digits_value(s.subrange(0, i)) == h.dice
            &&& (h.modifier == 0 ==> s.len() == i)
            &&& (h.modifier != 0 ==> {
                &&& i < s.len()
                &&& s[i] == (if h.modifier > 0 {
                    '+'
                } else {
                    '-'
                })
                &&& run_end(s, i + 1) == s.len()
                &&& 1 <= s.len() - (i + 1) <= 4
                &&& canonical_digits(s.subrange(i + 1, s.len() as int))
                &&& digits_value(s.subrange(i + 1, s.len() as int)) == (if h.modifier > 0 {
                    h.modifier as int
                } else {
                    -h.modifier
                })
            })
        }),
{
    reveal_strlit("+");
    let s = hit_dice_text(h);
    let dt = nat_text(h.dice as nat);
    lemma_nat_text_digits(h.dice as nat);
    let i = dt.len() as int;
    let mag: nat = if h.modifier > 0 {
        h.modifier as nat
    } else {
        (-h.modifier) as nat
    };
    lemma_nat_text_digits(mag);
    let mt = nat_text(mag);
    let sign = if h.modifier > 0 {
        '+'
    } else {
        '-'
    };
    if h.modifier == 0 {
        assert(s == dt);
    } else {
        assert(s =~= dt + seq![sign] + mt);
        assert(s.subrange(i + 1, s.len() as int) =~= mt);
        assert(forall|k: int| i + 1 <= k < s.len() ==> s[k] == mt[k - i - 1]);
        lemma_run_end_at(s, i + 1, s.len() as int);
    }
    assert(s.subrange(0, i) =~= dt);
    assert(forall|k: int| 0 <= k < i ==> s[k] == dt[k]);
    lemma_run_end_at(s, 0, i);
}

/// Two hit dice within limits with the same text are the same.
proof fn lemma_hit_dice_text_injective(a: HitDice, b: HitDice)
    requires
        hit_dice_in_limits(a),
        hit_dice_in_limits(b),
        hit_dice_text(a) == hit_dice_text(b),
    ensures
        a == b,
{
    lemma_hit_dice_text_shape(a);
    lemma_hit_dice_text_shape(b);
    if a.modifier != 0 && b.modifier != 0 {
        assert(a.modifier > 0 <==> b.modifier > 0);
    }
}

proof fn lemma_hit_dice_of_some(s: Seq<char>, h: HitDice)
    requires
        hit_dice_in_limits(h),
        hit_dice_text(h) == s,
    ensures
        hit_dice_of(s) == Some(h),
{
    let w = choose|x: HitDice| hit_dice_in_limits(x) && #[trigger] hit_dice_text(x) == s;
    lemma_hit_dice_text_injective(h, w);
}

/// Reads hit dice written as `hit_dice_text` renders them (`3`, `4+1`,
/// `1-1`), with at most four digits in each number; `None` for any other
/// text.
pub fn parse_hit_dice(s: &str) -> (r: Option<HitDice>)
    ensures
        r == hit_dice_of(s@),
        r matches Some(h) ==> hit_dice_in_limits(h) && hit_dice_text(h) == s@,
{
    let n = s.unicode_len();
    proof {
        if hit_dice_of(s@) is Some {
            let w = choose|x: HitDice| hit_dice_in_limits(x) && #[trigger] hit_dice_text(x) == s@;
            lemma_hit_dice_text_shape(w);
        }
    }
    let (dice, i) = match crate::dice::read_number(s, n, 0, 4) {
        Some(p) => p,
        None => return None,
    };
    proof {
        crate::dice::lemma_canonical_digits_text(s@.subrange(0, i as int));
        lemma_digits_value_below(s@.subrange(0, i as int));
    }
    if i == n {
        let h = HitDice { dice, modifier: 0 };
        proof {
            assert(s@ =~= s@.subrange(0, i as int));
            lemma_hit_dice_of_some(s@, h);
        }
        return Some(h);
    }
    let sign = s.get_char(i);
    if sign != '+' && sign != '-' {
        return None;
    }
    let (m, k) = match crate::dice::read_number(s, n, i + 1, 4) {
        Some(p) => p,
        None => return None,
    };
    if k != n || m < 1 {
        return None;
    }
    proof {
        crate::dice::lemma_canonical_digits_text(s@.subrange(i as int + 1, k as int));
        lemma_digits_value_below(s@.subrange(i as int + 1, k as int));
    }
    let modifier: i32 = if sign == '+' {
        m as i32
    } else {
        0 - (m as i32)
    };
    let h = HitDice { dice, modifier };
    proof {
        reveal_strlit("+");
        assert(s@ =~= s@.subrange(0, i as int) + seq![sign] + s@.subrange(i as int + 1, k as int));
        if sign == '-' {
            assert(int_text(modifier as int) == seq!['-'] + nat_text(m as nat));
        } else {
            assert(int_text(modifier as int) == nat_text(m as nat));
        }
        assert(hit_dice_text(h) =~= s@);
        lemma_hit_dice_of_some(s@, h);
    }
    Some(h)
}

impl HitDice {
    pub fn new(dice: u32, modifier: i32) -> (r: HitDice)
        ensures
            r.dice == dice,
            r.modifier == modifier,
    {
        HitDice { dice, modifier }
    }

    /// Hit dice used on the attack and turning tables.
    pub fn combat_hd(&self) -> (r: u32)
        ensures
            r == combat_hd_of(*self),
    {
        if self.modifier < 0 && self.dice > 0 {
            self.dice - 1
        } else {
            self.dice
        }
    }

    /// Appends the rendering of these hit dice.
    pub fn append_to(&self, s: &mut String)
        ensures
            final(s)@ == old(s)@ + hit_dice_text(*self),
    {
        let ghost start = s@;
        append_nat(s, self.dice as u64);
        if self.modifier > 0 {
            s.append("+");
            append_int(s, self.modifier as i64);
        } else if self.modifier < 0 {
            append_int(s, self.modifier as i64);
        }
        proof {
            assert(s@ =~= start + hit_dice_text(*self));
        }
    }
}

/// One attack a monster makes each round, with its damage dice.
#[derive(Clone, Debug)]
pub struct MonsterAttackRoutine {
    pub name: String,
    pub damage: String,
}

/// A monster in combat.
#[derive(Clone, Debug)]
pub struct Monster {
    pub name: String,
    pub hit_dice: HitDice,
    pub hp: i32,
    pub max_hp: i32,
    pub ac: i32,
    pub attacks: Vec<String>,
    pub damage: String,
    pub morale: u32,
    pub xp_value: u64,
    pub turned: bool,
    pub helpless: bool,
    pub undead: bool,
    pub immune_to_normal_weapons: bool,
    pub attack_routines: Vec<MonsterAttackRoutine>,
    pub effects: Vec<ActiveEffect>,
    /// Attack routines used in the current round.
    pub attacks_this_round: usize,
}

impl Monster {
    /// A monster with the given name and hit dice and otherwise blank statistics.
    pub fn new(name: &str, hit_dice: HitDice) -> (r: Monster)
        ensures
            r.name@ == name@,
            r.hit_dice == hit_dice,
            r.hp == 1,
            r.max_hp == 1,
            r.ac == 9,
            r.attacks@.len() == 0,
            r.damage@ == Seq::<char>::empty(),
            r.morale == 7,
            r.xp_value == 0,
            !r.turned,
            !r.helpless,
            !r.undead,
            !r.immune_to_normal_weapons,
            r.attack_routines@.len() == 0,
            r.effects@.len() == 0,
            r.attacks_this_round == 0,
    {
        Monster {
            name: String::from_str(name),
            hit_dice,
            hp: 1,
            max_hp: 1,
            ac: 9,
            attacks: Vec::new(),
            damage: String::new(),
            morale: 7,
            xp_value: 0,
            turned: false,
            helpless: false,
            undead: false,
            immune_to_normal_weapons: false,
            attack_routines: Vec::new(),
            effects: Vec::new(),
            attacks_this_round: 0,
        }
    }

    /// Whether the monster has hit points left.
    pub fn is_alive(&self) -> (r: bool)
        ensures
            r == hp_alive(self.hp),
    {
        self.hp > 0
    }
}

/// The phases of a combat round, in order.
#[derive(Clone, Copy, Debug, PartialEq, Eq, Structural)]
pub enum CombatPhase {
    Declaration,
    Initiative,
    Morale,
    Movement,
    Missile,
    Magic,
    Melee,
    EndOfRound,
}

/// The phase after `p`; the round wraps from `EndOfRound` to `Declaration`.
pub open spec fn next_phase(p: CombatPhase) -> CombatPhase {
    match p {
        CombatPhase::Declaration => CombatPhase::Initiative,
        CombatPhase::Initiative => CombatPhase::Morale,
        CombatPhase::Morale => CombatPhase::Movement,
        CombatPhase::Movement => CombatPhase::Missile,
        CombatPhase::Missile => CombatPhase::Magic,
        CombatPhase::Magic => CombatPhase::Melee,
        CombatPhase::Melee => CombatPhase::EndOfRound,
        CombatPhase::EndOfRound => CombatPhase::Declaration,
    }
}

/// Display name of a phase.
pub open spec fn phase_name_text(p: CombatPhase) -> Seq<char> {
    match p {
        CombatPhase::Declaration => "Declaration"@,
        CombatPhase::Initiative => "Initiative"@,
        CombatPhase::Morale => "Morale"@,
        CombatPhase::Movement => "Movement"@,
        CombatPhase::Missile => "Missile"@,
        CombatPhase::Magic => "Magic"@,
        CombatPhase::Melee => "Melee"@,
        CombatPhase::EndOfRound => "End of Round"@,
    }
}

impl CombatPhase {
    /// The phase that follows this one.
    pub fn next(&self) -> (r: CombatPhase)
        ensures
            r == next_phase(*self),
    {
        match self {
            CombatPhase::Declaration => CombatPhase::Initiative,
            CombatPhase::Initiative => CombatPhase::Morale,
            CombatPhase::Morale => CombatPhase::Movement,
            CombatPhase::Movement => CombatPhase::Missile,
            CombatPhase::Missile => CombatPhase::Magic,
            CombatPhase::Magic => CombatPhase::Melee,
            CombatPhase::Melee => CombatPhase::EndOfRound,
            CombatPhase::EndOfRound => CombatPhase::Declaration,
        }
    }

    /// Display name of the phase.
    pub fn display_name(&self) -> (r: &'static str)
        ensures
            r@ == phase_name_text(*self),
    {
        match self {
            CombatPhase::Declaration => "Declaration",
            CombatPhase::Initiative => "Initiative",
            CombatPhase::Morale => "Morale",
            CombatPhase::Movement => "Movement",
            CombatPhase::Missile => "Missile",
            CombatPhase::Magic => "Magic",
            CombatPhase::Melee => "Melee",
            CombatPhase::EndOfRound => "End of Round",
        }
    }
}

/// Number of dead monsters (hit points at or below zero) in `ms`.
pub open spec fn dead_count(ms: Seq<Monster>) -> nat
    decreases ms.len(),
{
    if ms.len() == 0 {
        0
    } else {
        dead_count(ms.drop_last()) + if hp_alive(ms.last().hp) {
            0nat
        } else {
            1nat
        }
    }
}

/// Number of living monsters in `ms`.
pub open spec fn alive_count(ms: Seq<Monster>) -> nat {
    (ms.len() - dead_count(ms)) as nat
}

/// Indices of the living monsters among the first `n` of `ms`, in order.
pub open spec fn living_indices(ms: Seq<Monster>, n: int) -> Seq<usize>
    decreases n,
{
    if n <= 0 {
        Seq::empty()
    } else if hp_alive(ms[n - 1].hp) {
        living_indices(ms, n - 1).push((n - 1) as usize)
    } else {
        living_indices(ms, n - 1)
    }
}

pub proof fn lemma_dead_count_bound(ms: Seq<Monster>)
    ensures
        dead_count(ms) <= ms.len(),
    decreases ms.len(),
{
    if ms.len() > 0 {
        lemma_dead_count_bound(ms.drop_last());
    }
}

/// A morale check from the trigger flags and the number of dead among
/// `total` monsters: whether one is due, and the flags afterwards. The first
/// death triggers once; half or more dead triggers once, on a later call if
/// both happen together.
pub open spec fn morale_trigger(first_checked: bool, half_checked: bool, dead: nat, total: nat) -> (
    bool,
    bool,
    bool,
) {
    let first = !first_checked && dead > 0;
    let half = !first && !half_checked && dead > 0 && 2 * dead >= total;
    (first || half, first_checked || first, half_checked || half)
}

/// Without new deaths, at most two morale checks in a row are due: each
/// trigger fires only once.
pub proof fn lemma_morale_triggers_fire_once(first: bool, half: bool, dead: nat, total: nat)
    ensures
        ({
            let t1 = morale_trigger(first, half, dead, total);
            let t2 = morale_trigger(t1.1, t1.2, dead, total);
            let t3 = morale_trigger(t2.1, t2.2, dead, total);
            !t3.0
        }),
        morale_trigger(true, true, dead, total).0 == false,
{
}

/// The phase after `n` steps from `p`.
pub open spec fn phase_after(p: CombatPhase, n: nat) -> CombatPhase
    decreases n,
{
    if n == 0 {
        p
    } else {
        next_phase(phase_after(p, (n - 1) as nat))
    }
}

/// A round has eight phases: advancing eight times comes back to the same
/// phase, and no fewer steps do.
pub proof fn lemma_phase_cycle(p: CombatPhase)
    ensures
        phase_after(p, 8) == p,
        forall|n: nat| 0 < n < 8 ==> #[trigger] phase_after(p, n) != p,
{
    let p1 = next_phase(p);
    let p2 = next_phase(p1);
    let p3 = next_phase(p2);
    let p4 = next_phase(p3);
    let p5 = next_phase(p4);
    let p6 = next_phase(p5);
    let p7 = next_phase(p6);
    assert(phase_after(p, 0) == p);
    assert(phase_after(p, 1) == p1);
    assert(phase_after(p, 2) == p2);
    assert(phase_after(p, 3) == p3);
    assert(phase_after(p, 4) == p4);
    assert(phase_after(p, 5) == p5);
    assert(phase_after(p, 6) == p6);
    assert(phase_after(p, 7) == p7);
    assert(phase_after(p, 8) == next_phase(p7));
    assert(next_phase(p7) == p) by {
        match p {
            CombatPhase::Declaration => {},
            CombatPhase::Initiative => {},
            CombatPhase::Morale => {},
            CombatPhase::Movement => {},
            CombatPhase::Missile => {},
            CombatPhase::Magic => {},
            CombatPhase::Melee => {},
            CombatPhase::EndOfRound => {},
        }
    }
    assert(p1 != p && p2 != p && p3 != p && p4 != p && p5 != p && p6 != p && p7 != p) by {
        match p {
            CombatPhase::Declaration => {},
            CombatPhase::Initiative => {},
            CombatPhase::Morale => {},
            CombatPhase::Movement => {},
            CombatPhase::Missile => {},
            CombatPhase::Magic => {},
            CombatPhase::Melee => {},
            CombatPhase::EndOfRound => {},
        }
    }
}

/// State of one combat encounter.
#[derive(Clone, Debug)]
pub struct CombatState {
    pub monsters: Vec<Monster>,
    pub distance: u32,
    pub round: u32,
    pub phase: CombatPhase,
    pub party_initiative: i32,
    pub monster_initiative: i32,
    pub spell_declarations: Vec<String>,
    pub pending_spells: Vec<(String, String)>,
    pub disrupted: Vec<String>,
    pub characters_acted: Vec<String>,
    pub log: Vec<String>,
    pub log_len_at_initiative: usize,
    pub first_death_checked: bool,
    pub half_killed_checked: bool,
}

impl CombatState {
    /// A fresh encounter at the given distance, before the first round.
    pub fn new(monsters: Vec<Monster>, distance: u32) -> (r: CombatState)
        ensures
            r.monsters@ == monsters@,
            r.distance == distance,
            r.round == 0,
            r.phase == CombatPhase::Declaration,
            r.party_initiative == 0,
            r.monster_initiative == 0,
            r.spell_declarations@.len() == 0,
            r.pending_spells@.len() == 0,
            r.disrupted@.len() == 0,
            r.characters_acted@.len() == 0,
            r.log@.len() == 0,
            r.log_len_at_initiative == 0,
            !r.first_death_checked,
            !r.half_killed_checked,
    {
        CombatState {
            monsters,
            distance,
            round: 0,
            phase: CombatPhase::Declaration,
            party_initiative: 0,
            monster_initiative: 0,
            spell_declarations: Vec::new(),
            pending_spells: Vec::new(),
            disrupted: Vec::new(),
            characters_acted: Vec::new(),
            log: Vec::new(),
            log_len_at_initiative: 0,
            first_death_checked: false,
            half_killed_checked: false,
        }
    }

    /// Appends an entry to the combat log.
    pub fn log_event(&mut self, msg: String)
        ensures
            final(self).log@ == old(self).log@.push(msg),
            final(self).monsters@ == old(self).monsters@,
            final(self).distance == old(self).distance,
            final(self).round == old(self).round,
            final(self).phase == old(self).phase,
            final(self).party_initiative == old(self).party_initiative,
            final(self).monster_initiative == old(self).monster_initiative,
            final(self).spell_declarations@ == old(self).spell_declarations@,
            final(self).pending_spells@ == old(self).pending_spells@,
            final(self).disrupted@ == old(self).disrupted@,
            final(self).characters_acted@ == old(self).characters_acted@,
            final(self).log_len_at_initiative == old(self).log_len_at_initiative,
            final(self).first_death_checked == old(self).first_death_checked,
            final(self).half_killed_checked == old(self).half_killed_checked,
    {
        self.log.push(msg);
    }

    /// Number of dead monsters.
    pub fn dead_monster_count(&self) -> (r: usize)
        ensures
            r == dead_count(self.monsters@),
    {
        let mut count: usize = 0;
        let mut i: usize = 0;
        while i < self.monsters.len()
            invariant
                i <= self.monsters@.len(),
                count == dead_count(self.monsters@.take(i as int)),
                count <= i,
            decreases self.monsters@.len() - i,
        {
            proof {
                assert(self.monsters@.take(i as int + 1).drop_last() =~= self.monsters@.take(
                    i as int,
                ));
            }
            if !self.monsters[i].is_alive() {
                count = count + 1;
            }
            i = i + 1;
        }
        proof {
            assert(self.monsters@.take(i as int) =~= self.monsters@);
        }
        count
    }

    /// Number of living monsters.
    pub fn living_monster_count(&self) -> (r: usize)
        ensures
            r == alive_count(self.monsters@),
    {
        let dead = self.dead_monster_count();
        proof {
            lemma_dead_count_bound(self.monsters@);
        }
        self.monsters.len() - dead
    }

    /// Indices of the living monsters, in order.
    pub fn living_monsters(&self) -> (r: Vec<usize>)
        ensures
            r@ == living_indices(self.monsters@, self.monsters@.len() as int),
    {
        let mut out: Vec<usize> = Vec::new();
        let mut i: usize = 0;
        while i < self.monsters.len()
            invariant
                i <= self.monsters@.len(),
                out@ == living_indices(self.monsters@, i as int),
            decreases self.monsters@.len() - i,
        {
            if self.monsters[i].is_alive() {
                out.push(i);
            }
            i = i + 1;
        }
        out
    }

    /// Whether a morale check is due: once when the first monster dies, and
    /// once when half or more of the group is dead. Each trigger fires once.
    pub fn should_check_morale(&mut self) -> (r: bool)
        ensures
            ({
                let t = morale_trigger(
                    old(self).first_death_checked,
                    old(self).half_killed_checked,
                    dead_count(old(self).monsters@),
                    old(self).monsters@.len(),
                );
                &&& r == t.0
                &&& final(self).first_death_checked == t.1
                &&& final(self).half_killed_checked == t.2
            }),
            final(self).monsters@ == old(self).monsters@,
            final(self).log@ == old(self).log@,
            final(self).distance == old(self).distance,
            final(self).round == old(self).round,
            final(self).phase == old(self).phase,
    {
        let dead = self.dead_monster_count();
        let total = self.monsters.len();
        proof {
            lemma_dead_count_bound(self.monsters@);
        }
        if !self.first_death_checked && dead > 0 {
            self.first_death_checked = true;
            return true;
        }
        if !self.half_killed_checked && dead > 0 && dead >= total - dead {
            self.half_killed_checked = true;
            return true;
        }
        false
    }

    /// Moves to the next phase of the round. Entering the declaration phase
    /// of a new round clears the spell declarations.
    pub fn advance_phase(&mut self)
        ensures
            final(self).phase == next_phase(old(self).phase),
            old(self).phase == CombatPhase::EndOfRound ==> final(self).spell_declarations@.len()
                == 0 && final(self).pending_spells@.len() == 0,
            old(self).phase != CombatPhase::EndOfRound ==> final(self).spell_declarations@
                == old(self).spell_declarations@ && final(self).pending_spells@ == old(
                self,
            ).pending_spells@,
            final(self).monsters@ == old(self).monsters@,
            final(self).log@ == old(self).log@,
            final(self).distance == old(self).distance,
            final(self).round == old(self).round,
            final(self).disrupted@ == old(self).disrupted@,
            final(self).characters_acted@ == old(self).characters_acted@,
            final(self).log_len_at_initiative == old(self).log_len_at_initiative,
    {
        if self.phase == CombatPhase::EndOfRound {
            self.spell_declarations = Vec::new();
            self.pending_spells = Vec::new();
        }
        self.phase = self.phase.next();
    }
}

} // verus!
