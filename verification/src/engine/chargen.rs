//! Character generation: hit points, starting gold, attack values and the
//! character sheet.
use vstd::prelude::*;

use crate::dice::{DiceExpr, dice_in_limits, dice_of, parse, parse_u32, random_between, roll, u32_value};
use crate::model::{
    AbilityScores, ActiveEffect, Alignment, Character, Class, Item, class_name_text,
};
use crate::rules::save::{SavingThrows, saves_of, saving_throws};
use crate::rules::{
    CombatAptitude, ac_of, aptitude_of, calculate_ac, class_aptitude, dex_ac_mod, standard_mod,
    str_melee_mod, thac0_of,
};
use crate::text::{append_int, append_nat, int_text, nat_text};

verus! {

/// Base movement rate (unencumbered).
pub const BASE_MOVEMENT: u32 = 120;

/// Hit die of each class.
pub open spec fn hit_die_of(c: Class) -> u32 {
    match c {
        Class::Fighter | Class::Dwarf => 8,
        Class::Cleric | Class::Elf | Class::Halfling => 6,
        Class::MagicUser | Class::Thief => 4,
    }
}

pub fn class_hit_die(c: Class) -> (r: u32)
    ensures
        r == hit_die_of(c),
{
    match c {
        Class::Fighter | Class::Dwarf => 8,
        Class::Cleric | Class::Elf | Class::Halfling => 6,
        Class::MagicUser | Class::Thief => 4,
    }
}

/// THAC0 by combat aptitude and level, per the attack matrix.
pub fn thac0(aptitude: CombatAptitude, level: u32) -> (r: u32)
    ensures
        r == thac0_of(aptitude, level as nat),
{
    match aptitude {
        CombatAptitude::Martial => if 1 <= level && level <= 3 {
            19
        } else if 4 <= level && level <= 6 {
            17
        } else if 7 <= level && level <= 9 {
            14
        } else if 10 <= level && level <= 12 {
            12
        } else {
            10
        },
        CombatAptitude::SemiMartial => if 1 <= level && level <= 4 {
            19
        } else if 5 <= level && level <= 8 {
            17
        } else if 9 <= level && level <= 12 {
            14
        } else {
            12
        },
        CombatAptitude::NonMartial => if 1 <= level && level <= 5 {
            19
        } else if 6 <= level && level <= 10 {
            17
        } else {
            14
        },
    }
}

/// Whether a score is a possible total of three six-sided dice.
pub open spec fn three_d6_total(r: int) -> bool {
    exists|a: int, b: int, c: int|
        1 <= a <= 6 && 1 <= b <= 6 && 1 <= c <= 6 && r == #[trigger] (a + b + c)
}

fn roll_3d6() -> (r: i32)
    ensures
        3 <= r <= 18,
        three_d6_total(r as int),
{
    let a = random_between(1, 6);
    let b = random_between(1, 6);
    let c = random_between(1, 6);
    let r = (a + b + c) as i32;
    proof {
        assert(r as int == a as int + b as int + c as int);
    }
    r
}

/// Rolls 3d6 in order for the six abilities: STR, INT, WIS, DEX, CON, CHA.
pub fn roll_abilities() -> (r: [i32; 6])
    ensures
        forall|i: int| 0 <= i < 6 ==> 3 <= #[trigger] r@[i] <= 18 && three_d6_total(r@[i] as int),
{
    let s = roll_3d6();
    let i = roll_3d6();
    let w = roll_3d6();
    let d = roll_3d6();
    let c = roll_3d6();
    let h = roll_3d6();
    [s, i, w, d, c, h]
}

/// Hit points from a hit die roll and the CON modifier: at least 1.
pub open spec fn starting_hp(roll: int, con_mod: int) -> int {
    if roll + con_mod < 1 {
        1
    } else {
        roll + con_mod
    }
}

/// Level-1 hit points: one hit die plus the CON modifier, at least 1.
pub fn roll_hp(hit_die: u32, con_mod: i32) -> (r: i32)
    requires
        1 <= hit_die,
        hit_die as int + con_mod as int <= i32::MAX,
    ensures
        1 <= r,
        exists|roll: int| 1 <= roll <= hit_die && r == #[trigger] starting_hp(roll, con_mod as int),
{
    let roll = random_between(1, hit_die);
    let hp: i64 = roll as i64 + con_mod as i64;
    let r: i32 = if hp < 1 {
        1
    } else {
        hp as i32
    };
    proof {
        assert(r == starting_hp(roll as int, con_mod as int));
    }
    r
}

/// Position of the last `x` among the first `i` characters of `s`.
pub open spec fn last_x_before(s: Seq<char>, i: int) -> Option<int>
    decreases i,
{
    if i <= 0 {
        None
    } else if s[i - 1] == 'x' {
        Some(i - 1)
    } else {
        last_x_before(s, i - 1)
    }
}

/// The dice part of a starting gold notation: what comes before its last
/// `x`, or all of it.
pub open spec fn gold_dice_text(s: Seq<char>) -> Seq<char> {
    match last_x_before(s, s.len() as int) {
        Some(k) => s.subrange(0, k),
        None => s,
    }
}

/// The multiplier of a starting gold notation: the number after its last
/// `x`, 1 when there is none or it is not a number.
pub open spec fn gold_multiplier(s: Seq<char>) -> u32 {
    match last_x_before(s, s.len() as int) {
        Some(k) => match u32_value(s.subrange(k + 1, s.len() as int)) {
            Some(m) => m,
            None => 1,
        },
        None => 1,
    }
}

/// Gold from a dice total and a multiplier: the total (none when negative)
/// times the multiplier, kept at most `u32::MAX`.
pub open spec fn gold_amount(total: int, multiplier: u32) -> u32 {
    let t = if total < 0 {
        0
    } else {
        total
    };
    if t * multiplier > u32::MAX {
        u32::MAX
    } else {
        (t * multiplier) as u32
    }
}

/// Rolls starting gold from dice within limits and a multiplier.
fn roll_gold_dice(e: DiceExpr, multiplier: u32) -> (r: u32)
    requires
        dice_in_limits(e),
    ensures
        exists|t: int|
            e.count + e.modifier <= t <= e.count * e.sides + e.modifier && r == #[trigger] gold_amount(t, multiplier),
{
    let rolled = roll(e);
    let total: u64 = if rolled.total < 0 {
        0
    } else {
        rolled.total as u64
    };
    proof {
        assert(e.count as int * e.sides as int <= 100 * 1000) by (nonlinear_arith)
            requires
                1 <= e.count <= 100,
                1 <= e.sides <= 1000,
        ;
        assert(total * multiplier <= 200000 * 0x1_0000_0000) by (nonlinear_arith)
            requires
                total <= 200000,
                multiplier <= u32::MAX,
        ;
    }
    let product: u64 = total * (multiplier as u64);
    let r: u32 = if product > u32::MAX as u64 {
        u32::MAX
    } else {
        product as u32
    };
    proof {
        assert(r == gold_amount(rolled.total as int, multiplier));
    }
    r
}

/// Rolls starting gold written as dice with a multiplier after an `x`, as
/// `3d6x10` (3d6 times 10); without an `x` the dice alone. A multiplier that
/// is not a number counts as 1; a negative total gives no gold.
pub fn roll_gold(notation: &str) -> (r: u32)
    requires
        dice_of(gold_dice_text(notation@)) is Some,
    ensures
        ({
            let e = dice_of(gold_dice_text(notation@))->0;
            exists|t: int|
                e.count + e.modifier <= t <= e.count * e.sides + e.modifier && r == #[trigger] gold_amount(
                    t,
                    gold_multiplier(notation@),
                )
        }),
{
    let n = notation.unicode_len();
    let mut i: usize = n;
    while i > 0
        invariant
            i <= n,
            n == notation@.len(),
            last_x_before(notation@, n as int) == last_x_before(notation@, i as int),
        ensures
            i == 0 || notation@[i - 1] == 'x',
            i <= n,
            last_x_before(notation@, n as int) == last_x_before(notation@, i as int),
        decreases i,
    {
        if notation.get_char(i - 1) == 'x' {
            break;
        }
        i = i - 1;
    }
    proof {
        if i > 0 {
            assert(last_x_before(notation@, i as int) == Some(i as int - 1));
        }
    }
    let (dice_part, multiplier) = if i > 0 {
        let m = match parse_u32(notation.substring_char(i, n)) {
            Some(m) => m,
            None => 1,
        };
        (notation.substring_char(0, i - 1), m)
    } else {
        (notation, 1)
    };
    proof {
        assert(dice_part@ == gold_dice_text(notation@));
        assert(multiplier == gold_multiplier(notation@));
    }
    let e = parse(dice_part).unwrap();
    roll_gold_dice(e, multiplier)
}

/// Starting gold of every class: 3d6 × 10 gold pieces.
fn roll_starting_gold() -> (r: u32)
    ensures
        30 <= r <= 180,
{
    let r = roll_gold_dice(DiceExpr { count: 3, sides: 6, modifier: 0 }, 10);
    r
}

/// A new level-1 character. Abilities are given in the order STR, INT, WIS,
/// DEX, CON, CHA, with racial adjustments already applied. Hit points and
/// gold are rolled; the character starts unarmoured.
pub fn create_character(name: &str, class: Class, abilities: [i32; 6], alignment: Alignment) -> (r:
    Character)
    ensures
        r.name@ == name@,
        r.class == class,
        r.level == 1,
        r.abilities == (AbilityScores {
            strength: abilities@[0],
            intelligence: abilities@[1],
            wisdom: abilities@[2],
            dexterity: abilities@[3],
            constitution: abilities@[4],
            charisma: abilities@[5],
        }),
        1 <= r.hp,
        exists|roll: int|
            1 <= roll <= hit_die_of(class) && r.hp == #[trigger] starting_hp(
                roll,
                standard_mod(abilities@[4] as int),
            ),
        r.max_hp == r.hp,
        r.ac == ac_of(9, false, -standard_mod(abilities@[3] as int)),
        r.xp == 0,
        r.inventory@.len() == 0,
        r.alignment == alignment,
        30 <= r.gold_gp <= 180,
        r.saving_throws == Some(saves_of(class, 1)),
        r.thac0 == thac0_of(aptitude_of(class), 1),
        r.movement_rate == BASE_MOVEMENT,
        r.spell_slots_used@ == seq![0u32, 0u32, 0u32, 0u32, 0u32, 0u32],
        r.effects@.len() == 0,
{
    let con_mod = str_melee_mod(abilities[4]);
    let hp = roll_hp(class_hit_die(class), con_mod);
    let gold = roll_starting_gold();
    let dex_mod = dex_ac_mod(abilities[3]);
    let ac = calculate_ac(9, false, dex_mod);
    let thac0_val = thac0(class_aptitude(class), 1);
    let saves = saving_throws(class, 1);
    let slots = [0u32, 0, 0, 0, 0, 0];
    proof {
        assert(slots@ =~= seq![0u32, 0u32, 0u32, 0u32, 0u32, 0u32]);
    }
    Character {
        name: String::from_str(name),
        class,
        level: 1,
        abilities: AbilityScores::from_array(&abilities),
        hp,
        max_hp: hp,
        ac,
        xp: 0,
        inventory: Vec::<Item>::new(),
        alignment,
        gold_gp: gold,
        saving_throws: Some(saves),
        thac0: thac0_val,
        movement_rate: BASE_MOVEMENT,
        spell_slots_used: slots,
        effects: Vec::<ActiveEffect>::new(),
    }
}

/// Name of an alignment.
pub open spec fn alignment_text(a: Alignment) -> Seq<char> {
    match a {
        Alignment::Lawful => "Lawful"@,
        Alignment::Neutral => "Neutral"@,
        Alignment::Chaotic => "Chaotic"@,
    }
}

/// A number right-aligned in two columns, as `{:2}` prints it.
pub open spec fn pad2_text(i: int) -> Seq<char> {
    if 0 <= i < 10 {
        " "@ + int_text(i)
    } else {
        int_text(i)
    }
}

fn append_pad2(s: &mut String, i: i32)
    ensures
        final(s)@ == old(s)@ + pad2_text(i as int),
{
    let ghost start = s@;
    if 0 <= i && i < 10 {
        s.append(" ");
    }
    append_int(s, i as i64);
    proof {
        assert(s@ =~= start + pad2_text(i as int));
    }
}

/// The saving throw lines of the character sheet, when the character has
/// saving throws.
pub open spec fn saves_block_text(s: Option<SavingThrows>) -> Seq<char> {
    match s {
        Some(v) => "\nSaving Throws:\n"@ + "  Death: "@ + nat_text(v.death as nat) + "  Wands: "@
            + nat_text(v.wands as nat) + "  Paralysis: "@ + nat_text(v.paralysis as nat)
            + "  Breath: "@ + nat_text(v.breath as nat) + "  Spells: "@ + nat_text(
            v.spells as nat,
        ) + "\n"@,
        None => Seq::empty(),
    }
}

/// The character sheet: name, class, level, alignment, hit points, armour
/// class, THAC0, movement, abilities, gold and experience.
pub open spec fn character_sheet_text(c: Character) -> Seq<char> {
    "=== "@ + c.name@ + " ===\n"@ + "Class: "@ + class_name_text(c.class) + "  Level: "@ + nat_text(
        c.level as nat,
    ) + "  Alignment: "@ + alignment_text(c.alignment) + "\n"@ + "HP: "@ + int_text(c.hp as int)
        + "/"@ + int_text(c.max_hp as int) + "  AC: "@ + int_text(c.ac as int) + "  THAC0: "@
        + nat_text(c.thac0 as nat) + "\n"@ + "Movement: "@ + nat_text(c.movement_rate as nat) + "'\n"@
        + "\nAbilities:\n"@ + "  STR: "@ + pad2_text(c.abilities.strength as int) + "  INT: "@
        + pad2_text(c.abilities.intelligence as int) + "  WIS: "@ + pad2_text(
        c.abilities.wisdom as int,
    ) + "\n"@ + "  DEX: "@ + pad2_text(c.abilities.dexterity as int) + "  CON: "@ + pad2_text(
        c.abilities.constitution as int,
    ) + "  CHA: "@ + pad2_text(c.abilities.charisma as int) + "\n"@ + saves_block_text(
        c.saving_throws,
    ) + "\nGold: "@ + nat_text(
        c.gold_gp as nat,
    ) + " gp\n"@ + "XP: "@ + nat_text(c.xp as nat) + "\n"@
}

/// The character sheet for display.
pub fn character_sheet(c: &Character) -> (r: String)
    ensures
        r@ == character_sheet_text(*c),
{
    let mut out = String::from_str("=== ");
    out.append(c.name.as_str());
    out.append(" ===\n");
    out.append("Class: ");
    out.append(c.class.name());
    out.append("  Level: ");
    append_nat(&mut out, c.level as u64);
    out.append("  Alignment: ");
    out.append(
        match c.alignment {
            Alignment::Lawful => "Lawful",
            Alignment::Neutral => "Neutral",
            Alignment::Chaotic => "Chaotic",
        },
    );
    out.append("\n");
    out.append("HP: ");
    append_int(&mut out, c.hp as i64);
    out.append("/");
    append_int(&mut out, c.max_hp as i64);
    out.append("  AC: ");
    append_int(&mut out, c.ac as i64);
    out.append("  THAC0: ");
    append_nat(&mut out, c.thac0 as u64);
    out.append("\n");
    out.append("Movement: ");
    append_nat(&mut out, c.movement_rate as u64);
    out.append("'\n");
    let ghost mid = out@;
    out.append("\nAbilities:\n");
    out.append("  STR: ");
    append_pad2(&mut out, c.abilities.strength);
    out.append("  INT: ");
    append_pad2(&mut out, c.abilities.intelligence);
    out.append("  WIS: ");
    append_pad2(&mut out, c.abilities.wisdom);
    out.append("\n");
    out.append("  DEX: ");
    append_pad2(&mut out, c.abilities.dexterity);
    out.append("  CON: ");
    append_pad2(&mut out, c.abilities.constitution);
    out.append("  CHA: ");
    append_pad2(&mut out, c.abilities.charisma);
    out.append("\n");
    let ghost before_saves = out@;
    match c.saving_throws {
        Some(v) => {
            out.append("\nSaving Throws:\n");
            out.append("  Death: ");
            append_nat(&mut out, v.death as u64);
            out.append("  Wands: ");
            append_nat(&mut out, v.wands as u64);
            out.append("  Paralysis: ");
            append_nat(&mut out, v.paralysis as u64);
            out.append("  Breath: ");
            append_nat(&mut out, v.breath as u64);
            out.append("  Spells: ");
            append_nat(&mut out, v.spells as u64);
            out.append("\n");
        },
        None => {},
    }
    proof {
        assert(out@ =~= before_saves + saves_block_text(c.saving_throws));
    }
    out.append("\nGold: ");
    append_nat(&mut out, c.gold_gp as u64);
    out.append(" gp\n");
    out.append("XP: ");
    append_nat(&mut out, c.xp);
    out.append("\n");
    proof {
        assert(out@ =~= character_sheet_text(*c));
    }
    out
}

} // verus!
