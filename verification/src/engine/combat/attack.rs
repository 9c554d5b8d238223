//! Attack resolution for characters and monsters (melee, missile, coup de grace).
use vstd::prelude::*;

use crate::dice::{
    DiceExpr, MAX_DICE, MAX_MODIFIER, MAX_SIDES, dice_in_limits, dice_of, parse, random_between, roll, sum_rolls,
};
use crate::model::{Character, CombatState, Item, Monster, combat_hd_of, hp_alive};
use crate::rules::{
    WeaponDef, attack_hits, dex_missile_mod, find_weapon, hits, missile_range_mod,
    missile_range_modifier, monster_thac0, monster_thac0_of, standard_mod, str_melee_mod,
    target_fits, target_number, target_number_of, weapon_lookup,
};
use crate::text::{append_int, append_nat, int_text, nat_text};

use super::initiative::{disrupt_caster, disrupts, disrupted_text};

verus! {

/// Result of a single attack (melee or missile).
#[derive(Clone, Debug)]
pub struct AttackResult {
    pub attacker: String,
    pub target: String,
    pub roll: u32,
    pub modifiers: i32,
    pub target_number: i32,
    pub hit: bool,
    pub damage: i32,
    pub damage_rolls: Vec<u32>,
    pub target_hp_after: i32,
    pub target_killed: bool,
}

/// A modifier as shown after a roll: `+2`, `-1`, or nothing for zero.
pub open spec fn mod_text(m: int) -> Seq<char> {
    if m > 0 {
        "+"@ + nat_text(m as nat)
    } else if m < 0 {
        int_text(m)
    } else {
        Seq::empty()
    }
}

/// Description of an attack.
pub open spec fn attack_text(r: AttackResult) -> Seq<char> {
    let head = r.attacker@ + " attacks "@ + r.target@ + " — d20: "@ + nat_text(r.roll as nat)
        + mod_text(r.modifiers as int) + " vs "@ + int_text(r.target_number as int);
    if r.hit {
        head + " — HIT for "@ + int_text(r.damage as int) + " damage"@ + if r.target_killed {
            " [KILLED]"@
        } else {
            " ["@ + int_text(r.target_hp_after as int) + " HP remaining]"@
        }
    } else {
        head + " — MISS"@
    }
}

fn append_mod(s: &mut String, m: i32)
    ensures
        final(s)@ == old(s)@ + mod_text(m as int),
{
    let ghost start = s@;
    if m > 0 {
        s.append("+");
        append_nat(s, m as u64);
    } else if m < 0 {
        append_int(s, m as i64);
    }
    proof {
        assert(s@ =~= start + mod_text(m as int));
    }
}

/// `b` is a copy of `a`.
pub open spec fn same_attack(a: AttackResult, b: AttackResult) -> bool {
    &&& b.attacker@ == a.attacker@
    &&& b.target@ == a.target@
    &&& b.roll == a.roll
    &&& b.modifiers == a.modifiers
    &&& b.target_number == a.target_number
    &&& b.hit == a.hit
    &&& b.damage == a.damage
    &&& b.damage_rolls@ == a.damage_rolls@
    &&& b.target_hp_after == a.target_hp_after
    &&& b.target_killed == a.target_killed
}

impl AttackResult {
    /// A copy of the result.
    pub fn clone_result(&self) -> (r: AttackResult)
        ensures
            same_attack(*self, r),
    {
        let rolls = self.damage_rolls.clone();
        proof {
            assert(rolls@ =~= self.damage_rolls@);
        }
        AttackResult {
            attacker: self.attacker.clone(),
            target: self.target.clone(),
            roll: self.roll,
            modifiers: self.modifiers,
            target_number: self.target_number,
            hit: self.hit,
            damage: self.damage,
            damage_rolls: rolls,
            target_hp_after: self.target_hp_after,
            target_killed: self.target_killed,
        }
    }

    /// Description of the attack, as logged.
    pub fn to_string(&self) -> (r: String)
        ensures
            r@ == attack_text(*self),
    {
        let mut s = self.attacker.clone();
        s.append(" attacks ");
        s.append(self.target.as_str());
        s.append(" — d20: ");
        append_nat(&mut s, self.roll as u64);
        append_mod(&mut s, self.modifiers);
        s.append(" vs ");
        append_int(&mut s, self.target_number as i64);
        if self.hit {
            s.append(" — HIT for ");
            append_int(&mut s, self.damage as i64);
            s.append(" damage");
            if self.target_killed {
                s.append(" [KILLED]");
            } else {
                s.append(" [");
                append_int(&mut s, self.target_hp_after as i64);
                s.append(" HP remaining]");
            }
        } else {
            s.append(" — MISS");
        }
        s
    }
}

/// Result of a coup de grace (auto-kill of a helpless creature).
#[derive(Clone, Debug)]
pub struct CoupDeGraceResult {
    pub attacker: String,
    pub target: String,
    pub target_was_helpless: bool,
}

/// Description of a coup de grace.
pub open spec fn coup_text(attacker: Seq<char>, target: Seq<char>) -> Seq<char> {
    attacker + " dispatches the helpless "@ + target + " — KILLED (auto-kill)"@
}

impl CoupDeGraceResult {
    pub fn to_string(&self) -> (r: String)
        ensures
            r@ == coup_text(self.attacker@, self.target@),
    {
        let mut s = self.attacker.clone();
        s.append(" dispatches the helpless ");
        s.append(self.target.as_str());
        s.append(" — KILLED (auto-kill)");
        s
    }
}

/// Hit points after taking `damage`, bottoming out at the smallest `i32`.
pub open spec fn hp_after(hp: i32, damage: i32) -> i32 {
    if hp as int - damage as int >= i32::MIN as int {
        (hp - damage) as i32
    } else {
        i32::MIN
    }
}

pub fn subtract_hp(hp: i32, damage: i32) -> (r: i32)
    requires
        damage >= 0,
    ensures
        r == hp_after(hp, damage),
{
    if hp >= i32::MIN + damage {
        hp - damage
    } else {
        i32::MIN
    }
}

/// An armour class any monster can attack: with a monster's THAC0 (at most
/// 20) the target number stays within `i32`.
pub open spec fn sane_ac(ac: i32) -> bool {
    ac as int >= 20 - i32::MAX
}

/// Largest damage a dice expression within limits rolls: 100 dice of 1000
/// sides and a modifier of 1000.
pub open spec fn max_dice_damage() -> int {
    MAX_DICE as int * MAX_SIDES as int + MAX_MODIFIER as int
}

/// A damage bonus that keeps any roll plus the bonus within `i32`.
pub open spec fn sane_mod(m: i32) -> bool {
    m as int + max_dice_damage() <= i32::MAX
}

/// One-die fallback used when a damage text is not a dice expression.
pub open spec fn default_damage() -> DiceExpr {
    DiceExpr { count: 1, sides: 6, modifier: 0 }
}

/// The dice a damage text stands for: its own when it is a dice expression
/// within limits, else 1d6.
pub open spec fn damage_dice(notation: Seq<char>) -> DiceExpr {
    match dice_of(notation) {
        Some(e) => e,
        None => default_damage(),
    }
}

/// `damage` and `rolls` are what rolling `notation` and adding `bonus` can
/// give: one result per die, within its sides, and the total with the
/// modifier and the bonus, at least 1.
pub open spec fn damage_rolled(notation: Seq<char>, bonus: int, damage: int, rolls: Seq<u32>) -> bool {
    let e = damage_dice(notation);
    let total = sum_rolls(rolls) + e.modifier + bonus;
    &&& rolls.len() == e.count
    &&& forall|i: int| 0 <= i < rolls.len() ==> 1 <= #[trigger] rolls[i] <= e.sides
    &&& damage == if total < 1 {
        1
    } else {
        total
    }
}

/// Rolls the damage written in `notation` (or 1d6 when it is not a dice
/// expression), adds `bonus`, and keeps at least 1.
pub fn roll_damage(notation: &str, bonus: i32) -> (r: (i32, Vec<u32>))
    requires
        sane_mod(bonus),
    ensures
        1 <= r.0,
        r.0 == 1 || r.0 as int <= max_dice_damage() + bonus,
        damage_rolled(notation@, bonus as int, r.0 as int, r.1@),
{
    let e = match parse(notation) {
        Some(e) => e,
        None => DiceExpr { count: 1, sides: 6, modifier: 0 },
    };
    let rolled = roll(e);
    proof {
        assert(e.count as int * e.sides as int <= 100 * 1000) by (nonlinear_arith)
            requires
                1 <= e.count <= 100,
                1 <= e.sides <= 1000,
        ;
    }
    let total: i64 = rolled.total as i64 + bonus as i64;
    let damage: i32 = if total < 1 {
        1
    } else {
        total as i32
    };
    (damage, rolled.rolls)
}

/// What an attack does to a creature's hit points and what it reports, for
/// every outcome of the dice: the d20 roll is 1..20, the hit follows the
/// attack matrix, a hit deals at least 1 damage and a miss none.
pub open spec fn attack_outcome(
    r: AttackResult,
    thac0: int,
    ac: i32,
    modifiers: i32,
    old_hp: i32,
    new_hp: i32,
) -> bool {
    &&& 1 <= r.roll <= 20
    &&& r.modifiers == modifiers
    &&& r.target_number as int == target_number_of(thac0, ac as int)
    &&& r.hit == attack_hits(thac0, ac as int, modifiers as int, r.roll as int)
    &&& r.hit ==> r.damage >= 1
    &&& !r.hit ==> r.damage == 0 && r.damage_rolls@.len() == 0
    &&& new_hp == hp_after(old_hp, r.damage)
    &&& r.target_hp_after == new_hp
    &&& r.target_killed == !hp_alive(new_hp)
}

/// The combat state after monster `idx` took an attack: only its hit points
/// changed, and the attack was logged.
pub open spec fn monster_hit_applied(old_c: CombatState, new_c: CombatState, idx: int, r: AttackResult) -> bool {
    &&& new_c.monsters@.len() == old_c.monsters@.len()
    &&& new_c.monsters@[idx] == (Monster { hp: r.target_hp_after, ..old_c.monsters@[idx] })
    &&& forall|j: int| 0 <= j < old_c.monsters@.len() && j != idx ==> new_c.monsters@[j] == old_c.monsters@[j]
    &&& new_c.log@ == old_c.log@.push(new_c.log@.last())
    &&& new_c.log@.last()@ == attack_text(r)
    &&& new_c.distance == old_c.distance
    &&& new_c.round == old_c.round
    &&& new_c.phase == old_c.phase
    &&& new_c.spell_declarations@ == old_c.spell_declarations@
    &&& new_c.pending_spells@ == old_c.pending_spells@
    &&& new_c.disrupted@ == old_c.disrupted@
    &&& new_c.characters_acted@ == old_c.characters_acted@
    &&& new_c.log_len_at_initiative == old_c.log_len_at_initiative
    &&& new_c.first_death_checked == old_c.first_death_checked
    &&& new_c.half_killed_checked == old_c.half_killed_checked
}

/// Resolves an attack by a character on monster `monster_idx`, with the
/// attack modifier `modifiers`; `damage_bonus` is added to the damage rolled.
fn character_attack_core(
    combat: &mut CombatState,
    character: &Character,
    monster_idx: usize,
    weapon_damage: &str,
    modifiers: i32,
    damage_bonus: i32,
) -> (r: AttackResult)
    requires
        monster_idx < old(combat).monsters@.len(),
        target_fits(character.thac0 as int, old(combat).monsters@[monster_idx as int].ac as int),
        sane_mod(damage_bonus),
    ensures
        attack_outcome(r, character.thac0 as int, old(combat).monsters@[monster_idx as int].ac,
            modifiers, old(combat).monsters@[monster_idx as int].hp, final(combat).monsters@[monster_idx as int].hp),
        r.attacker@ == character.name@,
        r.target@ == old(combat).monsters@[monster_idx as int].name@,
        r.hit ==> damage_rolled(weapon_damage@, damage_bonus as int, r.damage as int, r.damage_rolls@),
        monster_hit_applied(*old(combat), *final(combat), monster_idx as int, r),
{
    let target_ac = combat.monsters[monster_idx].ac;
    let target_name = combat.monsters[monster_idx].name.clone();
    let thac0 = character.thac0;
    let roll = random_between(1, 20);
    let tn = target_number(thac0, target_ac);
    let hit = hits(thac0, target_ac, modifiers, roll);
    let (damage, damage_rolls) = if hit {
        roll_damage(weapon_damage, damage_bonus)
    } else {
        (0, Vec::new())
    };
    let new_hp = subtract_hp(combat.monsters[monster_idx].hp, damage);
    combat.monsters[monster_idx].hp = new_hp;
    let result = AttackResult {
        attacker: character.name.clone(),
        target: target_name,
        roll,
        modifiers,
        target_number: tn,
        hit,
        damage,
        damage_rolls,
        target_hp_after: new_hp,
        target_killed: !(new_hp > 0),
    };
    let msg = result.to_string();
    combat.log_event(msg);
    result
}

/// Resolves a character's melee attack on a living monster. `str_mod` is
/// added to the attack roll and to the damage of `weapon_damage` (a dice
/// expression; 1d6 when the text is not one).
pub fn character_melee_attack(
    combat: &mut CombatState,
    character: &Character,
    monster_idx: usize,
    weapon_damage: &str,
    str_mod: i32,
) -> (r: AttackResult)
    requires
        monster_idx < old(combat).monsters@.len(),
        hp_alive(old(combat).monsters@[monster_idx as int].hp),
        target_fits(character.thac0 as int, old(combat).monsters@[monster_idx as int].ac as int),
        sane_mod(str_mod),
    ensures
        attack_outcome(r, character.thac0 as int, old(combat).monsters@[monster_idx as int].ac,
            str_mod, old(combat).monsters@[monster_idx as int].hp, final(combat).monsters@[monster_idx as int].hp),
        r.attacker@ == character.name@,
        r.target@ == old(combat).monsters@[monster_idx as int].name@,
        r.hit ==> damage_rolled(weapon_damage@, str_mod as int, r.damage as int, r.damage_rolls@),
        monster_hit_applied(*old(combat), *final(combat), monster_idx as int, r),
{
    character_attack_core(combat, character, monster_idx, weapon_damage, str_mod, str_mod)
}

/// Error text for an attack on a dead or missing monster.
pub open spec fn bad_target_text(idx: nat) -> Seq<char> {
    "cannot attack dead or nonexistent monster at index "@ + nat_text(idx)
}

/// Error text for a missile attack that cannot reach its target.
pub open spec fn out_of_range_text(distance: nat, long: nat) -> Seq<char> {
    if distance == 0 {
        "cannot use missile weapons in melee (distance: 0')"@
    } else {
        "target out of range (distance: "@ + nat_text(distance) + "', max: "@ + nat_text(long) + "')"@
    }
}

/// Resolves a character's missile attack. Fails when the monster is dead or
/// missing, in melee (distance 0) or beyond long range; otherwise `dex_mod`
/// and the range modifier are added to the attack roll (not to the damage).
pub fn character_missile_attack(
    combat: &mut CombatState,
    character: &Character,
    monster_idx: usize,
    weapon_damage: &str,
    dex_mod: i32,
    range: (u32, u32, u32),
) -> (r: Result<AttackResult, String>)
    requires
        monster_idx < old(combat).monsters@.len() ==> target_fits(
            character.thac0 as int,
            old(combat).monsters@[monster_idx as int].ac as int,
        ),
        i32::MIN < dex_mod < i32::MAX,
    ensures
        ({
            let valid = monster_idx < old(combat).monsters@.len() && hp_alive(old(combat).monsters@[monster_idx as int].hp);
            let rm = missile_range_mod(old(combat).distance as int, range.0 as int, range.1 as int, range.2 as int);
            match r {
                Ok(a) => valid && rm is Some && attack_outcome(a, character.thac0 as int,
                    old(combat).monsters@[monster_idx as int].ac, (dex_mod + rm->0) as i32,
                    old(combat).monsters@[monster_idx as int].hp, final(combat).monsters@[monster_idx as int].hp)
                    && a.attacker@ == character.name@
                    && a.target@ == old(combat).monsters@[monster_idx as int].name@
                    && (a.hit ==> damage_rolled(weapon_damage@, 0, a.damage as int, a.damage_rolls@))
                    && monster_hit_applied(*old(combat), *final(combat), monster_idx as int, a),
                Err(e) => *final(combat) == *old(combat) && if !valid {
                    e@ == bad_target_text(monster_idx as nat)
                } else {
                    rm is None && e@ == out_of_range_text(old(combat).distance as nat, range.2 as nat)
                },
            }
        }),
{
    if monster_idx >= combat.monsters.len() || !combat.monsters[monster_idx].is_alive() {
        let mut e = String::from_str("cannot attack dead or nonexistent monster at index ");
        append_nat(&mut e, monster_idx as u64);
        return Err(e);
    }
    let range_mod = match missile_range_modifier(combat.distance, range.0, range.1, range.2) {
        Some(m) => m,
        None => {
            if combat.distance == 0 {
                return Err(String::from_str("cannot use missile weapons in melee (distance: 0')"));
            }
            let mut e = String::from_str("target out of range (distance: ");
            append_nat(&mut e, combat.distance as u64);
            e.append("', max: ");
            append_nat(&mut e, range.2 as u64);
            e.append("')");
            return Err(e);
        },
    };
    Ok(character_attack_core(combat, character, monster_idx, weapon_damage, dex_mod + range_mod, 0))
}

/// Damage dice of a monster's attack: the chosen routine's dice when it
/// exists, else the monster's damage, else 1d6.
pub open spec fn monster_damage_text(m: Monster, routine_idx: Option<usize>) -> Seq<char> {
    match routine_idx {
        Some(i) if i < m.attack_routines@.len() => m.attack_routines@[i as int].damage@,
        _ => if m.damage@.len() == 0 {
            "1d6"@
        } else {
            m.damage@
        },
    }
}

/// Resolves an attack by monster `monster_idx` on a character, with the hit
/// modifier `modifier` (0 for a normal attack, +2 for a free attack on a
/// retreating character), using the damage of attack routine `routine_idx`
/// when given. A hit lowers the character's hit points and disrupts a spell
/// the character declared.
pub fn monster_attack_modified(
    combat: &mut CombatState,
    monster_idx: usize,
    character: &mut Character,
    modifier: i32,
    routine_idx: Option<usize>,
) -> (r: AttackResult)
    requires
        monster_idx < old(combat).monsters@.len(),
        hp_alive(old(combat).monsters@[monster_idx as int].hp),
        sane_ac(old(character).ac),
    ensures
        attack_outcome(r, monster_thac0_of(combat_hd_of(old(combat).monsters@[monster_idx as int].hit_dice)) as int,
            old(character).ac, modifier, old(character).hp, final(character).hp),
        r.hit ==> damage_rolled(monster_damage_text(old(combat).monsters@[monster_idx as int], routine_idx), 0,
            r.damage as int, r.damage_rolls@),
        *final(character) == (Character { hp: final(character).hp, ..*old(character) }),
        r.attacker@ == old(combat).monsters@[monster_idx as int].name@,
        r.target@ == old(character).name@,
        final(combat).monsters@ == old(combat).monsters@,
        final(combat).distance == old(combat).distance,
        final(combat).round == old(combat).round,
        final(combat).phase == old(combat).phase,
        final(combat).spell_declarations@ == old(combat).spell_declarations@,
        final(combat).pending_spells@ == old(combat).pending_spells@,
        final(combat).characters_acted@ == old(combat).characters_acted@,
        final(combat).log_len_at_initiative == old(combat).log_len_at_initiative,
        final(combat).first_death_checked == old(combat).first_death_checked,
        final(combat).half_killed_checked == old(combat).half_killed_checked,
        final(combat).log@.len() >= old(combat).log@.len() + 1,
        final(combat).log@.last()@ == attack_text(r),
        r.hit && disrupts(*old(combat), old(character).name@) ==> {
            &&& final(combat).disrupted@.drop_last() == old(combat).disrupted@
            &&& final(combat).disrupted@.last()@ == old(character).name@
            &&& final(combat).log@.len() == old(combat).log@.len() + 2
            &&& final(combat).log@[old(combat).log@.len() as int]@ == disrupted_text(old(character).name@)
        },
        !(r.hit && disrupts(*old(combat), old(character).name@)) ==> {
            &&& final(combat).disrupted@ == old(combat).disrupted@
            &&& final(combat).log@.len() == old(combat).log@.len() + 1
        },
        final(combat).log@.subrange(0, old(combat).log@.len() as int) == old(combat).log@,
{
    let m = &combat.monsters[monster_idx];
    let attacker_name = m.name.clone();
    let hd = m.hit_dice.combat_hd();
    let thac0 = monster_thac0(hd);
    let target_ac = character.ac;
    let use_routine = match routine_idx {
        Some(i) => i < m.attack_routines.len(),
        None => false,
    };
    let roll = random_between(1, 20);
    let tn = target_number(thac0, target_ac);
    let hit = hits(thac0, target_ac, modifier, roll);
    let (damage, damage_rolls) = if hit {
        if use_routine {
            let i = routine_idx.unwrap();
            roll_damage(combat.monsters[monster_idx].attack_routines[i].damage.as_str(), 0)
        } else if combat.monsters[monster_idx].damage.unicode_len() == 0 {
            roll_damage("1d6", 0)
        } else {
            roll_damage(combat.monsters[monster_idx].damage.as_str(), 0)
        }
    } else {
        (0, Vec::new())
    };
    let new_hp = subtract_hp(character.hp, damage);
    character.hp = new_hp;
    let ghost log0 = combat.log@;
    let ghost c0 = *combat;
    if hit {
        disrupt_caster(combat, character.name.as_str());
    }
    let ghost log1 = combat.log@;
    let result = AttackResult {
        attacker: attacker_name,
        target: character.name.clone(),
        roll,
        modifiers: modifier,
        target_number: tn,
        hit,
        damage,
        damage_rolls,
        target_hp_after: new_hp,
        target_killed: !(new_hp > 0),
    };
    let msg = result.to_string();
    combat.log_event(msg);
    proof {
        assert(combat.log@.subrange(0, log0.len() as int) =~= log0);
    }
    result
}

/// Resolves an attack by monster `monster_idx` on a character with attack
/// routine `routine_idx`.
pub fn monster_attack(
    combat: &mut CombatState,
    monster_idx: usize,
    character: &mut Character,
    routine_idx: usize,
) -> (r: AttackResult)
    requires
        monster_idx < old(combat).monsters@.len(),
        hp_alive(old(combat).monsters@[monster_idx as int].hp),
        sane_ac(old(character).ac),
    ensures
        attack_outcome(r, monster_thac0_of(combat_hd_of(old(combat).monsters@[monster_idx as int].hit_dice)) as int,
            old(character).ac, 0, old(character).hp, final(character).hp),
        r.hit ==> damage_rolled(monster_damage_text(old(combat).monsters@[monster_idx as int], Some(routine_idx)), 0,
            r.damage as int, r.damage_rolls@),
        *final(character) == (Character { hp: final(character).hp, ..*old(character) }),
        r.attacker@ == old(combat).monsters@[monster_idx as int].name@,
        r.target@ == old(character).name@,
        final(combat).monsters@ == old(combat).monsters@,
        final(combat).distance == old(combat).distance,
        final(combat).round == old(combat).round,
        final(combat).phase == old(combat).phase,
        final(combat).spell_declarations@ == old(combat).spell_declarations@,
        final(combat).pending_spells@ == old(combat).pending_spells@,
        final(combat).characters_acted@ == old(combat).characters_acted@,
        final(combat).log_len_at_initiative == old(combat).log_len_at_initiative,
        final(combat).first_death_checked == old(combat).first_death_checked,
        final(combat).half_killed_checked == old(combat).half_killed_checked,
        final(combat).log@.len() > old(combat).log@.len(),
        final(combat).log@.last()@ == attack_text(r),
        final(combat).log@.subrange(0, old(combat).log@.len() as int) == old(combat).log@,
        r.hit && disrupts(*old(combat), old(character).name@) ==> {
            &&& final(combat).disrupted@.drop_last() == old(combat).disrupted@
            &&& final(combat).disrupted@.last()@ == old(character).name@
        },
        !(r.hit && disrupts(*old(combat), old(character).name@)) ==> final(combat).disrupted@
            == old(combat).disrupted@,
{
    monster_attack_modified(combat, monster_idx, character, 0, Some(routine_idx))
}


// =============================================================================
// Coup de grace and helplessness
// =============================================================================

/// Error text for a monster index past the end of the monster list.
pub open spec fn index_out_of_range_text(idx: nat, len: nat) -> Seq<char> {
    "monster index "@ + nat_text(idx) + " out of range (0-"@ + nat_text((len - 1) as nat) + ")"@
}

/// Error text for a dead target.
pub open spec fn already_dead_text(name: Seq<char>) -> Seq<char> {
    name + " is already dead."@
}

/// Error text for a dead attacker.
pub open spec fn attacker_dead_text(name: Seq<char>) -> Seq<char> {
    name + " is dead and cannot attack."@
}

/// Error text for a coup de grace on a creature that can still defend itself.
pub open spec fn not_helpless_text(name: Seq<char>) -> Seq<char> {
    name + " is not helpless. Use a normal attack."@
}

pub fn index_out_of_range_error(idx: usize, len: usize) -> (r: String)
    requires
        len >= 1,
    ensures
        r@ == index_out_of_range_text(idx as nat, len as nat),
{
    let mut e = String::from_str("monster index ");
    append_nat(&mut e, idx as u64);
    e.append(" out of range (0-");
    append_nat(&mut e, (len - 1) as u64);
    e.append(")");
    e
}

fn suffixed(name: &String, suffix: &str) -> (r: String)
    ensures
        r@ == name@ + suffix@,
{
    let mut e = name.clone();
    e.append(suffix);
    e
}

/// Kills a helpless monster outright (sleeping, paralysed, held...): no attack
/// roll is made; its hit points drop to 0 and it is no longer helpless.
pub fn coup_de_grace(combat: &mut CombatState, character: &Character, monster_idx: usize) -> (r:
    Result<CoupDeGraceResult, String>)
    ensures
        ({
            let ms = old(combat).monsters@;
            match r {
                Ok(res) => {
                    &&& monster_idx < ms.len()
                    &&& hp_alive(ms[monster_idx as int].hp)
                    &&& hp_alive(character.hp)
                    &&& ms[monster_idx as int].helpless
                    &&& res.attacker@ == character.name@
                    &&& res.target@ == ms[monster_idx as int].name@
                    &&& res.target_was_helpless
                    &&& final(combat).monsters@ == ms.update(monster_idx as int, Monster {
                        hp: 0,
                        helpless: false,
                        ..ms[monster_idx as int]
                    })
                    &&& final(combat).log@ == old(combat).log@.push(final(combat).log@.last())
                    &&& final(combat).log@.last()@ == coup_text(character.name@, ms[monster_idx as int].name@)
                },
                Err(e) => {
                    &&& *final(combat) == *old(combat)
                    &&& e@ == if ms.len() == 0 {
                        "no monsters in combat"@
                    } else if monster_idx >= ms.len() {
                        index_out_of_range_text(monster_idx as nat, ms.len())
                    } else if !hp_alive(ms[monster_idx as int].hp) {
                        already_dead_text(ms[monster_idx as int].name@)
                    } else if !hp_alive(character.hp) {
                        attacker_dead_text(character.name@)
                    } else {
                        not_helpless_text(ms[monster_idx as int].name@)
                    }
                    &&& ms.len() > 0 ==> (monster_idx >= ms.len() || !hp_alive(ms[monster_idx as int].hp)
                        || !hp_alive(character.hp) || !ms[monster_idx as int].helpless)
                },
            }
        }),
        final(combat).distance == old(combat).distance,
        final(combat).round == old(combat).round,
        final(combat).phase == old(combat).phase,
        final(combat).spell_declarations@ == old(combat).spell_declarations@,
        final(combat).pending_spells@ == old(combat).pending_spells@,
        final(combat).disrupted@ == old(combat).disrupted@,
        final(combat).characters_acted@ == old(combat).characters_acted@,
        final(combat).log_len_at_initiative == old(combat).log_len_at_initiative,
        final(combat).first_death_checked == old(combat).first_death_checked,
        final(combat).half_killed_checked == old(combat).half_killed_checked,
        final(combat).party_initiative == old(combat).party_initiative,
        final(combat).monster_initiative == old(combat).monster_initiative,
{
    if combat.monsters.len() == 0 {
        return Err(String::from_str("no monsters in combat"));
    }
    if monster_idx >= combat.monsters.len() {
        return Err(index_out_of_range_error(monster_idx, combat.monsters.len()));
    }
    if !combat.monsters[monster_idx].is_alive() {
        return Err(suffixed(&combat.monsters[monster_idx].name, " is already dead."));
    }
    if !character.is_alive() {
        return Err(suffixed(&character.name, " is dead and cannot attack."));
    }
    if !combat.monsters[monster_idx].helpless {
        return Err(suffixed(&combat.monsters[monster_idx].name, " is not helpless. Use a normal attack."));
    }
    let target_name = combat.monsters[monster_idx].name.clone();
    let ghost ms = combat.monsters@;
    combat.monsters[monster_idx].hp = 0;
    combat.monsters[monster_idx].helpless = false;
    proof {
        assert(combat.monsters@ =~= ms.update(monster_idx as int, Monster {
            hp: 0,
            helpless: false,
            ..ms[monster_idx as int]
        }));
    }
    let result = CoupDeGraceResult {
        attacker: character.name.clone(),
        target: target_name,
        target_was_helpless: true,
    };
    let msg = result.to_string();
    let ghost before = combat.log@;
    combat.log_event(msg);
    proof {
        assert(combat.log@.drop_last() =~= before);
    }
    Ok(result)
}

/// Message for marking a monster helpless or not.
pub open spec fn helpless_text(name: Seq<char>, helpless: bool) -> Seq<char> {
    if helpless {
        name + " is now helpless (can be auto-killed)."@
    } else {
        name + " is no longer helpless."@
    }
}

/// Marks a living monster as helpless (sleeping, paralysed, held...) or no
/// longer helpless; helpless monsters can be killed with `coup_de_grace`.
pub fn set_monster_helpless(combat: &mut CombatState, monster_idx: usize, helpless: bool) -> (r:
    Result<String, String>)
    ensures
        ({
            let ms = old(combat).monsters@;
            match r {
                Ok(msg) => {
                    &&& monster_idx < ms.len()
                    &&& hp_alive(ms[monster_idx as int].hp)
                    &&& msg@ == helpless_text(ms[monster_idx as int].name@, helpless)
                    &&& final(combat).monsters@ == ms.update(monster_idx as int, Monster {
                        helpless,
                        ..ms[monster_idx as int]
                    })
                    &&& final(combat).log@ == old(combat).log@.push(final(combat).log@.last())
                    &&& final(combat).log@.last()@ == msg@
                },
                Err(e) => {
                    &&& *final(combat) == *old(combat)
                    &&& e@ == if ms.len() == 0 {
                        "no monsters in combat"@
                    } else if monster_idx >= ms.len() {
                        index_out_of_range_text(monster_idx as nat, ms.len())
                    } else {
                        already_dead_text(ms[monster_idx as int].name@)
                    }
                    &&& (monster_idx >= ms.len() || !hp_alive(ms[monster_idx as int].hp))
                },
            }
        }),
        final(combat).distance == old(combat).distance,
        final(combat).round == old(combat).round,
        final(combat).phase == old(combat).phase,
        final(combat).spell_declarations@ == old(combat).spell_declarations@,
        final(combat).pending_spells@ == old(combat).pending_spells@,
        final(combat).disrupted@ == old(combat).disrupted@,
        final(combat).characters_acted@ == old(combat).characters_acted@,
        final(combat).log_len_at_initiative == old(combat).log_len_at_initiative,
        final(combat).first_death_checked == old(combat).first_death_checked,
        final(combat).half_killed_checked == old(combat).half_killed_checked,
        final(combat).party_initiative == old(combat).party_initiative,
        final(combat).monster_initiative == old(combat).monster_initiative,
{
    if combat.monsters.len() == 0 {
        return Err(String::from_str("no monsters in combat"));
    }
    if monster_idx >= combat.monsters.len() {
        return Err(index_out_of_range_error(monster_idx, combat.monsters.len()));
    }
    if !combat.monsters[monster_idx].is_alive() {
        return Err(suffixed(&combat.monsters[monster_idx].name, " is already dead."));
    }
    let ghost ms = combat.monsters@;
    combat.monsters[monster_idx].helpless = helpless;
    proof {
        assert(combat.monsters@ =~= ms.update(monster_idx as int, Monster {
            helpless,
            ..ms[monster_idx as int]
        }));
    }
    let msg = if helpless {
        suffixed(&combat.monsters[monster_idx].name, " is now helpless (can be auto-killed).")
    } else {
        suffixed(&combat.monsters[monster_idx].name, " is no longer helpless.")
    };
    let ghost before = combat.log@;
    combat.log_event(msg.clone());
    proof {
        assert(combat.log@.drop_last() =~= before);
    }
    Ok(msg)
}

// =============================================================================
// Unified character attack resolution
// =============================================================================

/// Texts joined with a separator.
pub open spec fn join_text(parts: Seq<Seq<char>>, sep: Seq<char>) -> Seq<char>
    decreases parts.len(),
{
    if parts.len() == 0 {
        Seq::empty()
    } else if parts.len() == 1 {
        parts[0]
    } else {
        join_text(parts.drop_last(), sep) + sep + parts.last()
    }
}

/// Names of the missile weapons among the first `n` items of an inventory.
pub open spec fn missile_weapon_names(inv: Seq<Item>, n: int) -> Seq<Seq<char>>
    decreases n,
{
    if n <= 0 {
        Seq::empty()
    } else {
        let rest = missile_weapon_names(inv, n - 1);
        match weapon_lookup(inv[n - 1].name@) {
            Some(w) => if w.missile {
                rest.push(w.name@)
            } else {
                rest
            },
            None => rest,
        }
    }
}

/// Error text for a melee weapon used out of reach; lists the missile
/// weapons the character carries.
pub open spec fn melee_out_of_reach_text(weapon: Seq<char>, distance: nat, name: Seq<char>, missiles: Seq<Seq<char>>) -> Seq<char> {
    weapon + " is a melee weapon but monsters are "@ + nat_text(distance)
        + "' away. Use \"close "@ + name
        + "\" to move into melee range, or attack with a missile weapon."@ + if missiles.len() == 0 {
        Seq::<char>::empty()
    } else {
        " Available missile weapons: "@ + join_text(missiles, ", "@) + "."@
    }
}

/// The names of the missile weapons a character carries, joined by `, `.
fn missile_weapon_list(inv: &Vec<Item>) -> (r: (String, usize))
    ensures
        r.0@ == join_text(missile_weapon_names(inv@, inv@.len() as int), ", "@),
        r.1 == missile_weapon_names(inv@, inv@.len() as int).len(),
{
    let mut s = String::new();
    let mut count: usize = 0;
    let mut i: usize = 0;
    while i < inv.len()
        invariant
            i <= inv@.len(),
            s@ == join_text(missile_weapon_names(inv@, i as int), ", "@),
            count == missile_weapon_names(inv@, i as int).len(),
            count <= i,
        decreases inv@.len() - i,
    {
        let ghost names = missile_weapon_names(inv@, i as int);
        match find_weapon(inv[i].name.as_str()) {
            Some(w) => {
                if w.missile {
                    if count > 0 {
                        s.append(", ");
                    }
                    s.append(w.name);
                    proof {
                        let nn = names.push(w.name@);
                        assert(nn.drop_last() =~= names);
                        if count == 0 {
                            assert(s@ =~= join_text(nn, ", "@));
                        }
                    }
                    count = count + 1;
                }
            },
            None => {},
        }
        i = i + 1;
    }
    (s, count)
}

/// Whether a character's attack with `w` is shot: pure missile weapons
/// always, versatile weapons beyond 10'.
pub open spec fn attack_is_shot(w: WeaponDef, distance: u32) -> bool {
    w.missile && (!w.melee || distance > 10)
}

/// Why a character's attack on monster `idx` with weapon `w` is refused, if
/// it is: no such monster, a dead monster or attacker, a target beyond the
/// weapon's long range, or a melee weapon out of reach.
pub open spec fn attack_refusal(c: CombatState, ch: Character, idx: usize, w: WeaponDef) -> Option<
    Seq<char>,
> {
    let ms = c.monsters@;
    let rm = missile_range_mod(c.distance as int, w.range.0 as int, w.range.1 as int, w.range.2 as int);
    if idx >= ms.len() {
        Some(index_out_of_range_text(idx as nat, ms.len()))
    } else if !hp_alive(ms[idx as int].hp) {
        Some(already_dead_text(ms[idx as int].name@))
    } else if !hp_alive(ch.hp) {
        Some(attacker_dead_text(ch.name@))
    } else if attack_is_shot(w, c.distance) && rm is None {
        Some(out_of_range_text(c.distance as nat, w.range.2 as nat))
    } else if !attack_is_shot(w, c.distance) && c.distance > 10 {
        Some(
            melee_out_of_reach_text(
                w.name@,
                c.distance as nat,
                ch.name@,
                missile_weapon_names(ch.inventory@, ch.inventory@.len() as int),
            ),
        )
    } else {
        None
    }
}

/// The attack `a` of character `ch` on monster `idx` with weapon `w` turned
/// combat `c` into `c2`: shots add the DEX modifier and the range modifier,
/// melee blows the STR modifier; `rest_penalty` adds to both.
pub open spec fn attack_made(
    c: CombatState,
    c2: CombatState,
    ch: Character,
    idx: usize,
    w: WeaponDef,
    rest_penalty: i32,
    a: AttackResult,
) -> bool {
    let ms = c.monsters@;
    let str_mod = standard_mod(ch.abilities.strength as int) + rest_penalty;
    let dex_mod = standard_mod(ch.abilities.dexterity as int) + rest_penalty;
    let rm = missile_range_mod(c.distance as int, w.range.0 as int, w.range.1 as int, w.range.2 as int);
    &&& a.attacker@ == ch.name@
    &&& a.target@ == ms[idx as int].name@
    &&& monster_hit_applied(c, c2, idx as int, a)
    &&& if attack_is_shot(w, c.distance) {
        rm is Some && attack_outcome(a, ch.thac0 as int, ms[idx as int].ac,
            (dex_mod + rm->0) as i32, ms[idx as int].hp, c2.monsters@[idx as int].hp)
    } else {
        attack_outcome(a, ch.thac0 as int, ms[idx as int].ac, str_mod as i32,
            ms[idx as int].hp, c2.monsters@[idx as int].hp)
    }
}

/// Attack of a character with a weapon: pure missile weapons shoot (DEX
/// modifier), versatile weapons strike in melee within 10' and are thrown
/// beyond, pure melee weapons need the monsters within 10' (STR modifier to
/// hit and damage). `rest_penalty` is added to the modifier.
pub fn resolve_character_attack(
    combat: &mut CombatState,
    character: &Character,
    monster_idx: usize,
    weapon: &WeaponDef,
    rest_penalty: i32,
) -> (r: Result<AttackResult, String>)
    requires
        old(combat).monsters@.len() > 0,
        monster_idx < old(combat).monsters@.len() ==> target_fits(
            character.thac0 as int,
            old(combat).monsters@[monster_idx as int].ac as int,
        ),
        i32::MIN + 4 <= rest_penalty,
        rest_penalty as int + 3 + max_dice_damage() <= i32::MAX,
    ensures
        match r {
            Ok(a) => attack_refusal(*old(combat), *character, monster_idx, *weapon) is None
                && attack_made(*old(combat), *final(combat), *character, monster_idx, *weapon,
                rest_penalty, a),
            Err(e) => attack_refusal(*old(combat), *character, monster_idx, *weapon) == Some(e@)
                && *final(combat) == *old(combat),
        },
{
    if monster_idx >= combat.monsters.len() {
        return Err(index_out_of_range_error(monster_idx, combat.monsters.len()));
    }
    if !combat.monsters[monster_idx].is_alive() {
        return Err(suffixed(&combat.monsters[monster_idx].name, " is already dead."));
    }
    if !character.is_alive() {
        return Err(suffixed(&character.name, " is dead and cannot attack."));
    }
    let shoot = weapon.missile && (!weapon.melee || combat.distance > 10);
    if shoot {
        let dex_mod = dex_missile_mod(character.abilities.dexterity) + rest_penalty;
        return character_missile_attack(combat, character, monster_idx, weapon.damage, dex_mod, weapon.range);
    }
    if combat.distance > 10 {
        let (list, count) = missile_weapon_list(&character.inventory);
        let mut e = String::from_str(weapon.name);
        e.append(" is a melee weapon but monsters are ");
        append_nat(&mut e, combat.distance as u64);
        e.append("' away. Use \"close ");
        e.append(character.name.as_str());
        e.append("\" to move into melee range, or attack with a missile weapon.");
        if count > 0 {
            e.append(" Available missile weapons: ");
            e.append(list.as_str());
            e.append(".");
        }
        return Err(e);
    }
    let str_mod = str_melee_mod(character.abilities.strength) + rest_penalty;
    Ok(character_melee_attack(combat, character, monster_idx, weapon.damage, str_mod))
}

} // verus!
