//! Awarding experience with the prime requisite adjustment.
use vstd::prelude::*;

use crate::model::{Character, Class};
use crate::rules::{
    check_level_up, class_prime_req_score, prime_req_modifier, prime_req_pct, prime_req_score,
    ready_for_next_level,
};

verus! {

/// `a + b`, stopping at the largest `u64`.
pub open spec fn sat_add_u64(a: u64, b: u64) -> u64 {
    if a + b > u64::MAX {
        u64::MAX
    } else {
        (a + b) as u64
    }
}

/// Experience after the prime requisite adjustment of `pct` percent
/// (rounded down, at most the largest `u64`).
pub open spec fn adjusted_xp_of(base: u64, pct: int) -> u64 {
    let v = base * (100 + pct) / 100;
    if v > u64::MAX {
        u64::MAX
    } else {
        v as u64
    }
}

/// The prime requisite adjustment, in percent, of a character's experience.
pub open spec fn xp_modifier_of(c: Character) -> int {
    prime_req_pct(
        prime_req_score(
            c.class,
            c.abilities.strength as int,
            c.abilities.intelligence as int,
            c.abilities.wisdom as int,
            c.abilities.dexterity as int,
        ),
    )
}

/// Experience awarded to one character.
#[derive(Clone, Copy, Debug)]
pub struct XpAward {
    pub base_xp: u64,
    pub modifier_pct: i32,
    pub adjusted_xp: u64,
    pub new_total: u64,
    pub ready_to_train: bool,
}

/// The prime requisite adjustment of a character's experience, in percent.
pub fn xp_modifier(c: &Character) -> (r: i32)
    ensures
        r == xp_modifier_of(*c),
        -20 <= r <= 10,
{
    let score = class_prime_req_score(
        c.class,
        c.abilities.strength,
        c.abilities.intelligence,
        c.abilities.wisdom,
        c.abilities.dexterity,
    );
    prime_req_modifier(score)
}

/// `base` adjusted by `pct` percent.
pub fn adjust_xp(base: u64, pct: i32) -> (r: u64)
    requires
        -20 <= pct <= 10,
    ensures
        r == adjusted_xp_of(base, pct as int),
{
    let factor: u128 = (100 + pct) as u128;
    proof {
        assert(base as u128 * factor <= 0xffff_ffff_ffff_ffffu128 * 110) by (nonlinear_arith)
            requires
                factor <= 110,
        ;
    }
    let v: u128 = (base as u128) * factor / 100;
    if v > u64::MAX as u128 {
        u64::MAX
    } else {
        v as u64
    }
}

/// Awards treasure and monster experience to a character: the sum is
/// adjusted by the prime requisite modifier and added to the character's
/// total (all sums stop at the largest `u64`). Reports whether the
/// character now has the experience for the next level.
pub fn award_xp(character: &mut Character, treasure_xp: u64, monster_xp: u64) -> (r: XpAward)
    ensures
        r.base_xp == sat_add_u64(treasure_xp, monster_xp),
        r.modifier_pct == xp_modifier_of(*old(character)),
        r.adjusted_xp == adjusted_xp_of(r.base_xp, r.modifier_pct as int),
        r.new_total == sat_add_u64(old(character).xp, r.adjusted_xp),
        r.ready_to_train == ready_for_next_level(old(character).class, old(character).level as nat,
            r.new_total),
        *final(character) == (Character { xp: r.new_total, ..*old(character) }),
{
    let base = treasure_xp.saturating_add(monster_xp);
    let pct = xp_modifier(character);
    let adjusted = adjust_xp(base, pct);
    character.xp = character.xp.saturating_add(adjusted);
    let ready = check_level_up(character.class, character.level, character.xp);
    XpAward {
        base_xp: base,
        modifier_pct: pct,
        adjusted_xp: adjusted,
        new_total: character.xp,
        ready_to_train: ready,
    }
}

/// Awards never take experience away, and with no adjustment the award is
/// the base amount.
pub proof fn lemma_award_never_lowers_xp(xp: u64, base: u64, pct: int)
    requires
        -20 <= pct <= 10,
    ensures
        sat_add_u64(xp, adjusted_xp_of(base, pct)) >= xp,
        adjusted_xp_of(base, 0) == base,
        pct >= 0 ==> adjusted_xp_of(base, pct) >= base,
        pct <= 0 ==> adjusted_xp_of(base, pct) <= base,
{
    assert(base * (100 + pct) / 100 >= 0) by (nonlinear_arith)
        requires
            -20 <= pct <= 10,
    ;
    assert(base * 100 / 100 == base) by (nonlinear_arith);
    if pct >= 0 {
        assert(base * (100 + pct) / 100 >= base) by (nonlinear_arith)
            requires
                pct >= 0,
        ;
    } else {
        assert(base * (100 + pct) / 100 <= base) by (nonlinear_arith)
            requires
                -20 <= pct <= 0,
        ;
    }
}

/// A character's experience adjustment goes by its class's prime
/// requisite alone: a cleric's by its WIS, a magic-user's by its INT, a
/// thief's by its DEX, a fighter's or dwarf's by its STR.
pub proof fn lemma_xp_modifier_by_prime_requisite(c: Character)
    ensures
        c.class == Class::Cleric ==> xp_modifier_of(c) == prime_req_pct(c.abilities.wisdom as int),
        c.class == Class::MagicUser ==> xp_modifier_of(c) == prime_req_pct(c.abilities.intelligence as int),
        c.class == Class::Thief ==> xp_modifier_of(c) == prime_req_pct(c.abilities.dexterity as int),
        c.class == Class::Fighter || c.class == Class::Dwarf ==> xp_modifier_of(c) == prime_req_pct(
            c.abilities.strength as int,
        ),
{
}

} // verus!
