//! Morale checks.
use vstd::prelude::*;

use crate::dice::random_between;
use crate::model::CombatState;
use crate::text::{append_int, append_nat, int_text, nat_text};

verus! {

/// Result of a morale check.
#[derive(Clone, Debug)]
pub struct MoraleResult {
    pub roll: i32,
    pub morale_score: u32,
    pub passed: bool,
}

/// Description of a morale check.
pub open spec fn morale_text(r: MoraleResult) -> Seq<char> {
    "Morale check: 2d6 = "@ + int_text(r.roll as int) + " vs "@ + nat_text(r.morale_score as nat)
        + if r.passed {
        " — HOLDS"@
    } else {
        " — FLEES!"@
    }
}

impl MoraleResult {
    pub fn to_string(&self) -> (r: String)
        ensures
            r@ == morale_text(*self),
    {
        let mut s = String::from_str("Morale check: 2d6 = ");
        append_int(&mut s, self.roll as i64);
        s.append(" vs ");
        append_nat(&mut s, self.morale_score as u64);
        if self.passed {
            s.append(" — HOLDS");
        } else {
            s.append(" — FLEES!");
        }
        s
    }
}

/// Monsters hold when the 2d6 roll does not exceed their morale score.
pub open spec fn holds_morale(roll: int, score: int) -> bool {
    roll <= score
}

/// Morale 12 never breaks; morale 2 breaks on every roll but a 2.
pub proof fn lemma_morale_extremes(roll: int)
    requires
        2 <= roll <= 12,
    ensures
        holds_morale(roll, 12),
        holds_morale(roll, 2) <==> roll == 2,
{
}

/// The outcome of a morale roll: the monsters hold when the 2d6 roll does
/// not exceed their morale score, and flee otherwise.
pub fn morale_outcome(roll: i32, morale_score: u32) -> (r: MoraleResult)
    ensures
        r.roll == roll,
        r.morale_score == morale_score,
        r.passed == holds_morale(roll as int, morale_score as int),
{
    MoraleResult { roll, morale_score, passed: roll as i64 <= morale_score as i64 }
}

/// Checks morale for a monster type with its morale score: 2d6, holding on
/// a roll at or below the score (so morale 12 never flees and morale 2 flees
/// unless the roll is 2). The check is logged.
pub fn check_morale(combat: &mut CombatState, morale_score: u32) -> (r: MoraleResult)
    ensures
        2 <= r.roll <= 12,
        r.morale_score == morale_score,
        r.passed == holds_morale(r.roll as int, morale_score as int),
        final(combat).log@ == old(combat).log@.push(final(combat).log@.last()),
        final(combat).log@.last()@ == morale_text(r),
        final(combat).monsters@ == old(combat).monsters@,
        final(combat).distance == old(combat).distance,
        final(combat).round == old(combat).round,
        final(combat).phase == old(combat).phase,
        final(combat).spell_declarations@ == old(combat).spell_declarations@,
        final(combat).pending_spells@ == old(combat).pending_spells@,
        final(combat).disrupted@ == old(combat).disrupted@,
        final(combat).characters_acted@ == old(combat).characters_acted@,
        final(combat).log_len_at_initiative == old(combat).log_len_at_initiative,
        final(combat).party_initiative == old(combat).party_initiative,
        final(combat).monster_initiative == old(combat).monster_initiative,
        final(combat).first_death_checked == old(combat).first_death_checked,
        final(combat).half_killed_checked == old(combat).half_killed_checked,
{
    let d1 = random_between(1, 6);
    let d2 = random_between(1, 6);
    let result = morale_outcome((d1 + d2) as i32, morale_score);
    let msg = result.to_string();
    let ghost before = combat.log@;
    combat.log_event(msg);
    proof {
        assert(combat.log@.drop_last() =~= before);
    }
    result
}

} // verus!
