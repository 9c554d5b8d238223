//! Clerics turning undead.
use vstd::prelude::*;

use crate::dice::random_between;
use crate::model::{Character, CombatState, Monster, combat_hd_of, hp_alive};
use crate::rules::{TurnResult, turn_result_of, turn_undead_result, undead_rank_from_hd, undead_rank_of};
use crate::text::{append_int, append_nat, int_text, nat_text};

verus! {

/// Result of an attempt to turn undead.
#[derive(Clone, Debug)]
pub struct TurnUndeadResult {
    pub cleric_name: String,
    pub cleric_level: u32,
    pub undead_type: String,
    pub undead_rank: u32,
    pub table_result: TurnResult,
    pub roll: Option<i32>,
    pub success: bool,
    pub hd_affected: u32,
    pub destroyed: bool,
}

/// Description of an attempt to turn undead.
pub open spec fn turn_text(r: TurnUndeadResult) -> Seq<char> {
    r.cleric_name@ + " attempts to turn "@ + r.undead_type@ + " (rank "@ + nat_text(
        r.undead_rank as nat,
    ) + "): "@ + match r.table_result {
        TurnResult::Impossible => "IMPOSSIBLE — cannot turn this undead type"@,
        TurnResult::Roll(target) => match r.roll {
            Some(roll) => if r.success {
                "2d6 = "@ + int_text(roll as int) + " vs "@ + nat_text(target as nat)
                    + " — TURNED! "@ + nat_text(r.hd_affected as nat) + " HD affected"@
            } else {
                "2d6 = "@ + int_text(roll as int) + " vs "@ + nat_text(target as nat) + " — FAILED"@
            },
            None => "needs "@ + nat_text(target as nat) + " on 2d6"@,
        },
        TurnResult::Turned => "AUTOMATIC TURN! "@ + nat_text(r.hd_affected as nat) + " HD affected"@,
        TurnResult::Destroyed => "AUTOMATIC DESTRUCTION! "@ + nat_text(r.hd_affected as nat)
            + " HD affected"@,
    }
}

impl TurnUndeadResult {
    pub fn to_string(&self) -> (r: String)
        ensures
            r@ == turn_text(*self),
    {
        let mut s = self.cleric_name.clone();
        s.append(" attempts to turn ");
        s.append(self.undead_type.as_str());
        s.append(" (rank ");
        append_nat(&mut s, self.undead_rank as u64);
        s.append("): ");
        let ghost head = s@;
        match self.table_result {
            TurnResult::Impossible => {
                s.append("IMPOSSIBLE — cannot turn this undead type");
            },
            TurnResult::Roll(target) => match self.roll {
                Some(roll) => {
                    s.append("2d6 = ");
                    append_int(&mut s, roll as i64);
                    s.append(" vs ");
                    append_nat(&mut s, target as u64);
                    if self.success {
                        s.append(" — TURNED! ");
                        append_nat(&mut s, self.hd_affected as u64);
                        s.append(" HD affected");
                    } else {
                        s.append(" — FAILED");
                    }
                },
                None => {
                    s.append("needs ");
                    append_nat(&mut s, target as u64);
                    s.append(" on 2d6");
                },
            },
            TurnResult::Turned => {
                s.append("AUTOMATIC TURN! ");
                append_nat(&mut s, self.hd_affected as u64);
                s.append(" HD affected");
            },
            TurnResult::Destroyed => {
                s.append("AUTOMATIC DESTRUCTION! ");
                append_nat(&mut s, self.hd_affected as u64);
                s.append(" HD affected");
            },
        }
        proof {
            assert(s@ =~= turn_text(*self));
        }
        s
    }
}

/// Hit dice a monster counts for against the turning budget (at least 1).
pub open spec fn turn_cost(m: Monster) -> nat {
    if combat_hd_of(m.hit_dice) == 0 {
        1
    } else {
        combat_hd_of(m.hit_dice)
    }
}

/// The monsters from `i` on after a successful turning with `remaining` hit
/// dice left: in order, each living, unturned monster whose hit dice fit in
/// what is left is turned (or destroyed) and uses up its hit dice.
pub open spec fn apply_turning(ms: Seq<Monster>, i: int, remaining: nat, destroy: bool) -> Seq<Monster>
    decreases ms.len() - i,
{
    if i < 0 || i >= ms.len() || remaining == 0 {
        ms
    } else if !hp_alive(ms[i].hp) || ms[i].turned || turn_cost(ms[i]) > remaining {
        apply_turning(ms, i + 1, remaining, destroy)
    } else {
        let affected = if destroy {
            Monster { hp: 0, ..ms[i] }
        } else {
            Monster { turned: true, ..ms[i] }
        };
        apply_turning(ms.update(i, affected), i + 1, (remaining - turn_cost(ms[i])) as nat, destroy)
    }
}

fn apply_turning_exec(ms: &mut Vec<Monster>, budget: u32, destroy: bool)
    ensures
        final(ms)@ == apply_turning(old(ms)@, 0, budget as nat, destroy),
{
    let ghost target = apply_turning(ms@, 0, budget as nat, destroy);
    let mut remaining = budget;
    let mut i: usize = 0;
    while i < ms.len() && remaining > 0
        invariant
            i <= ms@.len(),
            target == apply_turning(ms@, i as int, remaining as nat, destroy),
        decreases ms@.len() - i,
    {
        let m_hd = ms[i].hit_dice.combat_hd();
        let cost = if m_hd == 0 {
            1
        } else {
            m_hd
        };
        if ms[i].is_alive() && !ms[i].turned && cost <= remaining {
            let ghost before = ms@;
            remaining = remaining - cost;
            if destroy {
                ms[i].hp = 0;
            } else {
                ms[i].turned = true;
            }
            proof {
                let affected = if destroy {
                    Monster { hp: 0, ..before[i as int] }
                } else {
                    Monster { turned: true, ..before[i as int] }
                };
                assert(ms@ =~= before.update(i as int, affected));
            }
        }
        i = i + 1;
    }
    proof {
        assert(apply_turning(ms@, i as int, remaining as nat, destroy) == ms@);
    }
}

/// Rolls 2d6 hit dice of undead affected.
fn roll_affected_hd() -> (r: u32)
    ensures
        2 <= r <= 12,
{
    random_between(1, 6) + random_between(1, 6)
}

/// A cleric tries to turn the undead monster `target_monster_idx`. The
/// turning table is read with the cleric's level and the monster's rank; on
/// success 2d6 hit dice of monsters are turned (or destroyed), in order.
pub fn resolve_turn_undead(
    combat: &mut CombatState,
    cleric: &Character,
    cleric_level: u32,
    target_monster_idx: usize,
) -> (r: TurnUndeadResult)
    requires
        target_monster_idx < old(combat).monsters@.len(),
    ensures
        ({
            let m = old(combat).monsters@[target_monster_idx as int];
            let rank = undead_rank_of(combat_hd_of(m.hit_dice));
            &&& r.cleric_name@ == cleric.name@
            &&& r.cleric_level == cleric_level
            &&& r.undead_type@ == m.name@
            &&& r.undead_rank == rank
            &&& r.table_result == turn_result_of(cleric_level as int, rank as int)
            &&& match r.table_result {
                TurnResult::Impossible => r.roll is None && !r.success && r.hd_affected == 0
                    && !r.destroyed,
                TurnResult::Roll(target) => r.roll matches Some(roll) && 2 <= roll <= 12
                    && r.success == (roll >= target) && !r.destroyed && (r.success ==> 2
                    <= r.hd_affected <= 12) && (!r.success ==> r.hd_affected == 0),
                TurnResult::Turned => r.roll is None && r.success && !r.destroyed && 2
                    <= r.hd_affected <= 12,
                TurnResult::Destroyed => r.roll is None && r.success && r.destroyed && 2
                    <= r.hd_affected <= 12,
            }
            &&& final(combat).monsters@ == if r.success {
                apply_turning(old(combat).monsters@, 0, r.hd_affected as nat, r.destroyed)
            } else {
                old(combat).monsters@
            }
            &&& final(combat).log@ == old(combat).log@.push(final(combat).log@.last())
            &&& final(combat).log@.last()@ == turn_text(r)
            &&& final(combat).distance == old(combat).distance
            &&& final(combat).round == old(combat).round
            &&& final(combat).phase == old(combat).phase
            &&& final(combat).characters_acted@ == old(combat).characters_acted@
        }),
{
    let hd = combat.monsters[target_monster_idx].hit_dice.combat_hd();
    let rank = undead_rank_from_hd(hd);
    let undead_type = combat.monsters[target_monster_idx].name.clone();
    let table_result = turn_undead_result(cleric_level, rank);
    let (roll, success, hd_affected, destroyed) = match table_result {
        TurnResult::Impossible => (None, false, 0u32, false),
        TurnResult::Roll(target) => {
            let roll = (random_between(1, 6) + random_between(1, 6)) as i32;
            let success = roll as i64 >= target as i64;
            let affected = if success {
                roll_affected_hd()
            } else {
                0
            };
            (Some(roll), success, affected, false)
        },
        TurnResult::Turned => (None, true, roll_affected_hd(), false),
        TurnResult::Destroyed => (None, true, roll_affected_hd(), true),
    };
    if success && hd_affected > 0 {
        apply_turning_exec(&mut combat.monsters, hd_affected, destroyed);
    }
    let result = TurnUndeadResult {
        cleric_name: cleric.name.clone(),
        cleric_level,
        undead_type,
        undead_rank: rank,
        table_result,
        roll,
        success,
        hd_affected,
        destroyed,
    };
    let msg = result.to_string();
    combat.log_event(msg);
    result
}

} // verus!
