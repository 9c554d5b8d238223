//! Combat movement: close, fighting withdrawal, and retreat.
use vstd::prelude::*;

use crate::model::{Character, CombatState, Monster, combat_hd_of, hp_alive};
use crate::rules::monster_thac0_of;
use crate::text::{append_nat, nat_text};

use super::attack::{
    AttackResult, attack_outcome, attack_text, join_text, monster_attack_modified, same_attack, sane_ac,
};

verus! {

/// Movement per combat round: a third of the movement rate.
pub open spec fn encounter_move(c: Character) -> nat {
    (c.movement_rate / 3) as nat
}

/// `a + b`, capped at the largest `u32`.
pub open spec fn sat_add(a: u32, b: u32) -> u32 {
    if a as int + b as int > u32::MAX as int {
        u32::MAX
    } else {
        (a + b) as u32
    }
}

/// Message for closing distance.
pub open spec fn close_text(name: Seq<char>, moved: nat, distance: nat) -> Seq<char> {
    name + " closes "@ + nat_text(moved) + "' (distance now "@ + nat_text(distance) + "')"@
}

/// Error text when a requested advance exceeds the encounter movement.
pub open spec fn too_far_text(name: Seq<char>, em: nat, feet: nat) -> Seq<char> {
    name + " can only move "@ + nat_text(em) + "' per round (encounter movement rate). Requested "@
        + nat_text(feet) + "' is too far."@
}

/// Closes the distance toward the monsters by `feet` (at most the encounter
/// movement) or, with `None`, as far as the encounter movement allows. The
/// distance never goes below 0.
pub fn close(combat: &mut CombatState, character: &Character, feet: Option<u32>) -> (r: Result<String, String>)
    ensures
        ({
            let em = encounter_move(*character);
            let d = old(combat).distance;
            match r {
                Ok(msg) => {
                    let wanted: nat = match feet {
                        Some(f) => f as nat,
                        None => em,
                    };
                    let moved: nat = if wanted <= d {
                        wanted
                    } else {
                        d as nat
                    };
                    &&& em > 0 && d > 0
                    &&& feet matches Some(f) ==> 0 < f <= em
                    &&& final(combat).distance == d - moved
                    &&& msg@ == close_text(character.name@, moved, final(combat).distance as nat)
                    &&& final(combat).log@ == old(combat).log@.push(final(combat).log@.last())
                    &&& final(combat).log@.last()@ == msg@
                    &&& final(combat).monsters@ == old(combat).monsters@
                },
                Err(e) => {
                    &&& *final(combat) == *old(combat)
                    &&& e@ == if em == 0 {
                        character.name@ + " cannot move (movement rate 0)."@
                    } else if d == 0 {
                        "already in melee range."@
                    } else if feet == Some(0u32) {
                        "distance to close must be positive."@
                    } else {
                        too_far_text(character.name@, em, feet->0 as nat)
                    }
                    &&& em > 0 && d > 0 && feet != Some(0u32) ==> (feet is Some && feet->0 > em)
                },
            }
        }),
        final(combat).round == old(combat).round,
        final(combat).phase == old(combat).phase,
        final(combat).spell_declarations@ == old(combat).spell_declarations@,
        final(combat).pending_spells@ == old(combat).pending_spells@,
        final(combat).disrupted@ == old(combat).disrupted@,
        final(combat).characters_acted@ == old(combat).characters_acted@,
        final(combat).log_len_at_initiative == old(combat).log_len_at_initiative,
{
    let em = character.movement_rate / 3;
    if em == 0 {
        let mut e = character.name.clone();
        e.append(" cannot move (movement rate 0).");
        return Err(e);
    }
    if combat.distance == 0 {
        return Err(String::from_str("already in melee range."));
    }
    let actual = match feet {
        Some(f) => {
            if f == 0 {
                return Err(String::from_str("distance to close must be positive."));
            }
            if f > em {
                let mut e = character.name.clone();
                e.append(" can only move ");
                append_nat(&mut e, em as u64);
                e.append("' per round (encounter movement rate). Requested ");
                append_nat(&mut e, f as u64);
                e.append("' is too far.");
                return Err(e);
            }
            if f <= combat.distance {
                f
            } else {
                combat.distance
            }
        },
        None => if em <= combat.distance {
            em
        } else {
            combat.distance
        },
    };
    combat.distance = combat.distance - actual;
    let mut msg = character.name.clone();
    msg.append(" closes ");
    append_nat(&mut msg, actual as u64);
    msg.append("' (distance now ");
    append_nat(&mut msg, combat.distance as u64);
    msg.append("')");
    combat.log_event(msg.clone());
    Ok(msg)
}

/// Message for a fighting withdrawal.
pub open spec fn withdrawal_text(name: Seq<char>, moved: nat, distance: nat) -> Seq<char> {
    name + " performs a fighting withdrawal ("@ + nat_text(moved) + "' backward, distance now "@
        + nat_text(distance) + "')"@
}

/// Fighting withdrawal: the character backs off at half the encounter
/// movement; enemies get no free attacks, and the character cannot attack
/// this round.
pub fn fighting_withdrawal(combat: &mut CombatState, character: &Character) -> (r: String)
    ensures
        final(combat).distance == sat_add(old(combat).distance, (encounter_move(*character) / 2) as u32),
        r@ == withdrawal_text(character.name@, encounter_move(*character) / 2, final(combat).distance as nat),
        final(combat).log@ == old(combat).log@.push(final(combat).log@.last()),
        final(combat).log@.last()@ == r@,
        final(combat).monsters@ == old(combat).monsters@,
        final(combat).round == old(combat).round,
        final(combat).phase == old(combat).phase,
        final(combat).spell_declarations@ == old(combat).spell_declarations@,
        final(combat).pending_spells@ == old(combat).pending_spells@,
        final(combat).disrupted@ == old(combat).disrupted@,
        final(combat).characters_acted@ == old(combat).characters_acted@,
        final(combat).log_len_at_initiative == old(combat).log_len_at_initiative,
{
    let half = character.movement_rate / 3 / 2;
    combat.distance = combat.distance.saturating_add(half);
    let mut msg = character.name.clone();
    msg.append(" performs a fighting withdrawal (");
    append_nat(&mut msg, half as u64);
    msg.append("' backward, distance now ");
    append_nat(&mut msg, combat.distance as u64);
    msg.append("')");
    combat.log_event(msg.clone());
    msg
}

/// Announcement of a retreat whose free attacks are left to the referee.
pub open spec fn retreat_announce_text(name: Seq<char>, moved: nat, distance: nat) -> Seq<char> {
    name + " retreats at full speed ("@ + nat_text(moved) + "', distance now "@ + nat_text(distance)
        + "'). Enemies in melee get free attack at +2."@
}

/// Retreat at full encounter speed, announcing the free attacks at +2 that
/// enemies in melee get, without rolling them.
pub fn announce_retreat(combat: &mut CombatState, character: &Character) -> (r: String)
    ensures
        final(combat).distance == sat_add(old(combat).distance, encounter_move(*character) as u32),
        r@ == retreat_announce_text(character.name@, encounter_move(*character), final(combat).distance as nat),
        final(combat).log@ == old(combat).log@.push(final(combat).log@.last()),
        final(combat).log@.last()@ == r@,
        final(combat).monsters@ == old(combat).monsters@,
        final(combat).round == old(combat).round,
        final(combat).phase == old(combat).phase,
        final(combat).characters_acted@ == old(combat).characters_acted@,
{
    let em = character.movement_rate / 3;
    combat.distance = combat.distance.saturating_add(em);
    let mut msg = character.name.clone();
    msg.append(" retreats at full speed (");
    append_nat(&mut msg, em as u64);
    msg.append("', distance now ");
    append_nat(&mut msg, combat.distance as u64);
    msg.append("'). Enemies in melee get free attack at +2.");
    combat.log_event(msg.clone());
    msg
}

/// Result of a retreat with its free attacks.
#[derive(Clone, Debug)]
pub struct RetreatResult {
    pub retreater: String,
    pub distance_moved: u32,
    pub new_distance: u32,
    pub free_attacks: Vec<AttackResult>,
}

/// Log entry of a retreat.
pub open spec fn retreat_move_text(name: Seq<char>, moved: nat, distance: nat) -> Seq<char> {
    name + " retreats at full speed ("@ + nat_text(moved) + "', distance now "@ + nat_text(distance)
        + "')."@
}

/// The free attack lines, each indented by two spaces.
pub open spec fn attack_lines(attacks: Seq<AttackResult>) -> Seq<Seq<char>> {
    attacks.map_values(|a: AttackResult| "  "@ + attack_text(a))
}

/// Description of a retreat.
pub open spec fn retreat_result_text(r: RetreatResult) -> Seq<char> {
    retreat_move_text(r.retreater@, r.distance_moved as nat, r.new_distance as nat) + "\n"@
        + if r.free_attacks@.len() == 0 {
        "No enemies in melee range for free attacks."@
    } else {
        "Free attacks at +2:\n"@ + join_text(attack_lines(r.free_attacks@), "\n"@)
    }
}

impl RetreatResult {
    pub fn to_string(&self) -> (r: String)
        ensures
            r@ == retreat_result_text(*self),
    {
        let mut s = self.retreater.clone();
        s.append(" retreats at full speed (");
        append_nat(&mut s, self.distance_moved as u64);
        s.append("', distance now ");
        append_nat(&mut s, self.new_distance as u64);
        s.append("').");
        s.append("\n");
        if self.free_attacks.len() == 0 {
            s.append("No enemies in melee range for free attacks.");
            return s;
        }
        s.append("Free attacks at +2:\n");
        let ghost head = s@;
        let mut i: usize = 0;
        while i < self.free_attacks.len()
            invariant
                i <= self.free_attacks@.len(),
                s@ == head + join_text(attack_lines(self.free_attacks@.take(i as int)), "\n"@),
            decreases self.free_attacks@.len() - i,
        {
            let ghost prev = attack_lines(self.free_attacks@.take(i as int));
            if i > 0 {
                s.append("\n");
            }
            s.append("  ");
            let line = self.free_attacks[i].to_string();
            s.append(line.as_str());
            proof {
                let next = attack_lines(self.free_attacks@.take(i as int + 1));
                assert(next.drop_last() =~= prev);
                assert(next.last() == "  "@ + attack_text(self.free_attacks@[i as int]));
                if i == 0 {
                    assert(next.len() == 1);
                }
                assert(s@ =~= head + join_text(next, "\n"@));
            }
            i = i + 1;
        }
        proof {
            assert(self.free_attacks@.take(i as int) =~= self.free_attacks@);
        }
        s
    }
}

/// Indices of the monsters among the first `n` that can make a free attack:
/// alive and not turned.
pub open spec fn free_attackers(ms: Seq<Monster>, n: int) -> Seq<usize>
    decreases n,
{
    if n <= 0 {
        Seq::empty()
    } else if hp_alive(ms[n - 1].hp) && !ms[n - 1].turned {
        free_attackers(ms, n - 1).push((n - 1) as usize)
    } else {
        free_attackers(ms, n - 1)
    }
}

proof fn lemma_free_attackers_bounds(ms: Seq<Monster>, n: int)
    requires
        0 <= n <= ms.len(),
        ms.len() <= usize::MAX,
    ensures
        forall|k: int| 0 <= k < free_attackers(ms, n).len() ==> (#[trigger] free_attackers(ms, n)[k]) < n
            && hp_alive(ms[free_attackers(ms, n)[k] as int].hp) && !ms[free_attackers(ms, n)[k] as int].turned,
    decreases n,
{
    if n > 0 {
        lemma_free_attackers_bounds(ms, n - 1);
        let prev = free_attackers(ms, n - 1);
        let fa = free_attackers(ms, n);
        if hp_alive(ms[n - 1].hp) && !ms[n - 1].turned {
            assert(fa == prev.push((n - 1) as usize));
            assert forall|k: int| 0 <= k < fa.len() implies (#[trigger] fa[k]) < n
                && hp_alive(ms[fa[k] as int].hp) && !ms[fa[k] as int].turned by {
                if k < prev.len() {
                    assert(fa[k] == prev[k]);
                }
            }
        } else {
            assert(fa == prev);
        }
    }
}

fn collect_free_attackers(ms: &Vec<Monster>) -> (r: Vec<usize>)
    ensures
        r@ == free_attackers(ms@, ms@.len() as int),
{
    let mut out: Vec<usize> = Vec::new();
    let mut i: usize = 0;
    while i < ms.len()
        invariant
            i <= ms@.len(),
            out@ == free_attackers(ms@, i as int),
        decreases ms@.len() - i,
    {
        if ms[i].is_alive() && !ms[i].turned {
            out.push(i);
        }
        i = i + 1;
    }
    out
}

/// One free attack at +2 by monster `m` on the living character.
#[verifier::opaque]
pub open spec fn free_attack_ok(a: AttackResult, before: i32, m: Monster, name: Seq<char>, ac: i32) -> bool {
    &&& hp_alive(before)
    &&& a.attacker@ == m.name@
    &&& a.target@ == name
    &&& attack_outcome(a, monster_thac0_of(combat_hd_of(m.hit_dice)) as int, ac, 2, before, a.target_hp_after)
}

/// Hit points before free attack `k`.
pub open spec fn hp_before_attack(hp0: i32, attacks: Seq<AttackResult>, k: int) -> i32 {
    if k == 0 {
        hp0
    } else {
        attacks[k - 1].target_hp_after
    }
}

/// The free attacks so far: attack `k` was made by monster `attackers[k]`
/// at +2 on the living character, and `hp_end` is what is left.
pub open spec fn free_attacks_made(
    attackers: Seq<usize>,
    ms: Seq<Monster>,
    name: Seq<char>,
    ac: i32,
    hp0: i32,
    attacks: Seq<AttackResult>,
    hp_end: i32,
) -> bool {
    &&& attacks.len() <= attackers.len()
    &&& forall|k: int| 0 <= k < attacks.len() ==> free_attack_ok(#[trigger] attacks[k],
        hp_before_attack(hp0, attacks, k), ms[attackers[k] as int], name, ac)
    &&& hp_end == if attacks.len() == 0 {
        hp0
    } else {
        attacks.last().target_hp_after
    }
}

/// What the free attacks of a retreat did: each eligible monster in turn
/// attacks at +2 while the character lives; the attacks stop only once the
/// character is dead.
pub open spec fn free_attacks_outcome(
    attackers: Seq<usize>,
    ms: Seq<Monster>,
    name: Seq<char>,
    ac: i32,
    hp0: i32,
    attacks: Seq<AttackResult>,
    hp_end: i32,
) -> bool {
    &&& free_attacks_made(attackers, ms, name, ac, hp0, attacks, hp_end)
    &&& attacks.len() < attackers.len() ==> !hp_alive(hp_end)
}

/// Everything but the log and the disruption list is unchanged, and the old
/// log is a prefix of the new one.
pub open spec fn combat_same_but_log(a: CombatState, b: CombatState) -> bool {
    &&& b.monsters@ == a.monsters@
    &&& b.distance == a.distance
    &&& b.round == a.round
    &&& b.phase == a.phase
    &&& b.characters_acted@ == a.characters_acted@
    &&& b.spell_declarations@ == a.spell_declarations@
    &&& b.pending_spells@ == a.pending_spells@
    &&& b.log_len_at_initiative == a.log_len_at_initiative
    &&& b.log@.len() >= a.log@.len()
    &&& b.log@.subrange(0, a.log@.len() as int) == a.log@
}

/// One more free attack extends the record of attacks made.
proof fn lemma_made_push(
    attackers: Seq<usize>,
    ms: Seq<Monster>,
    name: Seq<char>,
    ac: i32,
    hp0: i32,
    fa: Seq<AttackResult>,
    hp_before: i32,
    a: AttackResult,
)
    requires
        free_attacks_made(attackers, ms, name, ac, hp0, fa, hp_before),
        fa.len() < attackers.len(),
        free_attack_ok(a, hp_before, ms[attackers[fa.len() as int] as int], name, ac),
    ensures
        free_attacks_made(attackers, ms, name, ac, hp0, fa.push(a), a.target_hp_after),
{
    let nf = fa.push(a);
    assert forall|j: int| 0 <= j < nf.len() implies free_attack_ok(#[trigger] nf[j],
        hp_before_attack(hp0, nf, j), ms[attackers[j] as int], name, ac) by {
        if j < fa.len() {
            assert(nf[j] == fa[j]);
            assert(hp_before_attack(hp0, nf, j) == hp_before_attack(hp0, fa, j));
        } else {
            assert(hp_before_attack(hp0, nf, j) == hp_before);
        }
    }
}

/// The monsters in `attackers` attack the character at +2, in order, until
/// it is dead.
#[verifier::rlimit(40)]
fn free_attack_round(combat: &mut CombatState, character: &mut Character, attackers: &Vec<usize>) -> (r: Vec<AttackResult>)
    requires
        forall|j: int| 0 <= j < attackers@.len() ==> (#[trigger] attackers@[j]) < old(combat).monsters@.len()
            && hp_alive(old(combat).monsters@[attackers@[j] as int].hp),
        sane_ac(old(character).ac),
    ensures
        free_attacks_outcome(attackers@, old(combat).monsters@, old(character).name@, old(character).ac,
            old(character).hp, r@, final(character).hp),
        *final(character) == (Character { hp: final(character).hp, ..*old(character) }),
        combat_same_but_log(*old(combat), *final(combat)),
{
    let ghost c1 = *combat;
    let ghost ch0 = *character;
    let mut free_attacks: Vec<AttackResult> = Vec::new();
    let mut k: usize = 0;
    let mut stop = false;
    proof {
        assert(combat.log@.subrange(0, c1.log@.len() as int) =~= c1.log@);
    }
    while k < attackers.len() && !stop
        invariant
            forall|j: int| 0 <= j < attackers@.len() ==> (#[trigger] attackers@[j]) < c1.monsters@.len()
                && hp_alive(c1.monsters@[attackers@[j] as int].hp),
            k <= attackers@.len(),
            free_attacks@.len() == k,
            combat_same_but_log(c1, *combat),
            *character == (Character { hp: character.hp, ..ch0 }),
            sane_ac(ch0.ac),
            stop ==> !hp_alive(character.hp),
            free_attacks_made(attackers@, c1.monsters@, ch0.name@, ch0.ac, ch0.hp, free_attacks@, character.hp),
        decreases attackers@.len() - k + (if stop { 0int } else { 1int }),
    {
        if !character.is_alive() {
            stop = true;
        } else {
            let idx = attackers[k];
            let ghost hp_before = character.hp;
            let ghost fa = free_attacks@;
            let ghost cb = *combat;
            let atk = monster_attack_modified(combat, idx, character, 2, None);
            proof {
                assert(combat.log@.subrange(0, c1.log@.len() as int) =~= cb.log@.subrange(0, c1.log@.len() as int));
            }
            proof {
                reveal(free_attack_ok);
                lemma_made_push(attackers@, c1.monsters@, ch0.name@, ch0.ac, ch0.hp, fa, hp_before, atk);
            }
            free_attacks.push(atk);
            k = k + 1;
        }
    }
    free_attacks
}

/// Retreat: the character moves away at full encounter speed; every living,
/// unturned monster that was in melee range (10' or less) gets a free attack
/// at +2, in order, until the character dies.
pub fn retreat(combat: &mut CombatState, character: &mut Character) -> (r: RetreatResult)
    requires
        sane_ac(old(character).ac),
    ensures
        r.retreater@ == old(character).name@,
        r.distance_moved as nat == encounter_move(*old(character)),
        final(combat).distance == sat_add(old(combat).distance, encounter_move(*old(character)) as u32),
        r.new_distance == final(combat).distance,
        *final(character) == (Character { hp: final(character).hp, ..*old(character) }),
        old(combat).distance <= 10 ==> free_attacks_outcome(free_attackers(old(combat).monsters@,
            old(combat).monsters@.len() as int), old(combat).monsters@, old(character).name@,
            old(character).ac, old(character).hp, r.free_attacks@, final(character).hp),
        old(combat).distance > 10 ==> r.free_attacks@.len() == 0 && final(character).hp == old(character).hp,
        final(combat).log@.len() > old(combat).log@.len(),
        final(combat).log@[old(combat).log@.len() as int]@ == retreat_move_text(old(character).name@,
            encounter_move(*old(character)), final(combat).distance as nat),
        final(combat).log@.subrange(0, old(combat).log@.len() as int) == old(combat).log@,
        final(combat).monsters@ == old(combat).monsters@,
        final(combat).round == old(combat).round,
        final(combat).phase == old(combat).phase,
        final(combat).characters_acted@ == old(combat).characters_acted@,
        final(combat).spell_declarations@ == old(combat).spell_declarations@,
        final(combat).pending_spells@ == old(combat).pending_spells@,
        final(combat).log_len_at_initiative == old(combat).log_len_at_initiative,
{
    let pre_distance = combat.distance;
    let em = character.movement_rate / 3;
    combat.distance = combat.distance.saturating_add(em);
    let mut msg = character.name.clone();
    msg.append(" retreats at full speed (");
    append_nat(&mut msg, em as u64);
    msg.append("', distance now ");
    append_nat(&mut msg, combat.distance as u64);
    msg.append("').");
    let ghost log0 = combat.log@;
    combat.log_event(msg);
    let ghost c1 = *combat;
    let n_monsters = combat.monsters.len();
    let free_attacks = if pre_distance <= 10 {
        let attackers = collect_free_attackers(&combat.monsters);
        proof {
            lemma_free_attackers_bounds(combat.monsters@, combat.monsters@.len() as int);
        }
        free_attack_round(combat, character, &attackers)
    } else {
        Vec::new()
    };
    proof {
        assert(combat.log@.subrange(0, log0.len() as int) =~= c1.log@.subrange(0, c1.log@.len() as int).subrange(0, log0.len() as int));
        assert(combat.log@[log0.len() as int] == combat.log@.subrange(0, c1.log@.len() as int)[log0.len() as int]);
    }
    RetreatResult {
        retreater: character.name.clone(),
        distance_moved: em,
        new_distance: combat.distance,
        free_attacks,
    }
}

/// The free attacks' outcome depends only on what the attacks report.
pub proof fn lemma_free_attacks_same(
    attackers: Seq<usize>,
    ms: Seq<Monster>,
    name: Seq<char>,
    ac: i32,
    hp0: i32,
    a1: Seq<AttackResult>,
    a2: Seq<AttackResult>,
    hp_end: i32,
)
    requires
        free_attacks_outcome(attackers, ms, name, ac, hp0, a1, hp_end),
        a2.len() == a1.len(),
        forall|k: int| 0 <= k < a1.len() ==> same_attack(a1[k], #[trigger] a2[k]),
    ensures
        free_attacks_outcome(attackers, ms, name, ac, hp0, a2, hp_end),
{
    reveal(free_attack_ok);
    assert forall|k: int| 0 <= k < a2.len() implies free_attack_ok(
        #[trigger] a2[k],
        hp_before_attack(hp0, a2, k),
        ms[attackers[k] as int],
        name,
        ac,
    ) by {
        assert(free_attack_ok(a1[k], hp_before_attack(hp0, a1, k), ms[attackers[k] as int], name, ac));
        if k > 0 {
            assert(same_attack(a1[k - 1], a2[k - 1]));
        }
    };
    if a1.len() > 0 {
        assert(same_attack(a1[a1.len() - 1], a2[a2.len() - 1]));
    }
}

/// Closing in undoes a retreat: after retreating (or announcing a retreat)
/// from distance `d`, closing by the full encounter movement brings the
/// party back to `d` (when the distance did not saturate).
pub proof fn lemma_close_undoes_retreat(c: Character, d: u32)
    requires
        encounter_move(c) > 0,
        d + encounter_move(c) <= u32::MAX,
    ensures
        ({
            let after = sat_add(d, encounter_move(c) as u32);
            let wanted = encounter_move(c);
            let moved: nat = if wanted <= after {
                wanted
            } else {
                after as nat
            };
            after > 0 && after - moved == d
        }),
{
}

/// A fighting withdrawal moves half as far as a retreat.
pub proof fn lemma_withdrawal_half_of_retreat(c: Character, d: u32)
    requires
        d + encounter_move(c) <= u32::MAX,
    ensures
        sat_add(d, (encounter_move(c) / 2) as u32) - d == encounter_move(c) / 2,
        sat_add(d, encounter_move(c) as u32) - d == encounter_move(c),
{
}

} // verus!
