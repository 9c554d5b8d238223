//! Initiative, spell declaration and disruption tracking.
use vstd::prelude::*;

use crate::dice::random_between;
use crate::model::{CombatPhase, CombatState, Monster};
use crate::text::{append_int, append_nat, contains_ignore_case, int_text, nat_text, any_eq_ignore_ascii_case};

verus! {

/// Log entry of a spell declaration.
pub open spec fn declare_text(name: Seq<char>, spell: Seq<char>) -> Seq<char> {
    name + " declares: casting "@ + spell
}

/// Declares that a character casts a spell this round. If the caster takes
/// damage before the magic phase, the spell is disrupted.
pub fn declare_spell(combat: &mut CombatState, character_name: &str, spell_name: &str)
    ensures
        final(combat).spell_declarations@.len() == old(combat).spell_declarations@.len() + 1,
        final(combat).spell_declarations@.drop_last() == old(combat).spell_declarations@,
        final(combat).spell_declarations@.last()@ == character_name@,
        final(combat).pending_spells@.len() == old(combat).pending_spells@.len() + 1,
        final(combat).pending_spells@.drop_last() == old(combat).pending_spells@,
        final(combat).pending_spells@.last().0@ == character_name@,
        final(combat).pending_spells@.last().1@ == spell_name@,
        final(combat).log@.len() == old(combat).log@.len() + 1,
        final(combat).log@ == old(combat).log@.push(final(combat).log@.last()),
        final(combat).log@.last()@ == declare_text(character_name@, spell_name@),
        final(combat).monsters@ == old(combat).monsters@,
        final(combat).disrupted@ == old(combat).disrupted@,
        final(combat).characters_acted@ == old(combat).characters_acted@,
        final(combat).distance == old(combat).distance,
        final(combat).round == old(combat).round,
        final(combat).phase == old(combat).phase,
        final(combat).log_len_at_initiative == old(combat).log_len_at_initiative,
{
    combat.spell_declarations.push(String::from_str(character_name));
    combat.pending_spells.push((String::from_str(character_name), String::from_str(spell_name)));
    let mut msg = String::from_str(character_name);
    msg.append(" declares: casting ");
    msg.append(spell_name);
    let ghost before = combat.log@;
    combat.log_event(msg);
    proof {
        assert(combat.log@.drop_last() =~= before);
    }
}

/// Whether a character's spell was disrupted this round (name compared
/// without regard to ASCII case).
pub fn is_disrupted(combat: &CombatState, character_name: &str) -> (r: bool)
    ensures
        r == contains_ignore_case(combat.disrupted@, character_name@),
{
    any_eq_ignore_ascii_case(&combat.disrupted, character_name)
}

/// Log entry of a disrupted spell.
pub open spec fn disrupted_text(name: Seq<char>) -> Seq<char> {
    name + "'s spell is DISRUPTED!"@
}

/// Whether the caster's spell gets disrupted now: it was declared and is not
/// disrupted yet.
pub open spec fn disrupts(c: CombatState, name: Seq<char>) -> bool {
    contains_ignore_case(c.spell_declarations@, name) && !contains_ignore_case(c.disrupted@, name)
}

/// Marks a character's declared spell as disrupted (when the caster takes
/// damage). Nothing changes for a character who declared no spell, or whose
/// spell is already disrupted.
pub fn disrupt_caster(combat: &mut CombatState, character_name: &str)
    ensures
        disrupts(*old(combat), character_name@) ==> {
            &&& final(combat).disrupted@.len() == old(combat).disrupted@.len() + 1
            &&& final(combat).disrupted@.drop_last() == old(combat).disrupted@
            &&& final(combat).disrupted@.last()@ == character_name@
            &&& final(combat).log@ == old(combat).log@.push(final(combat).log@.last())
            &&& final(combat).log@.last()@ == disrupted_text(character_name@)
        },
        !disrupts(*old(combat), character_name@) ==> final(combat).disrupted@ == old(
            combat,
        ).disrupted@ && final(combat).log@ == old(combat).log@,
        final(combat).monsters@ == old(combat).monsters@,
        final(combat).spell_declarations@ == old(combat).spell_declarations@,
        final(combat).pending_spells@ == old(combat).pending_spells@,
        final(combat).characters_acted@ == old(combat).characters_acted@,
        final(combat).distance == old(combat).distance,
        final(combat).round == old(combat).round,
        final(combat).phase == old(combat).phase,
        final(combat).log_len_at_initiative == old(combat).log_len_at_initiative,
        final(combat).first_death_checked == old(combat).first_death_checked,
        final(combat).half_killed_checked == old(combat).half_killed_checked,
{
    let is_casting = any_eq_ignore_ascii_case(&combat.spell_declarations, character_name);
    let already = any_eq_ignore_ascii_case(&combat.disrupted, character_name);
    if is_casting && !already {
        combat.disrupted.push(String::from_str(character_name));
        let mut msg = String::from_str(character_name);
        msg.append("'s spell is DISRUPTED!");
        combat.log_event(msg);
    }
}

/// Which side acts first for the initiative rolls.
pub open spec fn winner_text(party: int, monsters: int) -> Seq<char> {
    if party > monsters {
        "Party acts first"@
    } else if monsters > party {
        "Monsters act first"@
    } else {
        "Simultaneous actions"@
    }
}

/// Log entry of an initiative roll.
pub open spec fn initiative_text(round: nat, party: int, monsters: int) -> Seq<char> {
    "Round "@ + nat_text(round) + " — Initiative: Party "@ + int_text(party) + " vs Monsters "@
        + int_text(monsters) + " — "@ + winner_text(party, monsters)
}

/// The monsters with their per-round attack counts reset.
pub open spec fn monsters_reset(old_ms: Seq<Monster>, new_ms: Seq<Monster>) -> bool {
    &&& new_ms.len() == old_ms.len()
    &&& forall|i: int|
        0 <= i < old_ms.len() ==> #[trigger] new_ms[i] == (Monster {
            attacks_this_round: 0,
            ..old_ms[i]
        })
}

/// Resets every monster's count of attacks made this round.
fn reset_attack_counts(ms: &mut Vec<Monster>)
    ensures
        monsters_reset(old(ms)@, final(ms)@),
{
    let mut i: usize = 0;
    let ghost old_ms = ms@;
    while i < ms.len()
        invariant
            ms@.len() == old_ms.len(),
            i <= old_ms.len(),
            forall|j: int|
                0 <= j < i ==> #[trigger] ms@[j] == (Monster {
                    attacks_this_round: 0,
                    ..old_ms[j]
                }),
            forall|j: int| i <= j < old_ms.len() ==> #[trigger] ms@[j] == old_ms[j],
        decreases old_ms.len() - i,
    {
        ms[i].attacks_this_round = 0;
        i = i + 1;
    }
}

/// Starts a new round with the given group initiative rolls: advances the
/// round counter, clears the per-round disruption and action tracking (spell
/// declarations survive, as they are made before initiative), moves to the
/// morale phase and logs the rolls.
pub fn apply_group_initiative(combat: &mut CombatState, party: i32, monsters: i32)
    requires
        old(combat).round < u32::MAX,
    ensures
        final(combat).round == old(combat).round + 1,
        final(combat).party_initiative == party,
        final(combat).monster_initiative == monsters,
        final(combat).disrupted@.len() == 0,
        final(combat).characters_acted@.len() == 0,
        final(combat).phase == CombatPhase::Morale,
        monsters_reset(old(combat).monsters@, final(combat).monsters@),
        final(combat).log@.len() == old(combat).log@.len() + 1,
        final(combat).log@ == old(combat).log@.push(final(combat).log@.last()),
        final(combat).log@.last()@ == initiative_text(final(combat).round as nat, party as int, monsters as int),
        final(combat).log_len_at_initiative == final(combat).log@.len(),
        final(combat).spell_declarations@ == old(combat).spell_declarations@,
        final(combat).pending_spells@ == old(combat).pending_spells@,
        final(combat).distance == old(combat).distance,
        final(combat).first_death_checked == old(combat).first_death_checked,
        final(combat).half_killed_checked == old(combat).half_killed_checked,
{
    combat.party_initiative = party;
    combat.monster_initiative = monsters;
    combat.round = combat.round + 1;
    combat.disrupted = Vec::new();
    combat.characters_acted = Vec::new();
    reset_attack_counts(&mut combat.monsters);
    combat.phase = CombatPhase::Morale;
    let mut msg = String::new();
    msg.append("Round ");
    append_nat(&mut msg, combat.round as u64);
    msg.append(" — Initiative: Party ");
    append_int(&mut msg, party as i64);
    msg.append(" vs Monsters ");
    append_int(&mut msg, monsters as i64);
    msg.append(" — ");
    if party > monsters {
        msg.append("Party acts first");
    } else if monsters > party {
        msg.append("Monsters act first");
    } else {
        msg.append("Simultaneous actions");
    }
    let ghost before = combat.log@;
    combat.log_event(msg);
    proof {
        assert(combat.log@.drop_last() =~= before);
        assert(combat.log@.last()@ =~= initiative_text(combat.round as nat, party as int, monsters as int));
    }
    combat.log_len_at_initiative = combat.log.len();
}

/// Rolls group initiative (1d6 for each side) and starts the new round.
/// Returns the party's and the monsters' rolls.
pub fn roll_initiative(combat: &mut CombatState) -> (r: (i32, i32))
    requires
        old(combat).round < u32::MAX,
    ensures
        1 <= r.0 <= 6,
        1 <= r.1 <= 6,
        final(combat).round == old(combat).round + 1,
        final(combat).party_initiative == r.0,
        final(combat).monster_initiative == r.1,
        final(combat).disrupted@.len() == 0,
        final(combat).characters_acted@.len() == 0,
        final(combat).phase == CombatPhase::Morale,
        monsters_reset(old(combat).monsters@, final(combat).monsters@),
        final(combat).log@.len() == old(combat).log@.len() + 1,
        final(combat).log@ == old(combat).log@.push(final(combat).log@.last()),
        final(combat).log@.last()@ == initiative_text(final(combat).round as nat, r.0 as int, r.1 as int),
        final(combat).log_len_at_initiative == final(combat).log@.len(),
        final(combat).spell_declarations@ == old(combat).spell_declarations@,
        final(combat).pending_spells@ == old(combat).pending_spells@,
        final(combat).distance == old(combat).distance,
{
    let party = random_between(1, 6) as i32;
    let monsters = random_between(1, 6) as i32;
    apply_group_initiative(combat, party, monsters);
    (party, monsters)
}

} // verus!
