//! The combat status display.
use vstd::prelude::*;

use crate::model::{
    Character, CombatState, Monster, class_name_text, hit_dice_text, hp_alive, phase_name_text,
};
use crate::text::{append_int, append_nat, int_text, nat_text};

use super::attack::join_text;
use crate::state::effect::texts;

verus! {

/// The side that acts first, as shown in the status.
pub open spec fn status_winner_text(party: int, monsters: int) -> Seq<char> {
    if party > monsters {
        "Party"@
    } else if monsters > party {
        "Monsters"@
    } else {
        "Simultaneous"@
    }
}

/// Status line of one party member.
pub open spec fn member_status_line(c: Character) -> Seq<char> {
    "  "@ + c.name@ + " ("@ + class_name_text(c.class) + ") — "@ + if hp_alive(c.hp) {
        "HP "@ + int_text(c.hp as int) + "/"@ + int_text(c.max_hp as int) + ", AC "@ + int_text(
            c.ac as int,
        )
    } else {
        "DEAD"@
    } + "\n"@
}

/// Status lines of the party members, in order.
pub open spec fn party_status_text(party: Seq<Character>) -> Seq<char>
    decreases party.len(),
{
    if party.len() == 0 {
        Seq::empty()
    } else {
        party_status_text(party.drop_last()) + member_status_line(party.last())
    }
}

/// Status of a monster: its hit points and conditions, or `DEAD`.
pub open spec fn monster_condition_text(m: Monster) -> Seq<char> {
    if hp_alive(m.hp) {
        "HP "@ + int_text(m.hp as int) + "/"@ + int_text(m.max_hp as int) + ", AC "@ + int_text(
            m.ac as int,
        ) + if m.helpless {
            " [HELPLESS]"@
        } else {
            Seq::empty()
        } + if m.turned {
            " [TURNED]"@
        } else {
            Seq::empty()
        }
    } else {
        "DEAD"@
    }
}

/// Status line of monster number `i`.
pub open spec fn monster_status_line(i: nat, m: Monster) -> Seq<char> {
    "  ["@ + nat_text(i) + "] "@ + m.name@ + " (HD "@ + hit_dice_text(m.hit_dice) + ") — "@
        + monster_condition_text(m) + "\n"@
}

/// Status lines of the first `n` monsters.
pub open spec fn monsters_status_text(ms: Seq<Monster>, n: int) -> Seq<char>
    decreases n,
{
    if n <= 0 {
        Seq::empty()
    } else {
        monsters_status_text(ms, n - 1) + monster_status_line((n - 1) as nat, ms[n - 1])
    }
}

/// Names joined with `, `.
pub open spec fn names_text(names: Seq<String>) -> Seq<char> {
    join_text(texts(names), ", "@)
}

/// Head of the status display: round, phase, distance and initiative.
pub open spec fn status_header_text(c: CombatState) -> Seq<char> {
    "=== Combat — Round "@ + nat_text(c.round as nat) + " ("@ + phase_name_text(c.phase)
        + ") ===\n"@ + "Distance: "@ + nat_text(c.distance as nat) + "'\n"@ + if c.round > 0 {
        "Initiative: Party "@ + int_text(c.party_initiative as int) + " vs Monsters "@ + int_text(
            c.monster_initiative as int,
        ) + " — "@ + status_winner_text(c.party_initiative as int, c.monster_initiative as int)
            + " acts first\n"@
    } else {
        Seq::empty()
    }
}

/// Tail of the status display: declared and disrupted spells.
pub open spec fn status_tail_text(c: CombatState) -> Seq<char> {
    (if c.spell_declarations@.len() > 0 {
        "\nSpell declarations: "@ + names_text(c.spell_declarations@) + "\n"@
    } else {
        Seq::empty()
    }) + if c.disrupted@.len() > 0 {
        "Disrupted: "@ + names_text(c.disrupted@) + "\n"@
    } else {
        Seq::empty()
    }
}

/// The full status display of a combat.
pub open spec fn combat_status_text(c: CombatState, party: Seq<Character>) -> Seq<char> {
    status_header_text(c) + "\nParty:\n"@ + party_status_text(party) + "\nMonsters:\n"@
        + monsters_status_text(c.monsters@, c.monsters@.len() as int) + status_tail_text(c)
}

fn append_hp_ac(s: &mut String, hp: i32, max_hp: i32, ac: i32)
    ensures
        final(s)@ == old(s)@ + "HP "@ + int_text(hp as int) + "/"@ + int_text(max_hp as int)
            + ", AC "@ + int_text(ac as int),
{
    s.append("HP ");
    append_int(s, hp as i64);
    s.append("/");
    append_int(s, max_hp as i64);
    s.append(", AC ");
    append_int(s, ac as i64);
}

fn append_member_line(s: &mut String, c: &Character)
    ensures
        final(s)@ == old(s)@ + member_status_line(*c),
{
    let ghost start = s@;
    s.append("  ");
    s.append(c.name.as_str());
    s.append(" (");
    s.append(c.class.name());
    s.append(") — ");
    if c.is_alive() {
        append_hp_ac(s, c.hp, c.max_hp, c.ac);
    } else {
        s.append("DEAD");
    }
    s.append("\n");
    proof {
        assert(s@ =~= start + member_status_line(*c));
    }
}

fn append_monster_line(s: &mut String, i: usize, m: &Monster)
    ensures
        final(s)@ == old(s)@ + monster_status_line(i as nat, *m),
{
    let ghost start = s@;
    s.append("  [");
    append_nat(s, i as u64);
    s.append("] ");
    s.append(m.name.as_str());
    s.append(" (HD ");
    m.hit_dice.append_to(s);
    s.append(") — ");
    append_monster_condition(s, m);
    s.append("\n");
    proof {
        assert(s@ =~= start + monster_status_line(i as nat, *m));
    }
}

fn append_monster_condition(s: &mut String, m: &Monster)
    ensures
        final(s)@ == old(s)@ + monster_condition_text(*m),
{
    let ghost start = s@;
    if m.is_alive() {
        append_hp_ac(s, m.hp, m.max_hp, m.ac);
        if m.helpless {
            s.append(" [HELPLESS]");
        }
        if m.turned {
            s.append(" [TURNED]");
        }
    } else {
        s.append("DEAD");
    }
    proof {
        assert(s@ =~= start + monster_condition_text(*m));
    }
}

/// Appends the texts of `items` joined with `sep`.
pub fn append_joined(s: &mut String, items: &Vec<String>, sep: &str)
    ensures
        final(s)@ == old(s)@ + join_text(texts(items@), sep@),
{
    let ghost start = s@;
    let ghost views = texts(items@);
    let mut i: usize = 0;
    while i < items.len()
        invariant
            i <= items@.len(),
            views == texts(items@),
            s@ == start + join_text(views.take(i as int), sep@),
        decreases items@.len() - i,
    {
        if i > 0 {
            s.append(sep);
        }
        s.append(items[i].as_str());
        proof {
            assert(views.take(i as int + 1).drop_last() =~= views.take(i as int));
            assert(views.take(i as int + 1).last() == items@[i as int]@);
            if i == 0 {
                assert(views.take(1) =~= seq![items@[0]@]);
            }
        }
        i = i + 1;
    }
    proof {
        assert(views.take(i as int) =~= views);
    }
}

/// Appends the names joined with `, `.
pub fn append_names(s: &mut String, names: &Vec<String>)
    ensures
        final(s)@ == old(s)@ + names_text(names@),
{
    append_joined(s, names, ", ");
}

fn status_header(combat: &CombatState) -> (r: String)
    ensures
        r@ == status_header_text(*combat),
{
    let mut out = String::new();
    out.append("=== Combat — Round ");
    append_nat(&mut out, combat.round as u64);
    out.append(" (");
    out.append(combat.phase.display_name());
    out.append(") ===\n");
    out.append("Distance: ");
    append_nat(&mut out, combat.distance as u64);
    out.append("'\n");
    if combat.round > 0 {
        out.append("Initiative: Party ");
        append_int(&mut out, combat.party_initiative as i64);
        out.append(" vs Monsters ");
        append_int(&mut out, combat.monster_initiative as i64);
        out.append(" — ");
        if combat.party_initiative > combat.monster_initiative {
            out.append("Party");
        } else if combat.monster_initiative > combat.party_initiative {
            out.append("Monsters");
        } else {
            out.append("Simultaneous");
        }
        out.append(" acts first\n");
    }
    proof {
        assert(out@ =~= status_header_text(*combat));
    }
    out
}

fn append_party_status(out: &mut String, party: &[Character])
    ensures
        final(out)@ == old(out)@ + party_status_text(party@),
{
    let ghost head = out@;
    let mut i: usize = 0;
    while i < party.len()
        invariant
            i <= party@.len(),
            out@ == head + party_status_text(party@.take(i as int)),
        decreases party@.len() - i,
    {
        proof {
            assert(party@.take(i as int + 1).drop_last() =~= party@.take(i as int));
        }
        append_member_line(out, &party[i]);
        proof {
            assert(out@ =~= head + party_status_text(party@.take(i as int + 1)));
        }
        i = i + 1;
    }
    proof {
        assert(party@.take(i as int) =~= party@);
    }
}

fn append_monsters_status(out: &mut String, ms: &Vec<Monster>)
    ensures
        final(out)@ == old(out)@ + monsters_status_text(ms@, ms@.len() as int),
{
    let ghost head = out@;
    let mut j: usize = 0;
    while j < ms.len()
        invariant
            j <= ms@.len(),
            out@ == head + monsters_status_text(ms@, j as int),
        decreases ms@.len() - j,
    {
        append_monster_line(out, j, &ms[j]);
        proof {
            assert(out@ =~= head + monsters_status_text(ms@, j as int + 1));
        }
        j = j + 1;
    }
}

fn append_status_tail(out: &mut String, combat: &CombatState)
    ensures
        final(out)@ == old(out)@ + status_tail_text(*combat),
{
    let ghost head = out@;
    if combat.spell_declarations.len() > 0 {
        out.append("\nSpell declarations: ");
        append_names(out, &combat.spell_declarations);
        out.append("\n");
    }
    let ghost mid = out@;
    if combat.disrupted.len() > 0 {
        out.append("Disrupted: ");
        append_names(out, &combat.disrupted);
        out.append("\n");
    }
    proof {
        assert(out@ =~= head + status_tail_text(*combat));
    }
}

/// The status display of a combat: round, phase, distance, initiative, the
/// party and the monsters with their conditions, declared and disrupted
/// spells.
pub fn combat_status(combat: &CombatState, party: &[Character]) -> (r: String)
    ensures
        r@ == combat_status_text(*combat, party@),
{
    let mut out = status_header(combat);
    out.append("\nParty:\n");
    append_party_status(&mut out, party);
    out.append("\nMonsters:\n");
    append_monsters_status(&mut out, &combat.monsters);
    append_status_tail(&mut out, combat);
    proof {
        assert(out@ =~= combat_status_text(*combat, party@));
    }
    out
}

} // verus!
