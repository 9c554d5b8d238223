//! Encounter procedures: surprise, encounter distance, reactions and evasion.
use vstd::prelude::*;

use crate::dice::random_between;
use crate::rules::{cha_reaction, cha_reaction_mod};
use crate::text::{append_nat, nat_text};

verus! {

/// Outcome of a surprise check.
#[derive(Clone, Copy, Debug, PartialEq, Eq, Structural)]
pub enum SurpriseResult {
    /// Neither side is surprised.
    Neither,
    /// The party surprises the monsters.
    PartySurprises,
    /// The monsters surprise the party.
    MonstersSurprise,
    /// Both sides are surprised.
    BothSurprised,
}

/// Description of a surprise outcome.
pub open spec fn surprise_text(s: SurpriseResult) -> Seq<char> {
    match s {
        SurpriseResult::Neither => "Neither side is surprised."@,
        SurpriseResult::PartySurprises => "The party surprises the monsters! Party gets a free round."@,
        SurpriseResult::MonstersSurprise => "The monsters surprise the party! Monsters get a free round."@,
        SurpriseResult::BothSurprised => "Both sides are surprised! A moment of mutual confusion."@,
    }
}

impl SurpriseResult {
    pub fn to_string(&self) -> (r: String)
        ensures
            r@ == surprise_text(*self),
    {
        match self {
            SurpriseResult::Neither => String::from_str("Neither side is surprised."),
            SurpriseResult::PartySurprises => String::from_str(
                "The party surprises the monsters! Party gets a free round.",
            ),
            SurpriseResult::MonstersSurprise => String::from_str(
                "The monsters surprise the party! Monsters get a free round.",
            ),
            SurpriseResult::BothSurprised => String::from_str(
                "Both sides are surprised! A moment of mutual confusion.",
            ),
        }
    }
}

/// Surprise from the two d6 rolls: a side rolling 1 or 2 is surprised.
pub open spec fn surprise_of(party_roll: int, monster_roll: int) -> SurpriseResult {
    let party_surprised = party_roll <= 2;
    let monsters_surprised = monster_roll <= 2;
    if party_surprised && monsters_surprised {
        SurpriseResult::BothSurprised
    } else if party_surprised {
        SurpriseResult::MonstersSurprise
    } else if monsters_surprised {
        SurpriseResult::PartySurprises
    } else {
        SurpriseResult::Neither
    }
}

/// The surprise outcome of the party's and the monsters' d6 rolls.
pub fn surprise_outcome(party_roll: u32, monster_roll: u32) -> (r: SurpriseResult)
    ensures
        r == surprise_of(party_roll as int, monster_roll as int),
{
    let party_surprised = party_roll <= 2;
    let monsters_surprised = monster_roll <= 2;
    if party_surprised && monsters_surprised {
        SurpriseResult::BothSurprised
    } else if party_surprised {
        SurpriseResult::MonstersSurprise
    } else if monsters_surprised {
        SurpriseResult::PartySurprises
    } else {
        SurpriseResult::Neither
    }
}

/// Checks for surprise: each side rolls a d6. Returns the outcome with the
/// party's and the monsters' rolls.
pub fn check_surprise() -> (r: (SurpriseResult, u32, u32))
    ensures
        1 <= r.1 <= 6,
        1 <= r.2 <= 6,
        r.0 == surprise_of(r.1 as int, r.2 as int),
{
    let party_roll = random_between(1, 6);
    let monster_roll = random_between(1, 6);
    (surprise_outcome(party_roll, monster_roll), party_roll, monster_roll)
}

/// Dungeon encounter distance in feet: 2d6 × 10, or 1d4 × 10 when a side is
/// surprised.
pub fn encounter_distance_dungeon(surprised: bool) -> (r: u32)
    ensures
        surprised ==> 10 <= r <= 40 && r % 10 == 0,
        !surprised ==> 20 <= r <= 120 && r % 10 == 0,
{
    if surprised {
        random_between(1, 4) * 10
    } else {
        (random_between(1, 6) + random_between(1, 6)) * 10
    }
}

/// Wilderness encounter distance in yards: 4d6 × 10, or 1d4 × 10 when a side
/// is surprised.
pub fn encounter_distance_wilderness(surprised: bool) -> (r: u32)
    ensures
        surprised ==> 10 <= r <= 40 && r % 10 == 0,
        !surprised ==> 40 <= r <= 240 && r % 10 == 0,
{
    if surprised {
        random_between(1, 4) * 10
    } else {
        let mut total: u32 = 0;
        let mut i: u32 = 0;
        while i < 4
            invariant
                i <= 4,
                i <= total <= 6 * i,
            decreases 4 - i,
        {
            total = total + random_between(1, 6);
            i = i + 1;
        }
        total * 10
    }
}

/// How a monster or NPC reacts to the party.
#[derive(Clone, Copy, Debug, PartialEq, Eq, Structural)]
pub enum Reaction {
    /// 2 or less: immediate attack.
    Hostile,
    /// 3-5: may attack.
    Unfriendly,
    /// 6-8: hesitates.
    Uncertain,
    /// 9-11: no attack, may negotiate.
    Indifferent,
    /// 12 or more: enthusiastically friendly.
    Friendly,
}

/// The reaction for a modified 2d6 roll.
pub open spec fn reaction_of(roll: int) -> Reaction {
    if roll <= 2 {
        Reaction::Hostile
    } else if roll <= 5 {
        Reaction::Unfriendly
    } else if roll <= 8 {
        Reaction::Uncertain
    } else if roll <= 11 {
        Reaction::Indifferent
    } else {
        Reaction::Friendly
    }
}

/// Description of a reaction.
pub open spec fn reaction_text(r: Reaction) -> Seq<char> {
    match r {
        Reaction::Hostile => "Hostile — immediate attack!"@,
        Reaction::Unfriendly => "Unfriendly — may attack if provoked."@,
        Reaction::Uncertain => "Uncertain — monster hesitates."@,
        Reaction::Indifferent => "Indifferent — no attack, may negotiate."@,
        Reaction::Friendly => "Friendly — enthusiastically well-disposed."@,
    }
}

/// Rank of a reaction, from hostile (0) to friendly (4).
pub open spec fn reaction_rank(r: Reaction) -> int {
    match r {
        Reaction::Hostile => 0,
        Reaction::Unfriendly => 1,
        Reaction::Uncertain => 2,
        Reaction::Indifferent => 3,
        Reaction::Friendly => 4,
    }
}

impl Reaction {
    /// The reaction for a modified 2d6 roll.
    pub fn from_roll(modified_roll: i32) -> (r: Reaction)
        ensures
            r == reaction_of(modified_roll as int),
    {
        if modified_roll <= 2 {
            Reaction::Hostile
        } else if modified_roll <= 5 {
            Reaction::Unfriendly
        } else if modified_roll <= 8 {
            Reaction::Uncertain
        } else if modified_roll <= 11 {
            Reaction::Indifferent
        } else {
            Reaction::Friendly
        }
    }

    pub fn to_string(&self) -> (r: String)
        ensures
            r@ == reaction_text(*self),
    {
        match self {
            Reaction::Hostile => String::from_str("Hostile — immediate attack!"),
            Reaction::Unfriendly => String::from_str("Unfriendly — may attack if provoked."),
            Reaction::Uncertain => String::from_str("Uncertain — monster hesitates."),
            Reaction::Indifferent => String::from_str("Indifferent — no attack, may negotiate."),
            Reaction::Friendly => String::from_str("Friendly — enthusiastically well-disposed."),
        }
    }
}

/// A better roll never gives a worse reaction.
pub proof fn lemma_reaction_monotone(a: int, b: int)
    requires
        a <= b,
    ensures
        reaction_rank(reaction_of(a)) <= reaction_rank(reaction_of(b)),
{
}

/// Rolls a reaction check: 2d6 plus the speaker's CHA modifier. Returns the
/// reaction, the raw roll and the modified roll.
pub fn reaction_roll(cha_score: i32) -> (r: (Reaction, i32, i32))
    ensures
        2 <= r.1 <= 12,
        r.2 == r.1 + cha_reaction(cha_score as int),
        r.0 == reaction_of(r.2 as int),
{
    let cha_mod = cha_reaction_mod(cha_score);
    let raw = (random_between(1, 6) + random_between(1, 6)) as i32;
    let modified = raw + cha_mod;
    (Reaction::from_roll(modified), raw, modified)
}

/// Outcome of an attempt to evade an encounter.
#[derive(Clone, Copy, Debug, PartialEq, Eq, Structural)]
pub struct EvasionResult {
    pub escaped: bool,
    /// The d100 roll, when one was needed.
    pub roll: Option<i32>,
    /// The chance in percent, when a roll was needed.
    pub chance: Option<i32>,
}

/// Description of an evasion attempt.
pub open spec fn evasion_text(e: EvasionResult) -> Seq<char> {
    match (e.roll, e.chance) {
        (None, _) => if e.escaped {
            "The party successfully evades the encounter! (party faster — automatic escape)"@
        } else {
            "Evasion result: escaped=false"@
        },
        (Some(roll), Some(chance)) => if e.escaped {
            "The party successfully evades the encounter! (rolled "@ + crate::text::int_text(
                roll as int,
            ) + " vs "@ + crate::text::int_text(chance as int) + "%)"@
        } else {
            "Evasion fails! The monsters catch up to the party. (rolled "@ + crate::text::int_text(
                roll as int,
            ) + " vs "@ + crate::text::int_text(chance as int) + "%)"@
        },
        (Some(_), None) => if e.escaped {
            "Evasion result: escaped=true"@
        } else {
            "Evasion result: escaped=false"@
        },
    }
}

impl EvasionResult {
    /// An escape without a roll (the party is faster).
    pub fn auto_escape() -> (r: EvasionResult)
        ensures
            r == (EvasionResult { escaped: true, roll: None, chance: None }),
    {
        EvasionResult { escaped: true, roll: None, chance: None }
    }

    /// An escape attempt decided by a d100 roll against a chance.
    pub fn from_roll(roll: i32, chance: i32) -> (r: EvasionResult)
        ensures
            r == (EvasionResult { escaped: roll <= chance, roll: Some(roll), chance: Some(chance) }),
    {
        EvasionResult { escaped: roll <= chance, roll: Some(roll), chance: Some(chance) }
    }

    pub fn to_string(&self) -> (r: String)
        ensures
            r@ == evasion_text(*self),
    {
        match (self.roll, self.chance) {
            (None, _) => if self.escaped {
                String::from_str(
                    "The party successfully evades the encounter! (party faster — automatic escape)",
                )
            } else {
                String::from_str("Evasion result: escaped=false")
            },
            (Some(roll), Some(chance)) => {
                let mut s = if self.escaped {
                    String::from_str("The party successfully evades the encounter! (rolled ")
                } else {
                    String::from_str("Evasion fails! The monsters catch up to the party. (rolled ")
                };
                crate::text::append_int(&mut s, roll as i64);
                s.append(" vs ");
                crate::text::append_int(&mut s, chance as i64);
                s.append("%)");
                s
            },
            (Some(_), None) => if self.escaped {
                String::from_str("Evasion result: escaped=true")
            } else {
                String::from_str("Evasion result: escaped=false")
            },
        }
    }
}

/// Chance in percent to evade: by party size, higher when the monsters do
/// not outnumber the party.
pub open spec fn evasion_chance_of(party_size: u32, monster_count: u32) -> i32 {
    let fewer = monster_count <= party_size;
    if party_size <= 4 {
        if fewer {
            70
        } else {
            50
        }
    } else if party_size <= 12 {
        if fewer {
            50
        } else {
            35
        }
    } else if party_size <= 24 {
        if fewer {
            35
        } else {
            25
        }
    } else {
        if fewer {
            25
        } else {
            10
        }
    }
}

/// The evasion chance table.
pub fn evasion_chance(party_size: u32, monster_count: u32) -> (r: i32)
    ensures
        r == evasion_chance_of(party_size, monster_count),
{
    let fewer = monster_count <= party_size;
    if party_size <= 4 {
        if fewer {
            70
        } else {
            50
        }
    } else if party_size <= 12 {
        if fewer {
            50
        } else {
            35
        }
    } else if party_size <= 24 {
        if fewer {
            35
        } else {
            25
        }
    } else {
        if fewer {
            25
        } else {
            10
        }
    }
}

/// Attempts to evade an encounter: a faster party always escapes; otherwise
/// a d100 roll at or under the table chance escapes.
pub fn attempt_evasion(
    party_size: u32,
    party_movement: u32,
    monster_count: u32,
    monster_movement: u32,
) -> (r: EvasionResult)
    ensures
        party_movement > monster_movement ==> r == (EvasionResult {
            escaped: true,
            roll: None,
            chance: None,
        }),
        party_movement <= monster_movement ==> {
            &&& r.chance == Some(evasion_chance_of(party_size, monster_count))
            &&& r.roll matches Some(roll) && 1 <= roll <= 100 && r.escaped == (roll <= r.chance->0)
        },
{
    if party_movement > monster_movement {
        return EvasionResult::auto_escape();
    }
    let chance = evasion_chance(party_size, monster_count);
    let roll = random_between(1, 100) as i32;
    EvasionResult::from_roll(roll, chance)
}

/// The opening of an encounter: surprise and distance, with the messages
/// announcing them.
#[derive(Clone, Debug)]
pub struct EncounterSequence {
    pub surprise: SurpriseResult,
    pub party_surprise_roll: u32,
    pub monster_surprise_roll: u32,
    pub distance: u32,
    pub messages: Vec<String>,
}

/// Whether exactly one side is surprised (which shortens the distance).
pub open spec fn one_side_surprised(s: SurpriseResult) -> bool {
    s == SurpriseResult::MonstersSurprise || s == SurpriseResult::PartySurprises
}

/// Message announcing the surprise rolls.
pub open spec fn surprise_rolls_text(party: nat, monsters: nat) -> Seq<char> {
    "Surprise: party rolled "@ + nat_text(party) + ", monsters rolled "@ + nat_text(monsters) + "."@
}

fn surprise_rolls_message(party: u32, monsters: u32) -> (r: String)
    ensures
        r@ == surprise_rolls_text(party as nat, monsters as nat),
{
    let mut s = String::from_str("Surprise: party rolled ");
    append_nat(&mut s, party as u64);
    s.append(", monsters rolled ");
    append_nat(&mut s, monsters as u64);
    s.append(".");
    s
}

impl EncounterSequence {
    /// The messages, one per line.
    pub fn to_string(&self) -> (r: String)
        ensures
            r@ == crate::engine::combat::attack::join_text(
                crate::state::effect::texts(self.messages@),
                "\n"@,
            ) + if self.messages@.len() > 0 {
                "\n"@
            } else {
                Seq::<char>::empty()
            },
    {
        let mut s = String::new();
        crate::engine::combat::status::append_joined(&mut s, &self.messages, "\n");
        if self.messages.len() > 0 {
            s.append("\n");
        }
        s
    }
}

/// Begins a dungeon encounter: surprise, then the distance in feet.
pub fn begin_encounter_dungeon() -> (r: EncounterSequence)
    ensures
        1 <= r.party_surprise_roll <= 6,
        1 <= r.monster_surprise_roll <= 6,
        r.surprise == surprise_of(r.party_surprise_roll as int, r.monster_surprise_roll as int),
        one_side_surprised(r.surprise) ==> 10 <= r.distance <= 40,
        !one_side_surprised(r.surprise) ==> 20 <= r.distance <= 120,
        r.messages@.len() == 3,
        r.messages@[0]@ == surprise_rolls_text(r.party_surprise_roll as nat, r.monster_surprise_roll as nat),
        r.messages@[1]@ == surprise_text(r.surprise),
        r.messages@[2]@ == "Encounter distance: "@ + nat_text(r.distance as nat) + "' feet."@,
{
    let (surprise, p_roll, m_roll) = check_surprise();
    let surprised = surprise == SurpriseResult::MonstersSurprise || surprise == SurpriseResult::PartySurprises;
    let distance = encounter_distance_dungeon(surprised);
    let mut messages: Vec<String> = Vec::new();
    messages.push(surprise_rolls_message(p_roll, m_roll));
    messages.push(surprise.to_string());
    let mut d = String::from_str("Encounter distance: ");
    append_nat(&mut d, distance as u64);
    d.append("' feet.");
    messages.push(d);
    EncounterSequence {
        surprise,
        party_surprise_roll: p_roll,
        monster_surprise_roll: m_roll,
        distance,
        messages,
    }
}

/// Begins a wilderness encounter: surprise, then the distance in yards.
pub fn begin_encounter_wilderness() -> (r: EncounterSequence)
    ensures
        1 <= r.party_surprise_roll <= 6,
        1 <= r.monster_surprise_roll <= 6,
        r.surprise == surprise_of(r.party_surprise_roll as int, r.monster_surprise_roll as int),
        one_side_surprised(r.surprise) ==> 10 <= r.distance <= 40,
        !one_side_surprised(r.surprise) ==> 40 <= r.distance <= 240,
        r.messages@.len() == 3,
        r.messages@[0]@ == surprise_rolls_text(r.party_surprise_roll as nat, r.monster_surprise_roll as nat),
        r.messages@[1]@ == surprise_text(r.surprise),
        r.messages@[2]@ == "Encounter distance: "@ + nat_text(r.distance as nat) + " yards."@,
{
    let (surprise, p_roll, m_roll) = check_surprise();
    let surprised = surprise == SurpriseResult::MonstersSurprise || surprise == SurpriseResult::PartySurprises;
    let distance = encounter_distance_wilderness(surprised);
    let mut messages: Vec<String> = Vec::new();
    messages.push(surprise_rolls_message(p_roll, m_roll));
    messages.push(surprise.to_string());
    let mut d = String::from_str("Encounter distance: ");
    append_nat(&mut d, distance as u64);
    d.append(" yards.");
    messages.push(d);
    EncounterSequence {
        surprise,
        party_surprise_roll: p_roll,
        monster_surprise_roll: m_roll,
        distance,
        messages,
    }
}

/// The evasion chance goes by the size of the party and by whether the
/// monsters outnumber it: as many monsters as party members count as not
/// outnumbering it, every count up to the party's size gives the same
/// chance, every larger count the same lower chance.
pub proof fn lemma_evasion_by_outnumbering(p: u32, m1: u32, m2: u32)
    ensures
        m1 <= p && m2 <= p ==> evasion_chance_of(p, m1) == evasion_chance_of(p, m2),
        m1 > p && m2 > p ==> evasion_chance_of(p, m1) == evasion_chance_of(p, m2),
        m1 <= p && m2 > p ==> evasion_chance_of(p, m2) < evasion_chance_of(p, m1),
        evasion_chance_of(p, p) == evasion_chance_of(p, 0),
        p < u32::MAX ==> evasion_chance_of(p, p) > evasion_chance_of(p, (p + 1) as u32),
{
}

/// A larger party escapes less easily: the chance never rises with the
/// party's size when the monsters keep the same side of it.
pub proof fn lemma_evasion_larger_party(p1: u32, p2: u32, m: u32)
    requires
        p1 <= p2,
        (m <= p1) == (m <= p2),
    ensures
        evasion_chance_of(p2, m) <= evasion_chance_of(p1, m),
{
}

/// Each side is surprised exactly when its own d6 shows 1 or 2, whatever
/// the other side rolled.
pub proof fn lemma_surprise_by_side(party_roll: int, monster_roll: int)
    ensures
        (surprise_of(party_roll, monster_roll) is MonstersSurprise || surprise_of(party_roll, monster_roll) is BothSurprised)
            <==> party_roll <= 2,
        (surprise_of(party_roll, monster_roll) is PartySurprises || surprise_of(party_roll, monster_roll) is BothSurprised)
            <==> monster_roll <= 2,
{
}

} // verus!
