//! What the encounter actions report back.
use vstd::prelude::*;

use crate::model::{Alignment, Class};
use crate::text::{append_int, append_nat, append_signed, int_text, nat_text, signed_text};

verus! {

/// Report of a surprise check.
#[derive(Clone, Debug)]
pub struct RollSurpriseResult {
    pub message: String,
    pub party_roll: u32,
    pub monster_roll: u32,
    pub result: String,
}

/// Terminal rendering of a surprise check.
pub open spec fn surprise_cli_text(r: RollSurpriseResult) -> Seq<char> {
    "Party roll: "@ + nat_text(r.party_roll as nat) + "  Monster roll: "@ + nat_text(
        r.monster_roll as nat,
    ) + "\n"@ + r.result@
}

/// One-line rendering of a surprise check.
pub open spec fn surprise_api_text(party_roll: nat, monster_roll: nat, result: Seq<char>) -> Seq<char> {
    "party roll: "@ + nat_text(party_roll) + " monster roll: "@ + nat_text(monster_roll) + " — "@
        + result
}

impl RollSurpriseResult {
    pub fn cli_message(&self) -> (r: String)
        ensures
            r@ == surprise_cli_text(*self),
    {
        let mut s = String::from_str("Party roll: ");
        append_nat(&mut s, self.party_roll as u64);
        s.append("  Monster roll: ");
        append_nat(&mut s, self.monster_roll as u64);
        s.append("\n");
        s.append(self.result.as_str());
        s
    }

    pub fn api_message(&self) -> (r: String)
        ensures
            r@ == surprise_api_text(self.party_roll as nat, self.monster_roll as nat, self.result@),
    {
        let mut s = String::from_str("party roll: ");
        append_nat(&mut s, self.party_roll as u64);
        s.append(" monster roll: ");
        append_nat(&mut s, self.monster_roll as u64);
        s.append(" — ");
        s.append(self.result.as_str());
        s
    }
}

/// Report of a reaction roll.
#[derive(Clone, Debug)]
pub struct RollReactionResult {
    pub message: String,
    pub character: String,
    pub charisma: i32,
    pub cha_modifier: i32,
    pub raw_roll: i32,
    pub modified_roll: i32,
    pub reaction: String,
}

/// Terminal rendering of a reaction roll.
pub open spec fn reaction_cli_text(r: RollReactionResult) -> Seq<char> {
    r.character@ + " speaks (CHA "@ + int_text(r.charisma as int) + ", modifier "@ + signed_text(
        r.cha_modifier as int,
    ) + ").\nReaction roll: "@ + int_text(r.raw_roll as int) + " (2d6) "@ + signed_text(
        r.cha_modifier as int,
    ) + " = "@ + int_text(r.modified_roll as int) + "\n"@ + r.reaction@
}

/// One-line rendering of a reaction roll.
pub open spec fn reaction_api_text(
    character: Seq<char>,
    charisma: int,
    cha_modifier: int,
    raw_roll: int,
    modified_roll: int,
    reaction: Seq<char>,
) -> Seq<char> {
    character + " speaks (CHA "@ + int_text(charisma) + ", modifier "@ + signed_text(cha_modifier)
        + "). reaction roll: "@ + int_text(raw_roll) + " "@ + signed_text(cha_modifier) + " = "@
        + int_text(modified_roll) + " — "@ + reaction
}

impl RollReactionResult {
    pub fn cli_message(&self) -> (r: String)
        ensures
            r@ == reaction_cli_text(*self),
    {
        let mut s = self.character.clone();
        s.append(" speaks (CHA ");
        append_int(&mut s, self.charisma as i64);
        s.append(", modifier ");
        append_signed(&mut s, self.cha_modifier as i64);
        s.append(").\nReaction roll: ");
        append_int(&mut s, self.raw_roll as i64);
        s.append(" (2d6) ");
        append_signed(&mut s, self.cha_modifier as i64);
        s.append(" = ");
        append_int(&mut s, self.modified_roll as i64);
        s.append("\n");
        s.append(self.reaction.as_str());
        s
    }

    pub fn api_message(&self) -> (r: String)
        ensures
            r@ == reaction_api_text(
                self.character@,
                self.charisma as int,
                self.cha_modifier as int,
                self.raw_roll as int,
                self.modified_roll as int,
                self.reaction@,
            ),
    {
        reaction_api_message(
            &self.character,
            self.charisma,
            self.cha_modifier,
            self.raw_roll,
            self.modified_roll,
            &self.reaction,
        )
    }
}

/// One-line rendering of a reaction roll.
pub fn reaction_api_message(
    character: &String,
    charisma: i32,
    cha_modifier: i32,
    raw_roll: i32,
    modified_roll: i32,
    reaction: &String,
) -> (r: String)
    ensures
        r@ == reaction_api_text(
            character@,
            charisma as int,
            cha_modifier as int,
            raw_roll as int,
            modified_roll as int,
            reaction@,
        ),
{
    let mut s = character.clone();
    s.append(" speaks (CHA ");
    append_int(&mut s, charisma as i64);
    s.append(", modifier ");
    append_signed(&mut s, cha_modifier as i64);
    s.append("). reaction roll: ");
    append_int(&mut s, raw_roll as i64);
    s.append(" ");
    append_signed(&mut s, cha_modifier as i64);
    s.append(" = ");
    append_int(&mut s, modified_roll as i64);
    s.append(" — ");
    s.append(reaction.as_str());
    s
}

/// Report of an attempt to evade an encounter.
#[derive(Clone, Debug)]
pub struct EvadeResult {
    pub message: String,
    pub escaped: bool,
    pub party_size: u32,
    pub party_movement: u32,
    pub monster_count: u32,
    pub monster_movement: u32,
}

/// Report of a rolled random encounter: where, the table roll and the
/// monster it gave, how many appear, surprise and distance.
#[derive(Clone, Debug)]
pub struct RollEncounterResult {
    pub message: String,
    /// `dungeon` or `wilderness`.
    pub context: String,
    pub level: Option<u32>,
    /// Name of the terrain, in the wilderness.
    pub terrain: Option<String>,
    pub table_roll: u32,
    pub monster_name: String,
    pub number_notation: String,
    pub number_appearing: i32,
    pub party_surprise_roll: u32,
    pub monster_surprise_roll: u32,
    pub surprise: String,
    pub distance: u32,
}

/// An entry of an encounter table: the monster and how many appear, as a
/// number or as dice.
#[derive(Clone, Debug)]
pub struct EncounterEntry {
    pub name: String,
    pub number: String,
}

/// One member of a party of adventurers met as an encounter.
#[derive(Clone, Debug)]
pub struct SpawnNpcPartyMemberInfo {
    pub class: Class,
    pub level: u32,
    pub alignment: Alignment,
    pub role: Option<String>,
}

/// Report of a party of adventurers met as an encounter.
#[derive(Clone, Debug)]
pub struct SpawnNpcPartyResult {
    pub message: String,
    pub party_type: String,
    pub member_count: usize,
    pub member_info: Vec<SpawnNpcPartyMemberInfo>,
    pub mounted: bool,
    pub notes: Vec<String>,
    pub status: String,
    pub distance: u32,
}

} // verus!
