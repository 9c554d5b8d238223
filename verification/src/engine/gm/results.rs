//! What the game master's tools report back.
use vstd::prelude::*;

use crate::model::Class;
use crate::rules::save::SavingThrows;

verus! {

/// Report of experience awarded to a character.
#[derive(Clone, Debug)]
pub struct AwardXpResult {
    pub character: String,
    pub base_xp: u64,
    pub adjusted_xp: u64,
    pub modifier_pct: i32,
    pub total_xp: u64,
    pub next_level_xp: Option<u64>,
    pub ready_to_train: bool,
}

/// Report of a ruling recorded in the notes.
#[derive(Clone, Debug)]
pub struct RulingResult {
    pub text: String,
    pub note: String,
}

/// One note with its position, counted from 1.
#[derive(Clone, Debug)]
pub struct NoteEntry {
    pub index: usize,
    pub text: String,
}

/// The session notes.
#[derive(Clone, Debug)]
pub struct ListNotesResult {
    pub notes: Vec<NoteEntry>,
}

/// Report of a deleted note.
#[derive(Clone, Debug)]
pub struct DeleteNoteResult {
    pub index: usize,
    pub deleted: String,
}

/// One retainer in the retainer list.
#[derive(Clone, Debug)]
pub struct RetainerSummary {
    pub name: String,
    pub class: Class,
    pub level: u32,
    pub hp: i32,
    pub max_hp: i32,
    pub loyalty: u32,
    pub wage_gp: u32,
    pub alive: bool,
}

/// The retainers of the party.
#[derive(Clone, Debug)]
pub struct ListRetainersResult {
    pub retainers: Vec<RetainerSummary>,
}

/// Report of a dismissed retainer.
#[derive(Clone, Debug)]
pub struct DismissRetainerResult {
    pub name: String,
    pub class: Class,
}

/// Report of healing a character.
#[derive(Clone, Debug)]
pub struct HealResult {
    pub character: String,
    pub healed: i32,
    pub old_hp: i32,
    pub hp: i32,
    pub max_hp: i32,
}

/// Report of damage dealt to a character.
#[derive(Clone, Debug)]
pub struct DamageResult {
    pub character: String,
    pub damage: i32,
    pub old_hp: i32,
    pub hp: i32,
    pub max_hp: i32,
    pub alive: bool,
    pub status: String,
}

/// Report of setting a character's hit points.
#[derive(Clone, Debug)]
pub struct SetHpResult {
    pub character: String,
    pub old_hp: i32,
    pub hp: i32,
    pub max_hp: i32,
    pub alive: bool,
    pub status: String,
}

/// Report of setting the party's rations.
#[derive(Clone, Debug)]
pub struct SetRationsResult {
    pub old_rations: u32,
    pub rations: u32,
}

/// Report of adding rations.
#[derive(Clone, Debug)]
pub struct AddRationsResult {
    pub added: u32,
    pub rations: u32,
}

/// Report of a note added.
#[derive(Clone, Debug)]
pub struct AddNoteResult {
    pub text: String,
}

/// Report of treasure and monster experience awarded to a character.
#[derive(Clone, Debug)]
pub struct AwardTreasureXpResult {
    pub character: String,
    pub treasure_gp: u64,
    pub monster_xp: u64,
    pub base_xp: u64,
    pub modifier_pct: i32,
    pub adjusted_xp: u64,
    pub total_xp: u64,
    pub ready_to_train: bool,
}

/// Report of a character trained to a new level.
#[derive(Clone, Debug)]
pub struct TrainResult {
    pub character: String,
    pub new_level: u32,
    pub cost_gp: u32,
    pub gold_remaining: u32,
    pub hp_gained: i32,
    pub old_hp: i32,
    pub new_hp: i32,
    pub old_thac0: u32,
    pub new_thac0: u32,
    pub old_saves: Option<SavingThrows>,
    pub new_saves: SavingThrows,
    pub old_spell_slots: [u32; 6],
    pub new_spell_slots: [u32; 6],
    pub has_thief_skills: bool,
    pub spell_list_name: String,
    pub gained_first_spells: bool,
    pub ready_for_next: bool,
    pub next_cost: Option<u32>,
}

/// Report of a thief skill check.
#[derive(Clone, Debug)]
pub struct ThiefSkillCheckResult {
    pub message: String,
    pub character: String,
    pub skill: String,
    pub level: u32,
    pub target: u32,
    pub roll: u32,
    pub die_type: String,
    pub success: bool,
}

} // verus!
