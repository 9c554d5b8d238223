//! The game master's tools: experience, notes, retainers, hit points and rations.
pub mod actions;
pub mod results;

pub use actions::{
    action_add_note, action_add_rations, action_award_treasure_xp, action_award_xp, action_damage,
    action_delete_note, action_dismiss_retainer, action_heal, action_list_notes,
    action_list_retainers, action_ruling, action_set_hp, action_set_rations,
};
