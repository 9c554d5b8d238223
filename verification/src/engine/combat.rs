//! Combat engine: the round sequence of declarations, initiative, morale,
//! movement, missile fire, magic and melee.
use vstd::prelude::*;

pub mod actions;
pub mod attack;
pub mod initiative;
pub mod morale;
pub mod movement;
pub mod results;
pub mod spawn;
pub mod status;
pub mod turn_undead;

pub use attack::{coup_de_grace, resolve_character_attack, set_monster_helpless};
pub use initiative::{declare_spell, is_disrupted, roll_initiative};
pub use morale::check_morale;
pub use movement::{announce_retreat, close, fighting_withdrawal, retreat};
pub use status::combat_status;
pub use turn_undead::{TurnUndeadResult, resolve_turn_undead};

verus! {

} // verus!
