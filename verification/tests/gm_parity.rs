//! The command-line and GM-interface paths of these management commands both
//! run the same engine action; each test runs that action once per path on
//! its own copy of the state and compares what the two copies end up as.
use ose_engine::engine::gm::actions::{
    action_add_note, action_award_treasure_xp, action_delete_note, action_list_notes, action_ruling,
};
use ose_engine::model::{AbilityScores, Character, Class};
use ose_engine::state::{GameMode, GameState};

#[derive(Debug, PartialEq)]
struct Summary {
    mode: GameMode,
    party: Vec<(String, u64, u32, u32, i32, i32)>,
    notes: Vec<String>,
}

fn summarize(state: &GameState) -> Summary {
    Summary {
        mode: state.mode,
        party: state
            .party
            .members
            .iter()
            .map(|c| (c.name.clone(), c.xp, c.level, c.gold_gp, c.hp, c.max_hp))
            .collect(),
        notes: state.notes.clone(),
    }
}

fn state_with_fighter() -> GameState {
    let mut state = GameState::new();
    let mut c = Character::new("Aldric", Class::Fighter);
    c.abilities = AbilityScores {
        strength: 16,
        intelligence: 10,
        wisdom: 10,
        dexterity: 10,
        constitution: 14,
        charisma: 10,
    };
    c.xp = 0;
    c.gold_gp = 500;
    c.hp = 8;
    c.max_hp = 8;
    state.party.add_member(c);
    state
}

fn state_with_notes() -> GameState {
    let mut state = GameState::new();
    state.notes.push("Clue one".to_string());
    state.notes.push("Clue two".to_string());
    state.notes.push("Clue three".to_string());
    state
}

#[test]
fn award_treasure_xp_parity() {
    let mut cli_state = state_with_fighter();
    let mut api_state = state_with_fighter();
    let cli = action_award_treasure_xp(&mut cli_state, "Aldric", 500, 100);
    let api = action_award_treasure_xp(&mut api_state, "Aldric", 500, 100);
    let cli = cli.expect("command-line award_treasure_xp should succeed");
    let api = api.expect("GM interface AwardTreasureXp should succeed");
    assert_eq!(summarize(&cli_state), summarize(&api_state));
    assert_eq!(cli.treasure_gp, 500);
    assert_eq!(cli.monster_xp, 100);
    assert_eq!(api.treasure_gp, 500);
    assert_eq!(api.monster_xp, 100);
    assert_eq!(cli.total_xp, api.total_xp);
}

#[test]
fn list_notes_parity() {
    let cli_state = state_with_notes();
    let api_state = state_with_notes();
    let cli = action_list_notes(&cli_state).expect("list_notes should succeed");
    let api = action_list_notes(&api_state).expect("ListNotes should succeed");
    assert_eq!(summarize(&cli_state), summarize(&api_state));
    assert!(cli.notes.iter().any(|n| n.text.contains("Clue one")));
    assert!(api.notes.iter().any(|n| n.text.contains("Clue one")));
}

#[test]
fn delete_note_parity() {
    let mut cli_state = state_with_notes();
    let mut api_state = state_with_notes();
    assert!(action_delete_note(&mut cli_state, 2).is_ok());
    assert!(action_delete_note(&mut api_state, 2).is_ok());
    assert_eq!(summarize(&cli_state), summarize(&api_state));
    assert_eq!(cli_state.notes.len(), 2);
}

#[test]
fn award_treasure_xp_error_parity() {
    let mut cli_state = GameState::new();
    let mut api_state = GameState::new();
    assert!(action_award_treasure_xp(&mut cli_state, "Nobody", 100, 50).is_err());
    assert!(action_award_treasure_xp(&mut api_state, "Nobody", 100, 50).is_err());
    assert_eq!(summarize(&cli_state), summarize(&api_state));
}

#[test]
fn delete_note_error_parity() {
    let mut cli_state = state_with_notes();
    let mut api_state = state_with_notes();
    assert!(action_delete_note(&mut cli_state, 99).is_err());
    assert!(action_delete_note(&mut api_state, 99).is_err());
    assert_eq!(summarize(&cli_state), summarize(&api_state));
    assert_eq!(summarize(&cli_state), summarize(&state_with_notes()));
}

#[test]
fn note_vs_ruling_intentional_divergence() {
    let text = "The bridge can hold 3 people";
    let mut cli_state = GameState::new();
    assert!(action_add_note(&mut cli_state, text).is_ok());
    let mut api_state = GameState::new();
    assert!(action_ruling(&mut api_state, text).is_ok());
    assert_eq!(cli_state.notes.len(), 1);
    assert_eq!(api_state.notes.len(), 1);
    assert_eq!(cli_state.notes[0], text, "CLI note: plain text");
    assert_eq!(api_state.notes[0], format!("[RULING] {}", text), "API ruling: prefixed");
}
