use ose_engine::engine::chargen::thac0;
use ose_engine::engine::encounter_engine::{EvasionResult, Reaction, SurpriseResult};
use ose_engine::engine::gm::actions::{action_add_rations, action_award_xp};
use ose_engine::model::{Character, Class};
use ose_engine::rules::CombatAptitude;
use ose_engine::state::GameState;

fn make_character_with_xp(name: &str, xp: u64) -> Character {
    let mut c = Character::new(name, Class::Fighter);
    c.xp = xp;
    c
}

#[test]
fn thac0_martial_level_1() {
    assert_eq!(thac0(CombatAptitude::Martial, 1), 19);
}

#[test]
fn thac0_martial_progression() {
    assert_eq!(thac0(CombatAptitude::Martial, 3), 19);
    assert_eq!(thac0(CombatAptitude::Martial, 4), 17);
    assert_eq!(thac0(CombatAptitude::Martial, 7), 14);
    assert_eq!(thac0(CombatAptitude::Martial, 10), 12);
    assert_eq!(thac0(CombatAptitude::Martial, 13), 10);
}

#[test]
fn thac0_semi_martial_progression() {
    assert_eq!(thac0(CombatAptitude::SemiMartial, 4), 19);
    assert_eq!(thac0(CombatAptitude::SemiMartial, 5), 17);
    assert_eq!(thac0(CombatAptitude::SemiMartial, 9), 14);
    assert_eq!(thac0(CombatAptitude::SemiMartial, 13), 12);
}

#[test]
fn thac0_non_martial_progression() {
    assert_eq!(thac0(CombatAptitude::NonMartial, 5), 19);
    assert_eq!(thac0(CombatAptitude::NonMartial, 6), 17);
    assert_eq!(thac0(CombatAptitude::NonMartial, 11), 14);
}

#[test]
fn reaction_hostile() {
    assert_eq!(Reaction::from_roll(2), Reaction::Hostile);
    assert_eq!(Reaction::from_roll(1), Reaction::Hostile);
}

#[test]
fn reaction_unfriendly() {
    assert_eq!(Reaction::from_roll(3), Reaction::Unfriendly);
    assert_eq!(Reaction::from_roll(5), Reaction::Unfriendly);
}

#[test]
fn reaction_uncertain() {
    assert_eq!(Reaction::from_roll(6), Reaction::Uncertain);
    assert_eq!(Reaction::from_roll(8), Reaction::Uncertain);
}

#[test]
fn reaction_indifferent() {
    assert_eq!(Reaction::from_roll(9), Reaction::Indifferent);
    assert_eq!(Reaction::from_roll(11), Reaction::Indifferent);
}

#[test]
fn reaction_friendly() {
    assert_eq!(Reaction::from_roll(12), Reaction::Friendly);
    assert_eq!(Reaction::from_roll(15), Reaction::Friendly);
}

#[test]
fn surprise_display() {
    let s = SurpriseResult::PartySurprises.to_string();
    assert!(s.contains("surprises"));
}

#[test]
fn reaction_display() {
    let s = Reaction::Hostile.to_string();
    assert!(s.contains("Hostile"));
}

#[test]
fn evasion_display() {
    let auto = EvasionResult::auto_escape();
    assert!(auto.to_string().contains("evades"));
    assert!(auto.to_string().contains("automatic escape"));

    let rolled_ok = EvasionResult::from_roll(30, 50);
    assert!(rolled_ok.to_string().contains("evades"));
    assert!(rolled_ok.to_string().contains("rolled 30 vs 50%"));

    let rolled_fail = EvasionResult::from_roll(80, 50);
    assert!(rolled_fail.to_string().contains("fails"));
    assert!(rolled_fail.to_string().contains("rolled 80 vs 50%"));
}

#[test]
fn award_xp_normal_addition() {
    let mut state = GameState::new();
    state.party.add_member(make_character_with_xp("Aldric", 100));
    let result = action_award_xp(&mut state, "Aldric", 50, false).unwrap();
    assert_eq!(result.total_xp, 150);
    assert_eq!(state.party.find_member("Aldric").unwrap().xp, 150);
}

#[test]
fn award_xp_near_max_no_overflow() {
    let mut state = GameState::new();
    state.party.add_member(make_character_with_xp("Aldric", u64::MAX - 10));
    let result = action_award_xp(&mut state, "Aldric", 10, false).unwrap();
    assert_eq!(result.total_xp, u64::MAX);
    assert_eq!(state.party.find_member("Aldric").unwrap().xp, u64::MAX);
}

#[test]
fn add_rations_normal_addition() {
    let mut state = GameState::new();
    state.party.rations = 5;
    let result = action_add_rations(&mut state, 3).unwrap();
    assert_eq!(result.rations, 8);
    assert_eq!(state.party.rations, 8);
}

#[test]
fn add_rations_near_max_no_overflow() {
    let mut state = GameState::new();
    state.party.rations = u32::MAX - 10;
    let result = action_add_rations(&mut state, 10).unwrap();
    assert_eq!(result.rations, u32::MAX);
    assert_eq!(state.party.rations, u32::MAX);
}

#[test]
fn add_rations_zero_rejected() {
    let mut state = GameState::new();
    state.party.rations = 5;
    let result = action_add_rations(&mut state, 0);
    assert!(result.is_err());
}
