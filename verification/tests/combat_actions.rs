use ose_engine::engine::combat::actions::{
    action_attack, action_backstab, action_cast_spell, action_combat_status, action_declare_spell,
    action_end_combat, action_fighting_withdrawal, action_monster_attack, action_morale,
    action_roll_initiative, action_set_helpless,
};
use ose_engine::model::{
    ActiveEffect, Character, Class, CombatPhase, CombatState, EffectDuration, HitDice, Monster,
    MonsterAttackRoutine,
};
use ose_engine::state::dungeon::{DungeonState, Room};
use ose_engine::state::effect::next_effect_id;
use ose_engine::state::{GameMode, GameState};

fn test_fighter() -> Character {
    let mut c = Character::new("Grond", Class::Fighter);
    c.hp = 12;
    c.max_hp = 12;
    c.ac = 4;
    c.level = 2;
    c.abilities.strength = 16;
    c
}

fn mk_monster(name: &str, hd: u32, hp: i32, ac: i32, morale: u32) -> Monster {
    let mut monster = Monster::new(name, HitDice::new(hd, 0));
    monster.hp = hp;
    monster.max_hp = hp;
    monster.ac = ac;
    monster.damage = "1d6".to_string();
    monster.morale = morale;
    monster.xp_value = 5;
    monster.attacks = vec!["weapon".to_string()];
    monster
}

fn state_with(members: Vec<Character>, monsters: Vec<Monster>, distance: u32) -> GameState {
    let mut state = GameState::new();
    for m in members {
        state.party.add_member(m);
    }
    state.mode = GameMode::Combat;
    state.pre_combat_mode = Some(GameMode::Idle);
    state.combat = Some(CombatState::new(monsters, distance));
    state
}

fn state_with_combat() -> GameState {
    state_with(
        vec![test_fighter()],
        vec![mk_monster("Goblin 1", 1, 4, 6, 7), mk_monster("Goblin 2", 1, 4, 6, 7)],
        60,
    )
}

fn state_with_melee_combat() -> GameState {
    state_with(
        vec![test_fighter()],
        vec![mk_monster("Goblin 1", 1, 4, 6, 7), mk_monster("Goblin 2", 1, 4, 6, 7)],
        5,
    )
}

fn state_with_caster_combat() -> GameState {
    let mut caster = Character::new("Zara", Class::MagicUser);
    caster.hp = 6;
    caster.max_hp = 6;
    caster.level = 3;
    state_with(vec![caster], vec![mk_monster("Goblin 1", 1, 4, 6, 7)], 60)
}

fn level_one_caster_state() -> GameState {
    let mut caster = Character::new("Zara", Class::MagicUser);
    caster.hp = 6;
    caster.max_hp = 6;
    caster.level = 1;
    state_with(vec![caster], vec![mk_monster("Goblin 1", 1, 4, 6, 7)], 60)
}

fn err_text<T>(r: Result<T, ose_engine::state::EngineError>) -> String {
    match r {
        Ok(_) => panic!("expected an error"),
        Err(e) => e.to_string(),
    }
}

// --- combat status ---

#[test]
fn combat_status_returns_status_string() {
    let state = state_with_combat();
    let result = action_combat_status(&state).unwrap();
    assert!(!result.status.is_empty());
    assert!(result.status.contains("Goblin 1"));
    assert!(result.status.contains("Goblin 2"));
    assert!(result.status.contains("Grond"));
    assert!(result.status.contains("60'"));
}

#[test]
fn combat_status_no_combat_error() {
    let state = GameState::new();
    let result = action_combat_status(&state);
    assert!(result.is_err());
}

// --- set helpless ---

#[test]
fn actions_set_helpless_marks_monster() {
    let mut state = state_with_combat();
    let result = action_set_helpless(&mut state, 0, true).unwrap();
    assert!(result.helpless);
    assert_eq!(result.monster_idx, 0);
    assert!(result.message.contains("helpless"));
    assert!(state.combat.as_ref().unwrap().monsters[0].helpless);
}

#[test]
fn actions_set_helpless_unmarks_monster() {
    let mut state = state_with_combat();
    state.combat.as_mut().unwrap().monsters[0].helpless = true;
    let result = action_set_helpless(&mut state, 0, false).unwrap();
    assert!(!result.helpless);
    assert!(result.message.contains("no longer helpless"));
    assert!(!state.combat.as_ref().unwrap().monsters[0].helpless);
}

#[test]
fn set_helpless_no_combat_error() {
    let mut state = GameState::new();
    let result = action_set_helpless(&mut state, 0, true);
    assert!(result.is_err());
}

#[test]
fn set_helpless_dead_monster_error() {
    let mut state = state_with_combat();
    state.combat.as_mut().unwrap().monsters[0].hp = 0;
    let result = action_set_helpless(&mut state, 0, true);
    assert!(result.is_err());
}

#[test]
fn set_helpless_out_of_range_error() {
    let mut state = state_with_combat();
    let result = action_set_helpless(&mut state, 99, true);
    assert!(result.is_err());
}

// --- initiative guard ---

#[test]
fn roll_initiative_twice_without_action_is_rejected() {
    let mut state = state_with_combat();
    let result = action_roll_initiative(&mut state);
    assert!(result.is_ok());
    assert_eq!(state.combat.as_ref().unwrap().round, 1);
    let err = err_text(action_roll_initiative(&mut state));
    assert!(err.contains("initiative already rolled"), "expected initiative guard, got: {}", err);
    assert_eq!(state.combat.as_ref().unwrap().round, 1);
}

#[test]
fn roll_initiative_allowed_after_attack() {
    let mut state = state_with_melee_combat();
    assert!(action_roll_initiative(&mut state).is_ok());
    let attack_result = action_attack(&mut state, "Grond", 0, "Sword");
    assert!(attack_result.is_ok(), "attack failed: {:?}", attack_result.err());
    let result = action_roll_initiative(&mut state);
    assert!(result.is_ok(), "second initiative failed: {:?}", result.err());
    assert_eq!(state.combat.as_ref().unwrap().round, 2);
}

#[test]
fn roll_initiative_allowed_after_monster_attack() {
    let mut state = state_with_melee_combat();
    assert!(action_roll_initiative(&mut state).is_ok());
    let attack_result = action_monster_attack(&mut state, 0, "Grond");
    assert!(attack_result.is_ok(), "monster attack failed: {:?}", attack_result.err());
    let result = action_roll_initiative(&mut state);
    assert!(result.is_ok(), "second initiative failed: {:?}", result.err());
    assert_eq!(state.combat.as_ref().unwrap().round, 2);
}

#[test]
fn roll_initiative_reports_winner() {
    let mut state = state_with_combat();
    let result = action_roll_initiative(&mut state).unwrap();
    assert_eq!(result.round, 1);
    assert!(result.message.starts_with("round 1 initiative: party "));
    let expected = if result.party_initiative > result.monster_initiative {
        "party"
    } else if result.monster_initiative > result.party_initiative {
        "monsters"
    } else {
        "simultaneous"
    };
    assert_eq!(result.winner.as_str(), expected);
    assert_eq!(state.combat.as_ref().unwrap().phase, CombatPhase::Morale);
}

// --- monster attack guards ---

#[test]
fn monster_attack_twice_same_round_is_rejected() {
    let mut state = state_with_melee_combat();
    let _ = action_roll_initiative(&mut state);
    assert!(action_monster_attack(&mut state, 0, "Grond").is_ok(), "first monster attack should succeed");
    let err = err_text(action_monster_attack(&mut state, 0, "Grond"));
    assert!(err.contains("already used all"), "expected 'already used all attacks' guard, got: {}", err);
}

#[test]
fn different_monsters_can_attack_same_round() {
    let mut state = state_with_melee_combat();
    let _ = action_roll_initiative(&mut state);
    assert!(action_monster_attack(&mut state, 0, "Grond").is_ok(), "monster 0 attack should succeed");
    assert!(action_monster_attack(&mut state, 1, "Grond").is_ok(), "monster 1 attack should succeed");
}

#[test]
fn monster_attack_allowed_after_new_round() {
    let mut state = state_with_melee_combat();
    let _ = action_roll_initiative(&mut state);
    assert!(action_monster_attack(&mut state, 0, "Grond").is_ok());
    let _ = action_roll_initiative(&mut state);
    let result = action_monster_attack(&mut state, 0, "Grond");
    assert!(result.is_ok(), "monster should be allowed to attack in new round");
}

#[test]
fn turned_monster_cannot_attack() {
    let mut state = state_with_melee_combat();
    let _ = action_roll_initiative(&mut state);
    state.combat.as_mut().unwrap().monsters[0].turned = true;
    let err = err_text(action_monster_attack(&mut state, 0, "Grond"));
    assert!(err.contains("turned") && err.contains("cannot attack"), "expected turned guard, got: {}", err);
}

#[test]
fn monster_attack_out_of_melee_range_rejected() {
    let mut state = state_with_combat();
    let err = err_text(action_monster_attack(&mut state, 0, "Grond"));
    assert_eq!(err, "Goblin 1 cannot melee attack at 60' distance. Monsters must be within 10' for melee.");
}

#[test]
fn roll_initiative_allowed_after_morale_check() {
    let mut state = state_with_combat();
    assert!(action_roll_initiative(&mut state).is_ok());
    let _ = action_morale(&mut state, None);
    assert!(action_roll_initiative(&mut state).is_ok());
    assert_eq!(state.combat.as_ref().unwrap().round, 2);
}

#[test]
fn morale_selector_picks_named_monster() {
    let mut state = state_with(
        vec![test_fighter()],
        vec![mk_monster("Goblin", 1, 4, 6, 7), mk_monster("Ogre", 4, 20, 5, 10)],
        30,
    );
    let result = action_morale(&mut state, Some("og")).unwrap();
    assert_eq!(result.morale_score, 10);
    assert!(result.roll >= 2 && result.roll <= 12);
    assert_eq!(result.passed, result.roll <= 10);
    let err = err_text(action_morale(&mut state, Some("troll")));
    assert_eq!(err, "no living monster named 'troll'.");
}

// --- attack guards ---

#[test]
fn same_character_cannot_attack_twice_per_round() {
    let mut state = state_with_melee_combat();
    let _ = action_roll_initiative(&mut state);
    let result = action_attack(&mut state, "Grond", 0, "Sword");
    assert!(result.is_ok(), "first attack should succeed: {:?}", result.err());
    let err = err_text(action_attack(&mut state, "Grond", 0, "Sword"));
    assert!(err.contains("already acted"), "expected acted guard, got: {}", err);
}

#[test]
fn character_can_attack_again_after_new_round() {
    let mut state = state_with(vec![test_fighter()], vec![mk_monster("Ogre", 4, 40, 5, 9)], 5);
    let _ = action_roll_initiative(&mut state);
    assert!(action_attack(&mut state, "Grond", 0, "Sword").is_ok());
    let _ = action_roll_initiative(&mut state);
    let result = action_attack(&mut state, "Grond", 0, "Sword");
    assert!(result.is_ok(), "attack in new round should succeed: {:?}", result.err());
}

#[test]
fn attack_guard_is_case_insensitive() {
    let mut state = state_with_melee_combat();
    let _ = action_roll_initiative(&mut state);
    assert!(action_attack(&mut state, "Grond", 0, "Sword").is_ok());
    let err = err_text(action_attack(&mut state, "grond", 0, "Sword"));
    assert!(err.contains("already acted"), "expected acted guard, got: {}", err);
}

#[test]
fn attack_with_unknown_weapon_rejected() {
    let mut state = state_with_melee_combat();
    let err = err_text(action_attack(&mut state, "Grond", 0, "Banana"));
    assert_eq!(err, "unknown weapon 'Banana'. Try: sword, mace, dagger, short bow, etc.");
}

#[test]
fn attack_on_helpless_monster_dispatches_it() {
    let mut state = state_with_melee_combat();
    state.combat.as_mut().unwrap().monsters[1].helpless = true;
    let result = action_attack(&mut state, "Grond", 1, "Sword").unwrap();
    assert!(result.auto_kill);
    assert!(result.target_killed);
    assert_eq!(result.roll, None);
    assert_eq!(state.combat.as_ref().unwrap().monsters[1].hp, 0);
}

#[test]
fn attack_on_immune_monster_needs_magic_weapon() {
    let mut state = state_with_melee_combat();
    state.combat.as_mut().unwrap().monsters[0].immune_to_normal_weapons = true;
    let err = err_text(action_attack(&mut state, "Grond", 0, "Sword"));
    assert_eq!(err, "Goblin 1 is immune to normal weapons! Sword has no effect. Use a magical weapon.");
}

// --- spell declaration and casting ---

#[test]
fn same_character_cannot_declare_spell_twice_per_round() {
    let mut state = state_with_caster_combat();
    let _ = action_roll_initiative(&mut state);
    let result = action_declare_spell(&mut state, "Zara", "Sleep");
    assert!(result.is_ok(), "first declaration should succeed: {:?}", result.err());
    let err = err_text(action_declare_spell(&mut state, "Zara", "Magic Missile"));
    assert!(err.contains("already declared a spell this round"), "expected spell guard, got: {}", err);
}

#[test]
fn spell_declaration_guard_is_case_insensitive() {
    let mut state = state_with_caster_combat();
    let _ = action_roll_initiative(&mut state);
    assert!(action_declare_spell(&mut state, "Zara", "Sleep").is_ok());
    let err = err_text(action_declare_spell(&mut state, "zara", "Magic Missile"));
    assert!(err.contains("already declared a spell this round"), "expected spell guard, got: {}", err);
}

#[test]
fn spell_declaration_allowed_after_new_round() {
    let mut state = state_with_caster_combat();
    let _ = action_roll_initiative(&mut state);
    assert!(action_declare_spell(&mut state, "Zara", "Sleep").is_ok());
    let combat = state.combat.as_mut().unwrap();
    while combat.phase != CombatPhase::EndOfRound {
        combat.advance_phase();
    }
    combat.advance_phase();
    let result = action_declare_spell(&mut state, "Zara", "Magic Missile");
    assert!(result.is_ok(), "declaration in new round should succeed: {:?}", result.err());
}

#[test]
fn cast_spell_resolves_declared_spell() {
    let mut state = state_with_caster_combat();
    let _ = action_declare_spell(&mut state, "Zara", "Magic Missile");
    let _ = action_roll_initiative(&mut state);
    let result = action_cast_spell(&mut state, "Zara");
    assert!(result.is_ok(), "cast_spell should succeed: {:?}", result.err());
    let result = result.unwrap();
    assert!(result.cast);
    assert!(!result.disrupted);
    assert_eq!(result.spell, "Magic Missile");
    assert_eq!(result.character, "Zara");
}

#[test]
fn cast_spell_fails_without_declaration() {
    let mut state = state_with_caster_combat();
    let _ = action_roll_initiative(&mut state);
    let err = err_text(action_cast_spell(&mut state, "Zara"));
    assert!(err.contains("not declared"), "expected 'not declared' error, got: {}", err);
}

#[test]
fn cast_spell_reports_disruption() {
    let mut state = state_with_caster_combat();
    let _ = action_roll_initiative(&mut state);
    let _ = action_declare_spell(&mut state, "Zara", "Sleep");
    state.combat.as_mut().unwrap().disrupted.push("Zara".to_string());
    let result = action_cast_spell(&mut state, "Zara");
    assert!(result.is_ok(), "cast_spell should return Ok even when disrupted");
    let result = result.unwrap();
    assert!(!result.cast);
    assert!(result.disrupted);
    assert_eq!(result.spell, "Sleep");
}

#[test]
fn cast_spell_clears_declaration() {
    let mut state = state_with_caster_combat();
    let _ = action_roll_initiative(&mut state);
    let _ = action_declare_spell(&mut state, "Zara", "Magic Missile");
    assert!(!state.combat.as_ref().unwrap().pending_spells.is_empty());
    assert!(!state.combat.as_ref().unwrap().spell_declarations.is_empty());
    let _ = action_cast_spell(&mut state, "Zara");
    assert!(state.combat.as_ref().unwrap().pending_spells.is_empty());
    assert!(state.combat.as_ref().unwrap().spell_declarations.is_empty());
}

#[test]
fn cast_spell_marks_character_acted() {
    let mut state = state_with_caster_combat();
    let _ = action_roll_initiative(&mut state);
    let _ = action_declare_spell(&mut state, "Zara", "Magic Missile");
    let _ = action_cast_spell(&mut state, "Zara");
    let err = err_text(action_attack(&mut state, "Zara", 0, "Dagger"));
    assert!(err.contains("already acted"), "expected 'already acted', got: {}", err);
}

#[test]
fn cast_spell_no_combat_error() {
    let mut state = GameState::new();
    let mut mage = Character::new("Zara", Class::MagicUser);
    mage.hp = 3;
    mage.max_hp = 3;
    state.party.add_member(mage);
    let result = action_cast_spell(&mut state, "Zara");
    assert!(result.is_err());
}

#[test]
fn cast_spell_unknown_character_error() {
    let mut state = state_with_caster_combat();
    let err = err_text(action_cast_spell(&mut state, "Nobody"));
    assert!(err.contains("no party member"));
}

#[test]
fn cast_spell_cannot_cast_twice_per_round() {
    let mut state = state_with_caster_combat();
    let _ = action_roll_initiative(&mut state);
    let _ = action_declare_spell(&mut state, "Zara", "Magic Missile");
    assert!(action_cast_spell(&mut state, "Zara").is_ok());
    let _ = action_declare_spell(&mut state, "Zara", "Sleep");
    let err = err_text(action_cast_spell(&mut state, "Zara"));
    assert!(err.contains("already acted"), "got: {}", err);
}

#[test]
fn fighter_cannot_declare_spells() {
    let mut state = state_with_melee_combat();
    let err = err_text(action_declare_spell(&mut state, "Grond", "Sleep"));
    assert_eq!(err, "Grond (Fighter) cannot cast spells.");
}

// --- withdrawal ---

#[test]
fn fighting_withdrawal_distance_moved_is_nonzero() {
    let mut state = state_with_combat();
    let result = action_fighting_withdrawal(&mut state, "Grond").unwrap();
    assert_eq!(result.distance_moved, 20, "distance_moved should be 20 (half encounter move)");
    assert_eq!(result.new_distance, 80, "new distance should be 60 + 20 = 80");
}

// --- spell slots ---

#[test]
fn declare_spell_rejected_when_slots_exhausted() {
    let mut state = level_one_caster_state();
    let _ = action_roll_initiative(&mut state);
    let result = action_declare_spell(&mut state, "Zara", "Sleep");
    assert!(result.is_ok(), "first declare should succeed: {:?}", result.err());
    let result = action_cast_spell(&mut state, "Zara");
    assert!(result.is_ok(), "cast should succeed: {:?}", result.err());
    assert_eq!(state.party.find_member("Zara").unwrap().spell_slots_used[0], 1);
    let _ = action_roll_initiative(&mut state);
    let err = err_text(action_declare_spell(&mut state, "Zara", "Sleep"));
    assert!(err.contains("no level 1 spell slots remaining"), "expected slot exhaustion error, got: {}", err);
}

#[test]
fn multiple_slots_allow_multiple_casts() {
    let mut state = state_with_caster_combat();
    let _ = action_roll_initiative(&mut state);
    let _ = action_declare_spell(&mut state, "Zara", "Sleep");
    let _ = action_cast_spell(&mut state, "Zara");
    let _ = action_roll_initiative(&mut state);
    let result = action_declare_spell(&mut state, "Zara", "Sleep");
    assert!(result.is_ok(), "second declare should succeed (2 slots): {:?}", result.err());
    let _ = action_cast_spell(&mut state, "Zara");
    let _ = action_roll_initiative(&mut state);
    let result = action_declare_spell(&mut state, "Zara", "Sleep");
    assert!(result.is_err(), "third declare should fail (slots exhausted)");
}

#[test]
fn disrupted_spell_still_consumes_slot() {
    let mut state = level_one_caster_state();
    let _ = action_roll_initiative(&mut state);
    let _ = action_declare_spell(&mut state, "Zara", "Sleep");
    state.combat.as_mut().unwrap().disrupted.push("Zara".to_string());
    let result = action_cast_spell(&mut state, "Zara");
    assert!(result.is_ok());
    assert!(result.unwrap().disrupted);
    assert_eq!(
        state.party.find_member("Zara").unwrap().spell_slots_used[0],
        1,
        "disrupted spell should still consume a slot"
    );
    let _ = action_roll_initiative(&mut state);
    let result = action_declare_spell(&mut state, "Zara", "Sleep");
    assert!(result.is_err(), "should have no slots after disrupted cast");
}

// --- end of combat ---

#[test]
fn end_combat_distributes_xp_to_survivors() {
    let mut fighter = test_fighter();
    fighter.abilities.strength = 10;
    let mut cleric = Character::new("Mira", Class::Cleric);
    cleric.hp = 8;
    cleric.max_hp = 8;
    cleric.level = 1;
    cleric.abilities.wisdom = 10;
    let mut m1 = mk_monster("Goblin 1", 1, 4, 6, 7);
    m1.xp_value = 10;
    m1.hp = 0;
    let mut m2 = mk_monster("Goblin 2", 1, 4, 6, 7);
    m2.xp_value = 10;
    m2.hp = 0;
    let mut state = state_with(vec![fighter, cleric], vec![m1, m2], 5);
    let result = action_end_combat(&mut state, false).unwrap();
    assert_eq!(result.total_xp, 20);
    assert_eq!(result.xp_per_survivor, 10);
    assert_eq!(result.xp_awards.len(), 2);
    assert_eq!(result.xp_awards[0].character, "Grond");
    assert_eq!(result.xp_awards[0].base_xp, 10);
    assert_eq!(result.xp_awards[1].character, "Mira");
    assert_eq!(result.xp_awards[1].base_xp, 10);
    assert_eq!(state.party.find_member("Grond").unwrap().xp, 10);
    assert_eq!(state.party.find_member("Mira").unwrap().xp, 10);
}

#[test]
fn end_combat_xp_excludes_dead_party_members() {
    let mut alive = test_fighter();
    alive.abilities.strength = 10;
    let mut dead = Character::new("Fallen", Class::Fighter);
    dead.hp = 0;
    dead.max_hp = 8;
    dead.level = 1;
    let mut m = mk_monster("Orc", 1, 4, 6, 7);
    m.xp_value = 30;
    m.hp = 0;
    let mut state = state_with(vec![alive, dead], vec![m], 5);
    let result = action_end_combat(&mut state, false).unwrap();
    assert_eq!(result.total_xp, 30);
    assert_eq!(result.xp_per_survivor, 30);
    assert_eq!(result.xp_awards.len(), 1);
    assert_eq!(result.xp_awards[0].character, "Grond");
    assert_eq!(state.party.find_member("Grond").unwrap().xp, 30);
    assert_eq!(state.party.find_member("Fallen").unwrap().xp, 0);
    assert_eq!(result.party_casualties, 1);
}

#[test]
fn end_combat_no_xp_when_no_kills() {
    let mut state = state_with_combat();
    let result = action_end_combat(&mut state, false).unwrap();
    assert_eq!(result.total_xp, 0);
    assert_eq!(result.xp_per_survivor, 0);
    assert!(result.xp_awards.is_empty());
    assert_eq!(state.party.find_member("Grond").unwrap().xp, 0);
}

#[test]
fn end_combat_xp_applies_prime_req_modifier() {
    let mut m = mk_monster("Orc", 1, 4, 6, 7);
    m.xp_value = 100;
    m.hp = 0;
    let mut state = state_with(vec![test_fighter()], vec![m], 5);
    let result = action_end_combat(&mut state, false).unwrap();
    assert_eq!(result.xp_per_survivor, 100);
    assert_eq!(result.xp_awards.len(), 1);
    assert_eq!(result.xp_awards[0].modifier_pct, 10);
    assert_eq!(result.xp_awards[0].adjusted_xp, 110);
    assert_eq!(state.party.find_member("Grond").unwrap().xp, 110);
}

#[test]
fn end_combat_restores_mode_and_reports() {
    let mut m = mk_monster("Orc", 1, 4, 6, 7);
    m.hp = 0;
    let mut state = state_with(vec![test_fighter()], vec![m, mk_monster("Orc 2", 1, 4, 6, 7)], 5);
    state.pre_combat_mode = Some(GameMode::Exploration);
    let result = action_end_combat(&mut state, true).unwrap();
    assert_eq!(result.message, "combat ended after 0 rounds. 1 of 2 monsters defeated.");
    assert_eq!(result.xp_per_survivor, 0);
    assert_eq!(result.mode_after, GameMode::Exploration);
    assert!(state.combat.is_none());
    assert!(action_end_combat(&mut state, false).is_err());
}

// --- round-based effects ---

fn add_effect(effects: &mut Vec<ActiveEffect>, name: &str, duration: EffectDuration) {
    let id = next_effect_id(effects);
    effects.push(ActiveEffect {
        id,
        name: name.to_string(),
        source: "test".to_string(),
        duration,
        notes: String::new(),
    });
}

fn log_text(state: &GameState) -> String {
    state.combat.as_ref().unwrap().log.join("\n")
}

#[test]
fn tick_rounds_effect_on_monster_decrements_and_expires() {
    let mut state = state_with_melee_combat();
    add_effect(&mut state.combat.as_mut().unwrap().monsters[0].effects, "Hold Person", EffectDuration::Rounds(2));
    let _ = action_roll_initiative(&mut state);
    assert_eq!(state.combat.as_ref().unwrap().monsters[0].effects.len(), 1);
    state.combat.as_mut().unwrap().log_event("dummy action".into());
    let _ = action_roll_initiative(&mut state);
    assert_eq!(state.combat.as_ref().unwrap().monsters[0].effects.len(), 1);
    assert_eq!(state.combat.as_ref().unwrap().monsters[0].effects[0].duration, EffectDuration::Rounds(1));
    state.combat.as_mut().unwrap().log_event("dummy action".into());
    let _ = action_roll_initiative(&mut state);
    assert!(state.combat.as_ref().unwrap().monsters[0].effects.is_empty());
    let text = log_text(&state);
    assert!(text.contains("Hold Person"), "expiry message should mention effect name");
    assert!(text.contains("worn off"), "expiry message should say worn off");
}

#[test]
fn tick_rounds_effect_on_character_in_combat() {
    let mut state = state_with_melee_combat();
    add_effect(&mut state.party.members[0].effects, "Bless", EffectDuration::Rounds(1));
    let _ = action_roll_initiative(&mut state);
    assert_eq!(state.party.members[0].effects.len(), 1);
    state.combat.as_mut().unwrap().log_event("dummy action".into());
    let _ = action_roll_initiative(&mut state);
    assert!(state.party.members[0].effects.is_empty());
    assert!(log_text(&state).contains("Bless"), "expiry message should mention Bless");
}

#[test]
fn turns_permanent_concentration_not_ticked_by_round() {
    let mut state = state_with_melee_combat();
    {
        let monster = &mut state.combat.as_mut().unwrap().monsters[0];
        add_effect(&mut monster.effects, "Light", EffectDuration::Turns(6));
        add_effect(&mut monster.effects, "Curse", EffectDuration::Permanent);
        add_effect(&mut monster.effects, "Detect Magic", EffectDuration::Concentration);
    }
    let _ = action_roll_initiative(&mut state);
    state.combat.as_mut().unwrap().log_event("dummy action".into());
    let _ = action_roll_initiative(&mut state);
    let effects = &state.combat.as_ref().unwrap().monsters[0].effects;
    assert_eq!(effects.len(), 3, "all non-round effects should remain");
    assert_eq!(effects[0].duration, EffectDuration::Turns(6));
    assert_eq!(effects[1].duration, EffectDuration::Permanent);
    assert_eq!(effects[2].duration, EffectDuration::Concentration);
}

#[test]
fn expiry_messages_in_combat_log() {
    let mut state = state_with_melee_combat();
    add_effect(&mut state.combat.as_mut().unwrap().monsters[0].effects, "Sleep", EffectDuration::Rounds(1));
    add_effect(&mut state.combat.as_mut().unwrap().monsters[1].effects, "Web", EffectDuration::Rounds(1));
    let _ = action_roll_initiative(&mut state);
    state.combat.as_mut().unwrap().log_event("dummy".into());
    let log_before = state.combat.as_ref().unwrap().log.len();
    let _ = action_roll_initiative(&mut state);
    let log_after = state.combat.as_ref().unwrap().log.len();
    assert!(log_after > log_before + 2, "should have logged expiry messages");
    let text = log_text(&state);
    assert!(text.contains("Sleep"), "log should mention Sleep expiry");
    assert!(text.contains("Web"), "log should mention Web expiry");
}

#[test]
fn multiple_effects_across_characters_and_monsters() {
    let mut state = state_with_melee_combat();
    add_effect(&mut state.combat.as_mut().unwrap().monsters[0].effects, "Slow", EffectDuration::Rounds(2));
    add_effect(&mut state.combat.as_mut().unwrap().monsters[1].effects, "Blindness", EffectDuration::Rounds(3));
    add_effect(&mut state.party.members[0].effects, "Shield", EffectDuration::Rounds(2));
    add_effect(&mut state.effects, "Darkness", EffectDuration::Rounds(1));
    let _ = action_roll_initiative(&mut state);
    state.combat.as_mut().unwrap().log_event("dummy".into());
    let _ = action_roll_initiative(&mut state);
    assert_eq!(state.combat.as_ref().unwrap().monsters[0].effects[0].duration, EffectDuration::Rounds(1));
    assert_eq!(state.combat.as_ref().unwrap().monsters[1].effects[0].duration, EffectDuration::Rounds(2));
    assert_eq!(state.party.members[0].effects[0].duration, EffectDuration::Rounds(1));
    assert!(state.effects.is_empty(), "Darkness should have expired");
    state.combat.as_mut().unwrap().log_event("dummy".into());
    let _ = action_roll_initiative(&mut state);
    assert!(state.combat.as_ref().unwrap().monsters[0].effects.is_empty(), "Slow should have expired");
    assert_eq!(state.combat.as_ref().unwrap().monsters[1].effects[0].duration, EffectDuration::Rounds(1));
    assert!(state.party.members[0].effects.is_empty(), "Shield should have expired");
}

// --- multi-attack monsters ---

fn mk_multi_attack_monster(name: &str) -> Monster {
    let mut m = Monster::new(name, HitDice::new(5, 0));
    m.hp = 20;
    m.max_hp = 20;
    m.ac = 5;
    m.damage = "1d8 / 1d8 / 2d6".to_string();
    m.morale = 9;
    m.xp_value = 175;
    m.attacks = vec!["claw".to_string(), "claw".to_string(), "bite".to_string()];
    m.attack_routines = vec![
        MonsterAttackRoutine { name: "claw".to_string(), damage: "1d8".to_string() },
        MonsterAttackRoutine { name: "claw".to_string(), damage: "1d8".to_string() },
        MonsterAttackRoutine { name: "bite".to_string(), damage: "2d6".to_string() },
    ];
    m
}

fn state_with_multi_attack_monster() -> GameState {
    let mut fighter = test_fighter();
    fighter.hp = 100;
    fighter.max_hp = 100;
    state_with(vec![fighter], vec![mk_multi_attack_monster("Cave Bear")], 5)
}

#[test]
fn multi_attack_monster_can_attack_three_times() {
    let mut state = state_with_multi_attack_monster();
    let _ = action_roll_initiative(&mut state);
    let r1 = action_monster_attack(&mut state, 0, "Grond").unwrap();
    assert_eq!(r1.attack_routine, "claw");
    assert_eq!(r1.attacks_remaining, 2);
    let r2 = action_monster_attack(&mut state, 0, "Grond").unwrap();
    assert_eq!(r2.attack_routine, "claw");
    assert_eq!(r2.attacks_remaining, 1);
    let r3 = action_monster_attack(&mut state, 0, "Grond").unwrap();
    assert_eq!(r3.attack_routine, "bite");
    assert_eq!(r3.attacks_remaining, 0);
    let err = err_text(action_monster_attack(&mut state, 0, "Grond"));
    assert!(err.contains("already used all 3 attack(s)"));
}

#[test]
fn single_attack_monster_still_blocked_after_one() {
    let mut state = state_with_melee_combat();
    let _ = action_roll_initiative(&mut state);
    let r1 = action_monster_attack(&mut state, 0, "Grond").unwrap();
    assert_eq!(r1.attacks_remaining, 0);
    assert!(action_monster_attack(&mut state, 0, "Grond").is_err());
}

#[test]
fn multi_attack_resets_on_new_round() {
    let mut state = state_with_multi_attack_monster();
    let _ = action_roll_initiative(&mut state);
    let _ = action_monster_attack(&mut state, 0, "Grond");
    let _ = action_monster_attack(&mut state, 0, "Grond");
    let _ = action_monster_attack(&mut state, 0, "Grond");
    let _ = action_roll_initiative(&mut state);
    let r = action_monster_attack(&mut state, 0, "Grond");
    assert!(r.is_ok(), "monster should attack in new round");
    assert_eq!(r.unwrap().attacks_remaining, 2);
}

// --- Backstab damage and distance ---

fn test_thief(name: &str, str_score: i32) -> Character {
    let mut c = Character::new(name, Class::Thief);
    c.hp = 6;
    c.max_hp = 6;
    c.ac = 6;
    c.level = 1;
    c.abilities.strength = str_score;
    c
}

#[test]
fn backstab_damage_does_not_exceed_weapon_max_times_multiplier_plus_str() {
    // Short sword = 1d6, level 1 = x2 multiplier, STR 10 = +0: at most 12
    let max_expected = 12;
    let mut state = state_with(vec![test_thief("Stabby", 10)], vec![mk_monster("Dummy", 10, 999, 9, 7)], 5);
    for _ in 0..200 {
        state.combat.as_mut().unwrap().monsters[0].hp = 999;
        state.combat.as_mut().unwrap().characters_acted.clear();
        let result = action_backstab(&mut state, "Stabby", 0, "Short sword");
        assert!(result.is_ok(), "backstab failed: {:?}", result.err());
        let result = result.unwrap();
        if result.hit {
            let dmg = result.damage.unwrap();
            assert!(dmg <= max_expected, "backstab damage {} exceeds max {}", dmg, max_expected);
            assert!(dmg >= 2, "backstab damage {} below minimum 2 (1*2 + 0)", dmg);
        }
    }
}

#[test]
fn backstab_str_mod_not_multiplied() {
    // Short sword = 1d6, x2, STR 18 = +3: at most 6*2 + 3 = 15
    let max_correct = 15;
    let mut state =
        state_with(vec![test_thief("Strong Thief", 18)], vec![mk_monster("Dummy", 10, 999, 9, 7)], 5);
    for _ in 0..200 {
        state.combat.as_mut().unwrap().monsters[0].hp = 999;
        state.combat.as_mut().unwrap().characters_acted.clear();
        let result = action_backstab(&mut state, "Strong Thief", 0, "Short sword");
        assert!(result.is_ok());
        let result = result.unwrap();
        if result.hit {
            let dmg = result.damage.unwrap();
            assert!(dmg <= max_correct, "backstab damage {} exceeds correct max {}", dmg, max_correct);
            assert!(dmg >= 5, "backstab damage {} below minimum 5 (1*2 + 3)", dmg);
        }
    }
}

#[test]
fn backstab_rejected_at_ranged_distance_with_melee_weapon() {
    let mut state = state_with(vec![test_thief("Stabby", 10)], vec![mk_monster("Goblin", 1, 4, 6, 7)], 20);
    let result = action_backstab(&mut state, "Stabby", 0, "Short sword");
    assert!(result.is_err(), "backstab should fail at 20' distance with melee weapon");
    let err = err_text(result);
    assert!(err.contains("melee weapon"), "expected melee weapon error, got: {}", err);
    assert!(err.contains("20'"), "expected distance in error, got: {}", err);
}

#[test]
fn backstab_succeeds_at_melee_distance() {
    let mut state = state_with(vec![test_thief("Stabby", 10)], vec![mk_monster("Goblin", 1, 999, 6, 7)], 5);
    let result = action_backstab(&mut state, "Stabby", 0, "Short sword");
    assert!(result.is_ok(), "backstab should succeed at 5' distance: {:?}", result.err());
}

#[test]
fn backstab_rejected_with_pure_missile_weapon() {
    let mut state = state_with(vec![test_thief("Stabby", 10)], vec![mk_monster("Goblin", 1, 4, 6, 7)], 5);
    let result = action_backstab(&mut state, "Stabby", 0, "Short bow");
    assert!(result.is_err(), "backstab should fail with missile weapon");
    let err = err_text(result);
    assert!(err.contains("missile weapon"), "expected missile weapon error, got: {}", err);
}

#[test]
fn backstab_with_dagger_at_melee_range_succeeds() {
    let mut state = state_with(vec![test_thief("Stabby", 10)], vec![mk_monster("Goblin", 1, 999, 6, 7)], 5);
    let result = action_backstab(&mut state, "Stabby", 0, "Dagger");
    assert!(result.is_ok(), "backstab with dagger at melee range should work: {:?}", result.err());
}

#[test]
fn backstab_with_dagger_at_ranged_distance_rejected() {
    let mut state = state_with(vec![test_thief("Stabby", 10)], vec![mk_monster("Goblin", 1, 4, 6, 7)], 20);
    let result = action_backstab(&mut state, "Stabby", 0, "Dagger");
    assert!(result.is_err(), "backstab with dagger at 20' should fail");
    let err = err_text(result);
    assert!(err.contains("melee weapon"), "expected melee weapon error, got: {}", err);
}

#[test]
fn end_combat_clears_current_room() {
    let mut state = state_with(vec![test_fighter()], vec![mk_monster("Goblin", 1, 0, 6, 7)], 5);
    let mut dungeon = DungeonState::new(1);
    dungeon.add_room(Room::new(0, "Hall")).unwrap();
    dungeon.add_room(Room::new(1, "Crypt")).unwrap();
    dungeon.current_room = Some(1);
    state.dungeon = Some(dungeon);
    action_end_combat(&mut state, false).unwrap();
    let d = state.dungeon.as_ref().unwrap();
    assert!(d.find_room(1).unwrap().monsters_cleared);
    assert!(!d.find_room(0).unwrap().monsters_cleared);
}

#[test]
fn end_combat_without_dungeon_leaves_none() {
    let mut state = state_with(vec![test_fighter()], vec![mk_monster("Goblin", 1, 0, 6, 7)], 5);
    action_end_combat(&mut state, false).unwrap();
    assert!(state.dungeon.is_none());
}

#[test]
fn morale_selector_lowercases_beyond_ascii() {
    let mut state = state_with(
        vec![test_fighter()],
        vec![mk_monster("Goblin", 1, 4, 6, 7), mk_monster("Élan Spirit", 3, 10, 5, 11)],
        30,
    );
    let result = action_morale(&mut state, Some("é")).unwrap();
    assert_eq!(result.morale_score, 11);
    let result = action_morale(&mut state, Some("ÉLAN")).unwrap();
    assert_eq!(result.morale_score, 11);
}
