use ose_engine::engine::combat::attack::CoupDeGraceResult;
use ose_engine::engine::combat::{
    announce_retreat, close, combat_status, coup_de_grace, declare_spell, fighting_withdrawal,
    is_disrupted, resolve_character_attack, retreat, set_monster_helpless,
};
use ose_engine::model::{
    AbilityScores, Alignment, Character, Class, CombatPhase, CombatState, HitDice, Item, Monster,
};
use ose_engine::rules::find_weapon;

fn test_fighter() -> Character {
    let mut c = Character::new("Grond", Class::Fighter);
    c.abilities = AbilityScores {
        strength: 16,
        intelligence: 10,
        wisdom: 10,
        dexterity: 12,
        constitution: 14,
        charisma: 10,
    };
    c.hp = 8;
    c.max_hp = 8;
    c.ac = 3;
    c.gold_gp = 100;
    c.thac0 = 19;
    c.movement_rate = 120;
    c
}

fn test_cleric() -> Character {
    let mut c = Character::new("Brother Aldric", Class::Cleric);
    c.level = 3;
    c.abilities = AbilityScores {
        strength: 12,
        intelligence: 10,
        wisdom: 16,
        dexterity: 10,
        constitution: 13,
        charisma: 14,
    };
    c.hp = 14;
    c.max_hp = 14;
    c.ac = 4;
    c.alignment = Alignment::Lawful;
    c.gold_gp = 50;
    c
}

fn test_magic_user() -> Character {
    let mut c = Character::new("Elara", Class::MagicUser);
    c.abilities = AbilityScores {
        strength: 8,
        intelligence: 16,
        wisdom: 10,
        dexterity: 14,
        constitution: 10,
        charisma: 11,
    };
    c.hp = 3;
    c.max_hp = 3;
    c.ac = 7;
    c.gold_gp = 40;
    c
}

fn test_goblin() -> Monster {
    let mut m = Monster::new("Goblin", HitDice::new(1, -1));
    m.hp = 3;
    m.max_hp = 3;
    m.ac = 6;
    m.attacks = vec!["weapon".to_string()];
    m.damage = "1d6".to_string();
    m.morale = 7;
    m.xp_value = 5;
    m
}

// --- Combat state ---

#[test]
fn combat_combat_state_creation() {
    let combat = CombatState::new(vec![test_goblin(), test_goblin(), test_goblin()], 60);
    assert_eq!(combat.round, 0);
    assert_eq!(combat.monsters.len(), 3);
    assert_eq!(combat.distance, 60);
    assert_eq!(combat.living_monster_count(), 3);
}

#[test]
fn mod_combat_state_creation() {
    let combat = CombatState::new(vec![test_goblin(), test_goblin(), test_goblin()], 60);
    assert_eq!(combat.round, 0);
    assert_eq!(combat.monsters.len(), 3);
    assert_eq!(combat.distance, 60);
    assert_eq!(combat.living_monster_count(), 3);
}

#[test]
fn combat_living_monster_tracking() {
    let mut combat = CombatState::new(vec![test_goblin(), test_goblin()], 10);
    assert_eq!(combat.living_monster_count(), 2);
    combat.monsters[0].hp = 0;
    assert_eq!(combat.living_monster_count(), 1);
    let living = combat.living_monsters();
    assert_eq!(living.len(), 1);
    assert_eq!(living[0], 1);
}

#[test]
fn mod_living_monster_tracking() {
    let mut combat = CombatState::new(vec![test_goblin(), test_goblin()], 10);
    assert_eq!(combat.living_monster_count(), 2);
    combat.monsters[0].hp = 0;
    assert_eq!(combat.living_monster_count(), 1);
    let living = combat.living_monsters();
    assert_eq!(living.len(), 1);
    assert_eq!(living[0], 1); // index 1 is still alive
}

// --- Melee range ---

#[test]
fn melee_range_allows_10_feet() {
    let mut combat = CombatState::new(vec![test_goblin()], 10);
    let fighter = test_fighter();
    let sword = find_weapon("Sword").unwrap();
    let result = resolve_character_attack(&mut combat, &fighter, 0, &sword, 0);
    assert!(result.is_ok(), "melee attack should succeed at 10' distance");
}

#[test]
fn melee_range_fails_beyond_10_feet() {
    let mut combat = CombatState::new(vec![test_goblin()], 11);
    let fighter = test_fighter();
    let sword = find_weapon("Sword").unwrap();
    let result = resolve_character_attack(&mut combat, &fighter, 0, &sword, 0);
    assert!(result.is_err(), "melee attack should fail at 11' distance");
    assert!(result.unwrap_err().contains("melee weapon"));
}

#[test]
fn melee_at_distance_error_suggests_close_and_missile_weapons() {
    let mut combat = CombatState::new(vec![test_goblin()], 60);
    let mut fighter = test_fighter();
    fighter.inventory.push(Item::new("Sword", 6, 10));
    fighter.inventory.push(Item::new("Short bow", 3, 25));
    let sword = find_weapon("Sword").unwrap();
    let result = resolve_character_attack(&mut combat, &fighter, 0, &sword, 0);
    assert!(result.is_err());
    let err = result.unwrap_err();
    assert!(err.contains("close Grond"), "Error should suggest close command: {}", err);
    assert!(err.contains("Short bow"), "Error should list missile weapons: {}", err);
}

// --- Spells ---

#[test]
fn combat_spell_declaration() {
    let mut combat = CombatState::new(vec![test_goblin()], 10);
    declare_spell(&mut combat, "Elara", "Magic Missile");
    assert!(combat.spell_declarations.contains(&"Elara".to_string()));
    assert!(!is_disrupted(&combat, "Elara"));
}

#[test]
fn mod_spell_declaration() {
    let mut combat = CombatState::new(vec![test_goblin()], 10);
    declare_spell(&mut combat, "Elara", "Magic Missile");
    assert!(combat.spell_declarations.contains(&"Elara".to_string()));
    assert!(!is_disrupted(&combat, "Elara"));
}

// --- Movement ---

#[test]
fn combat_fighting_withdrawal_speed() {
    let mut combat = CombatState::new(vec![test_goblin()], 10);
    let fighter = test_fighter();
    let msg = fighting_withdrawal(&mut combat, &fighter);
    assert!(msg.contains("20'"));
    assert!(msg.contains("Grond"));
    assert_eq!(combat.distance, 30);
}

#[test]
fn mod_fighting_withdrawal_speed() {
    let mut combat = CombatState::new(vec![test_goblin()], 10);
    let fighter = test_fighter(); // movement 120
    let msg = fighting_withdrawal(&mut combat, &fighter);
    // encounter movement = 120/3 = 40, half = 20
    assert!(msg.contains("20'"));
    assert!(msg.contains("Grond"));
    assert_eq!(combat.distance, 30); // 10 + 20
}

#[test]
fn combat_retreat_speed() {
    let mut combat = CombatState::new(vec![test_goblin()], 10);
    let fighter = test_fighter();
    let msg = announce_retreat(&mut combat, &fighter);
    assert!(msg.contains("40'"));
    assert!(msg.contains("free attack"));
    assert_eq!(combat.distance, 50);
}

#[test]
fn combat_fighting_withdrawal_no_free_attacks() {
    let mut combat = CombatState::new(vec![test_goblin()], 10);
    let fighter = test_fighter();
    let msg = fighting_withdrawal(&mut combat, &fighter);
    assert!(!msg.contains("free attack"), "fighting withdrawal should not mention free attacks");
    assert!(msg.contains("fighting withdrawal"));
}

#[test]
fn mod_fighting_withdrawal_no_free_attacks() {
    let mut combat = CombatState::new(vec![test_goblin()], 10);
    let fighter = test_fighter();
    let msg = fighting_withdrawal(&mut combat, &fighter);
    assert!(!msg.contains("free attack"), "fighting withdrawal should not mention free attacks");
    assert!(msg.contains("fighting withdrawal"));
}

#[test]
fn combat_retreat_grants_free_attacks() {
    let mut combat = CombatState::new(vec![test_goblin()], 10);
    let fighter = test_fighter();
    let msg = announce_retreat(&mut combat, &fighter);
    assert!(msg.contains("free attack"), "retreat should mention free attacks");
    assert!(msg.contains("+2"), "free attack should be at +2");
}

#[test]
fn combat_distance_tracking_across_movements() {
    let mut combat = CombatState::new(vec![test_goblin()], 0);
    let fighter = test_fighter();
    fighting_withdrawal(&mut combat, &fighter);
    assert_eq!(combat.distance, 20);
    fighting_withdrawal(&mut combat, &fighter);
    assert_eq!(combat.distance, 40);
    announce_retreat(&mut combat, &fighter);
    assert_eq!(combat.distance, 80);
}

#[test]
fn combat_distance_saturating_add() {
    let mut combat = CombatState::new(vec![test_goblin()], u32::MAX - 10);
    let fighter = test_fighter();
    announce_retreat(&mut combat, &fighter);
    assert_eq!(combat.distance, u32::MAX);
}

#[test]
fn retreat_at_range_draws_no_free_attacks() {
    let mut combat = CombatState::new(vec![test_goblin()], 30);
    let mut fighter = test_fighter();
    let result = retreat(&mut combat, &mut fighter);
    assert!(result.free_attacks.is_empty());
    assert_eq!(result.distance_moved, 40);
    assert_eq!(result.new_distance, 70);
    assert_eq!(fighter.hp, 8);
    assert!(result.to_string().contains("No enemies in melee range"));
}

#[test]
fn retreat_in_melee_draws_one_free_attack_per_monster() {
    let mut combat = CombatState::new(vec![test_goblin(), test_goblin()], 5);
    combat.monsters[1].turned = true;
    let mut fighter = test_fighter();
    fighter.hp = 1000;
    fighter.max_hp = 1000;
    let result = retreat(&mut combat, &mut fighter);
    assert_eq!(result.free_attacks.len(), 1);
    assert_eq!(result.free_attacks[0].modifiers, 2);
    assert!(result.to_string().contains("Free attacks at +2"));
}

// --- Phases and morale triggers ---

fn assert_full_cycle(combat: &mut CombatState) {
    assert_eq!(combat.phase, CombatPhase::Declaration);
    combat.advance_phase();
    assert_eq!(combat.phase, CombatPhase::Initiative);
    combat.advance_phase();
    assert_eq!(combat.phase, CombatPhase::Morale);
    combat.advance_phase();
    assert_eq!(combat.phase, CombatPhase::Movement);
    combat.advance_phase();
    assert_eq!(combat.phase, CombatPhase::Missile);
    combat.advance_phase();
    assert_eq!(combat.phase, CombatPhase::Magic);
    combat.advance_phase();
    assert_eq!(combat.phase, CombatPhase::Melee);
    combat.advance_phase();
    assert_eq!(combat.phase, CombatPhase::EndOfRound);
    combat.advance_phase();
    assert_eq!(combat.phase, CombatPhase::Declaration);
}

#[test]
fn combat_phase_advancement_full_cycle() {
    let mut combat = CombatState::new(vec![test_goblin()], 10);
    assert_full_cycle(&mut combat);
}

#[test]
fn mod_phase_advancement_full_cycle() {
    let mut combat = CombatState::new(vec![test_goblin()], 10);
    assert_full_cycle(&mut combat);
}

fn check_first_death() {
    let mut combat = CombatState::new(
        vec![test_goblin(), test_goblin(), test_goblin(), test_goblin()],
        10,
    );
    assert!(!combat.should_check_morale());
    combat.monsters[0].hp = 0;
    assert!(combat.should_check_morale());
    assert!(combat.first_death_checked);
    assert!(!combat.should_check_morale());
}

#[test]
fn combat_morale_trigger_first_death() {
    check_first_death();
}

#[test]
fn mod_morale_trigger_first_death() {
    check_first_death();
}

fn check_half_killed() {
    let mut combat = CombatState::new(
        vec![test_goblin(), test_goblin(), test_goblin(), test_goblin()],
        10,
    );
    combat.monsters[0].hp = 0;
    let _ = combat.should_check_morale();
    assert!(!combat.should_check_morale());
    combat.monsters[1].hp = 0;
    assert!(combat.should_check_morale());
    assert!(combat.half_killed_checked);
    assert!(!combat.should_check_morale());
}

#[test]
fn combat_morale_trigger_half_killed() {
    check_half_killed();
}

#[test]
fn mod_morale_trigger_half_killed() {
    check_half_killed();
}

fn check_simultaneous_triggers() {
    let mut combat = CombatState::new(vec![test_goblin(), test_goblin()], 10);
    combat.monsters[0].hp = 0;
    assert!(combat.should_check_morale());
    assert!(combat.should_check_morale());
    assert!(!combat.should_check_morale());
}

#[test]
fn combat_morale_trigger_simultaneous_first_and_half() {
    check_simultaneous_triggers();
}

#[test]
fn mod_morale_trigger_simultaneous_first_and_half() {
    check_simultaneous_triggers();
}

fn check_single_monster_morale() {
    let mut combat = CombatState::new(vec![test_goblin()], 10);
    assert!(!combat.should_check_morale());
    combat.monsters[0].hp = 0;
    assert!(combat.should_check_morale());
    assert!(combat.should_check_morale());
    assert!(!combat.should_check_morale());
}

#[test]
fn combat_combat_with_single_monster_morale() {
    check_single_monster_morale();
}

#[test]
fn mod_combat_with_single_monster_morale() {
    check_single_monster_morale();
}

fn check_tpk() {
    let mut fighter = test_fighter();
    let mut cleric = test_cleric();
    let mut mage = test_magic_user();
    fighter.hp = 0;
    cleric.hp = 0;
    mage.hp = 0;
    let party = vec![fighter, cleric, mage];
    let all_dead = party.iter().all(|c| !c.is_alive());
    assert!(all_dead, "all party members dead = TPK");
}

#[test]
fn combat_tpk_detection() {
    check_tpk();
}

#[test]
fn mod_tpk_detection() {
    check_tpk();
}

// --- Close ---

#[test]
fn close_to_melee() {
    let mut combat = CombatState::new(vec![test_goblin()], 60);
    let fighter = test_fighter();
    let msg = close(&mut combat, &fighter, None).unwrap();
    assert!(msg.contains("closes 40'"));
    assert_eq!(combat.distance, 20);
}

#[test]
fn close_specific_feet() {
    let mut combat = CombatState::new(vec![test_goblin()], 100);
    let fighter = test_fighter();
    let msg = close(&mut combat, &fighter, Some(30)).unwrap();
    assert!(msg.contains("30'"));
    assert_eq!(combat.distance, 70);
}

#[test]
fn close_capped_by_encounter_move() {
    let mut combat = CombatState::new(vec![test_goblin()], 100);
    let fighter = test_fighter();
    let result = close(&mut combat, &fighter, Some(50));
    assert!(result.is_err());
    assert!(result.unwrap_err().contains("too far"));
    assert_eq!(combat.distance, 100);
}

#[test]
fn close_none_caps_at_encounter_move() {
    let mut combat = CombatState::new(vec![test_goblin()], 100);
    let fighter = test_fighter();
    let msg = close(&mut combat, &fighter, None).unwrap();
    assert!(msg.contains("40'"));
    assert_eq!(combat.distance, 60);
}

#[test]
fn close_none_reaches_zero_when_closer() {
    let mut combat = CombatState::new(vec![test_goblin()], 30);
    let fighter = test_fighter();
    let msg = close(&mut combat, &fighter, None).unwrap();
    assert!(msg.contains("30'"));
    assert_eq!(combat.distance, 0);
}

#[test]
fn close_already_at_zero() {
    let mut combat = CombatState::new(vec![test_goblin()], 0);
    let fighter = test_fighter();
    let result = close(&mut combat, &fighter, None);
    assert!(result.is_err());
    assert!(result.unwrap_err().contains("melee range"));
}

#[test]
fn close_logs_entry() {
    let mut combat = CombatState::new(vec![test_goblin()], 60);
    let fighter = test_fighter();
    close(&mut combat, &fighter, Some(20)).unwrap();
    assert!(combat.log.last().unwrap().contains("Grond"));
    assert!(combat.log.last().unwrap().contains("20'"));
}

#[test]
fn close_zero_feet_rejected() {
    let mut combat = CombatState::new(vec![test_goblin()], 60);
    let fighter = test_fighter();
    let result = close(&mut combat, &fighter, Some(0));
    assert_eq!(result.unwrap_err(), "distance to close must be positive.");
    assert_eq!(combat.distance, 60);
}

// --- Coup de grace and helplessness ---

#[test]
fn coup_de_grace_kills_helpless_monster() {
    let mut combat = CombatState::new(vec![test_goblin()], 10);
    combat.monsters[0].helpless = true;
    let fighter = test_fighter();
    let result = coup_de_grace(&mut combat, &fighter, 0).unwrap();
    assert!(result.target_was_helpless);
    assert_eq!(result.attacker, "Grond");
    assert_eq!(result.target, "Goblin");
    assert!(!combat.monsters[0].is_alive());
    assert_eq!(combat.monsters[0].hp, 0);
}

#[test]
fn coup_de_grace_fails_on_non_helpless() {
    let mut combat = CombatState::new(vec![test_goblin()], 10);
    let fighter = test_fighter();
    let result = coup_de_grace(&mut combat, &fighter, 0);
    assert!(result.is_err());
    assert!(result.unwrap_err().contains("not helpless"));
}

#[test]
fn coup_de_grace_fails_on_dead_monster() {
    let mut combat = CombatState::new(vec![test_goblin()], 10);
    combat.monsters[0].hp = 0;
    combat.monsters[0].helpless = true;
    let fighter = test_fighter();
    let result = coup_de_grace(&mut combat, &fighter, 0);
    assert!(result.is_err());
    assert!(result.unwrap_err().contains("already dead"));
}

#[test]
fn coup_de_grace_fails_on_dead_character() {
    let mut combat = CombatState::new(vec![test_goblin()], 10);
    combat.monsters[0].helpless = true;
    let mut fighter = test_fighter();
    fighter.hp = 0;
    let result = coup_de_grace(&mut combat, &fighter, 0);
    assert!(result.is_err());
    assert!(result.unwrap_err().contains("dead and cannot attack"));
}

#[test]
fn coup_de_grace_clears_helpless_flag() {
    let mut combat = CombatState::new(vec![test_goblin()], 10);
    combat.monsters[0].helpless = true;
    let fighter = test_fighter();
    coup_de_grace(&mut combat, &fighter, 0).unwrap();
    assert!(!combat.monsters[0].helpless);
}

#[test]
fn coup_de_grace_logs_result() {
    let mut combat = CombatState::new(vec![test_goblin()], 10);
    combat.monsters[0].helpless = true;
    let fighter = test_fighter();
    coup_de_grace(&mut combat, &fighter, 0).unwrap();
    assert!(combat.log.last().unwrap().contains("dispatches"));
    assert!(combat.log.last().unwrap().contains("auto-kill"));
}

#[test]
fn mod_set_helpless_marks_monster() {
    let mut combat = CombatState::new(vec![test_goblin()], 10);
    assert!(!combat.monsters[0].helpless);
    let msg = set_monster_helpless(&mut combat, 0, true).unwrap();
    assert!(msg.contains("helpless"));
    assert!(combat.monsters[0].helpless);
}

#[test]
fn mod_set_helpless_unmarks_monster() {
    let mut combat = CombatState::new(vec![test_goblin()], 10);
    combat.monsters[0].helpless = true;
    let msg = set_monster_helpless(&mut combat, 0, false).unwrap();
    assert!(msg.contains("no longer helpless"));
    assert!(!combat.monsters[0].helpless);
}

#[test]
fn set_helpless_fails_on_dead() {
    let mut combat = CombatState::new(vec![test_goblin()], 10);
    combat.monsters[0].hp = 0;
    let result = set_monster_helpless(&mut combat, 0, true);
    assert!(result.is_err());
}

#[test]
fn set_helpless_out_of_range_names_the_range() {
    let mut combat = CombatState::new(vec![test_goblin(), test_goblin()], 10);
    let result = set_monster_helpless(&mut combat, 5, true);
    assert_eq!(result.unwrap_err(), "monster index 5 out of range (0-1)");
}

#[test]
fn combat_status_shows_helpless() {
    let mut combat = CombatState::new(vec![test_goblin()], 10);
    combat.monsters[0].helpless = true;
    let party = vec![test_fighter()];
    let status = combat_status(&combat, &party);
    assert!(status.contains("[HELPLESS]"));
}

#[test]
fn combat_status_exact_layout() {
    let mut combat = CombatState::new(vec![test_goblin()], 60);
    combat.monsters[0].turned = true;
    let party = vec![test_fighter()];
    let status = combat_status(&combat, &party);
    assert_eq!(
        status,
        "=== Combat — Round 0 (Declaration) ===\nDistance: 60'\n\nParty:\n  Grond (Fighter) — HP 8/8, AC 3\n\nMonsters:\n  [0] Goblin (HD 1-1) — HP 3/3, AC 6 [TURNED]\n"
    );
}

#[test]
fn coup_de_grace_display() {
    let result = CoupDeGraceResult {
        attacker: "Grond".to_string(),
        target: "Goblin".to_string(),
        target_was_helpless: true,
    };
    let display = result.to_string();
    assert!(display.contains("dispatches"));
    assert!(display.contains("Grond"));
    assert!(display.contains("Goblin"));
    assert!(display.contains("auto-kill"));
}
