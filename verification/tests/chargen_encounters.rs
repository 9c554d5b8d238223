use ose_engine::engine::chargen::{
    character_sheet, create_character, roll_abilities, roll_gold, roll_hp,
};
use ose_engine::dice::{parse_i32, parse_u32};
use ose_engine::engine::encounter_engine::{
    attempt_evasion, begin_encounter_dungeon, begin_encounter_wilderness, check_surprise,
    encounter_distance_dungeon, encounter_distance_wilderness, reaction_roll, SurpriseResult,
};
use ose_engine::engine::gm::actions::action_thief_skill_check;
use ose_engine::model::{Alignment, Character, Class};
use ose_engine::rules::save::{saving_throws, SavingThrows};
use ose_engine::rules::thief::{check_skill, skill_chance, ThiefSkill};
use ose_engine::engine::encounter::actions::roll_encounter_with;
use ose_engine::engine::encounter::results::EncounterEntry;
use ose_engine::state::{EngineError, GameMode, GameState};

// --- Character generation ---

#[test]
fn roll_abilities_bounds() {
    let abilities = roll_abilities();
    for &a in &abilities {
        assert!(a >= 3 && a <= 18, "ability {} out of range", a);
    }
}

#[test]
fn roll_hp_minimum_1() {
    let hp = roll_hp(4, -10);
    assert_eq!(hp, 1);
}

#[test]
fn roll_hp_bounds() {
    for _ in 0..100 {
        let hp = roll_hp(8, 0);
        assert!(hp >= 1 && hp <= 8);
    }
}

#[test]
fn roll_gold_3d6x10() {
    let gold = roll_gold("3d6x10");
    assert!(gold >= 30 && gold <= 180, "gold {} out of range", gold);
}

#[test]
fn create_fighter() {
    let abilities = [14, 10, 10, 12, 13, 10];
    let c = create_character("Grond", Class::Fighter, abilities, Alignment::Neutral);
    assert_eq!(c.name, "Grond");
    assert_eq!(c.class, Class::Fighter);
    assert_eq!(c.level, 1);
    assert_eq!(c.alignment, Alignment::Neutral);
    assert_eq!(c.thac0, 19);
    assert_eq!(c.movement_rate, 120);
    assert!(c.hp >= 1);
    assert!(c.gold_gp >= 30 && c.gold_gp <= 180);
    let saves = c.saving_throws.unwrap();
    assert_eq!(saves, SavingThrows::new(12, 13, 14, 15, 16));
}

#[test]
fn create_magic_user() {
    let abilities = [8, 16, 10, 12, 10, 11];
    let c = create_character("Elara", Class::MagicUser, abilities, Alignment::Chaotic);
    assert_eq!(c.class, Class::MagicUser);
    assert!(c.hp >= 1 && c.hp <= 4);
    assert_eq!(c.thac0, 19);
    let saves = c.saving_throws.unwrap();
    assert_eq!(saves, SavingThrows::new(13, 14, 13, 16, 15));
}

#[test]
fn create_dwarf_with_racial_mods() {
    // CON 14 and CHA 10 after the dwarf's adjustment (+1 CON, -1 CHA)
    let abilities = [14, 10, 10, 10, 15, 9];
    let c = create_character("Thorin", Class::Dwarf, abilities, Alignment::Lawful);
    assert_eq!(c.class, Class::Dwarf);
    assert_eq!(c.abilities.constitution, 15);
    assert_eq!(c.abilities.charisma, 9);
    let saves = c.saving_throws.unwrap();
    assert_eq!(saves, SavingThrows::new(8, 9, 10, 13, 12));
}

#[test]
fn create_thief_ac_with_dex() {
    // DEX 16 improves AC by 2
    let abilities = [10, 10, 10, 16, 10, 10];
    let c = create_character("Shadow", Class::Thief, abilities, Alignment::Neutral);
    assert_eq!(c.ac, 7);
}

#[test]
fn character_sheet_contains_key_info() {
    let abilities = [14, 10, 10, 12, 13, 10];
    let c = create_character("Grond", Class::Fighter, abilities, Alignment::Neutral);
    let sheet = character_sheet(&c);
    assert!(sheet.contains("Grond"));
    assert!(sheet.contains("Fighter"));
    assert!(sheet.contains("Neutral"));
    assert!(sheet.contains("STR: 14"));
    assert!(sheet.contains("THAC0: 19"));
    assert!(sheet.contains("Movement: 120'"));
    assert!(sheet.contains("Death:"));
    assert!(sheet.contains("Gold:"));
}

#[test]
fn character_sheet_saves_line() {
    let abilities = [14, 10, 10, 12, 13, 10];
    let c = create_character("Grond", Class::Fighter, abilities, Alignment::Neutral);
    let sheet = character_sheet(&c);
    assert!(sheet.contains(
        "\nSaving Throws:\n  Death: 12  Wands: 13  Paralysis: 14  Breath: 15  Spells: 16\n\nGold: "
    ));
    let plain = Character::new("Plain", Class::Fighter);
    assert!(!character_sheet(&plain).contains("Saving Throws"));
}

#[test]
fn saving_throws_by_level() {
    assert_eq!(saving_throws(Class::Cleric, 1), SavingThrows::new(11, 12, 14, 16, 15));
    assert_eq!(saving_throws(Class::Cleric, 5), SavingThrows::new(9, 10, 12, 14, 12));
    assert_eq!(saving_throws(Class::Fighter, 13), SavingThrows::new(4, 5, 6, 5, 8));
    assert_eq!(saving_throws(Class::Elf, 10), SavingThrows::new(6, 7, 8, 8, 8));
    assert_eq!(saving_throws(Class::Halfling, 4), SavingThrows::new(6, 7, 8, 10, 10));
    assert_eq!(saving_throws(Class::Thief, 9), SavingThrows::new(10, 11, 9, 12, 10));
    assert_eq!(saving_throws(Class::MagicUser, 0), SavingThrows::new(13, 14, 13, 16, 15));
    // A higher level never makes a save harder
    let low = saving_throws(Class::Fighter, 2);
    let high = saving_throws(Class::Fighter, 9);
    assert!(high.death <= low.death && high.spells <= low.spells);
}

// --- Thief skills ---

#[test]
fn thief_skill_table() {
    assert_eq!(skill_chance(ThiefSkill::ClimbWalls, 1), 87);
    assert_eq!(skill_chance(ThiefSkill::FindTraps, 6), 40);
    assert_eq!(skill_chance(ThiefSkill::HearNoise, 7), 4);
    assert_eq!(skill_chance(ThiefSkill::HideShadows, 6), 36);
    assert_eq!(skill_chance(ThiefSkill::MoveSilently, 14), 99);
    assert_eq!(skill_chance(ThiefSkill::OpenLocks, 3), 25);
    assert_eq!(skill_chance(ThiefSkill::PickPockets, 20), 125);
    assert_eq!(skill_chance(ThiefSkill::ReadLanguages, 3), 0);
    assert_eq!(skill_chance(ThiefSkill::ReadLanguages, 4), 80);
    assert!(check_skill(ThiefSkill::OpenLocks, 3, 25).success);
    assert!(!check_skill(ThiefSkill::OpenLocks, 3, 26).success);
    assert!(check_skill(ThiefSkill::HearNoise, 1, 2).success);
    assert!(!check_skill(ThiefSkill::HearNoise, 1, 3).success);
}

fn party_with(c: Character) -> GameState {
    let mut state = GameState::new();
    state.party.add_member(c);
    state
}

#[test]
fn thief_skill_check_reports_roll() {
    let mut thief = Character::new("Shadow", Class::Thief);
    thief.level = 3;
    let state = party_with(thief);
    for _ in 0..50 {
        let r = action_thief_skill_check(&state, "shadow", "Open Locks").unwrap();
        assert_eq!(r.character, "Shadow");
        assert_eq!(r.skill, "Open Locks");
        assert_eq!(r.level, 3);
        assert_eq!(r.target, 25);
        assert_eq!(r.die_type, "d%");
        assert!(r.roll >= 1 && r.roll <= 100);
        assert_eq!(r.success, r.roll <= 25);
        let verdict = if r.success { "SUCCESS" } else { "FAILURE" };
        assert_eq!(
            r.message,
            format!(
                "Shadow attempts Open Locks (level 3): target 25, rolled {} (d%) — {}.",
                r.roll, verdict
            )
        );
    }
    let r = action_thief_skill_check(&state, "Shadow", "hear_noise").unwrap();
    assert_eq!(r.die_type, "d6");
    assert_eq!(r.target, 3);
    assert!(r.roll >= 1 && r.roll <= 6);
    let r = action_thief_skill_check(&state, "Shadow", "Hide-In Shadows").unwrap();
    assert_eq!(r.skill, "Hide in Shadows");
}

#[test]
fn thief_skill_check_refusals() {
    let state = party_with(Character::new("Grond", Class::Fighter));
    let e = action_thief_skill_check(&state, "Grond", "climb").unwrap_err();
    assert_eq!(e.to_string(), "Grond (Fighter) does not have thief skills.");
    let e = action_thief_skill_check(&state, "Nobody", "climb").unwrap_err();
    assert_eq!(e.to_string(), "no party member named 'Nobody'.");
    let state = party_with(Character::new("Shadow", Class::Thief));
    let e = action_thief_skill_check(&state, "Shadow", "juggle").unwrap_err();
    assert_eq!(e.to_string(), "unknown thief skill 'juggle'.");
}

// --- Encounters ---

#[test]
fn surprise_produces_valid_results() {
    for _ in 0..100 {
        let (result, p, m) = check_surprise();
        assert!((1..=6).contains(&p));
        assert!((1..=6).contains(&m));
        match (p <= 2, m <= 2) {
            (true, true) => assert_eq!(result, SurpriseResult::BothSurprised),
            (true, false) => assert_eq!(result, SurpriseResult::MonstersSurprise),
            (false, true) => assert_eq!(result, SurpriseResult::PartySurprises),
            (false, false) => assert_eq!(result, SurpriseResult::Neither),
        }
    }
}

#[test]
fn dungeon_distance_normal_bounds() {
    for _ in 0..100 {
        let d = encounter_distance_dungeon(false);
        assert!(d >= 20 && d <= 120, "got distance {}", d);
    }
}

#[test]
fn dungeon_distance_surprised_bounds() {
    for _ in 0..100 {
        let d = encounter_distance_dungeon(true);
        assert!(d >= 10 && d <= 40, "got distance {}", d);
    }
}

#[test]
fn wilderness_distance_bounds() {
    for _ in 0..100 {
        let d = encounter_distance_wilderness(false);
        assert!(d >= 40 && d <= 240, "got distance {}", d);
    }
}

#[test]
fn reaction_roll_with_high_cha() {
    let (_reaction, raw, modified) = reaction_roll(18);
    assert!(modified >= raw);
}

#[test]
fn reaction_roll_with_low_cha() {
    let (_reaction, raw, modified) = reaction_roll(3);
    assert!(modified <= raw);
}

#[test]
fn evasion_faster_party_auto_success() {
    for _ in 0..50 {
        let result = attempt_evasion(4, 120, 6, 90);
        assert!(result.escaped, "faster party should always escape");
        assert!(result.roll.is_none(), "auto-escape should have no roll");
        assert!(result.chance.is_none(), "auto-escape should have no chance");
    }
}

#[test]
fn evasion_small_party_vs_more_monsters() {
    let mut escaped = 0;
    for _ in 0..200 {
        let result = attempt_evasion(4, 90, 6, 120);
        assert_eq!(result.chance, Some(50), "should be 50% chance");
        assert!(result.roll.is_some(), "non-auto should have a roll");
        if result.escaped {
            escaped += 1;
        }
    }
    assert!(escaped > 70 && escaped < 130, "expected ~50% escape rate, got {}", escaped);
}

#[test]
fn evasion_small_party_vs_fewer_monsters() {
    let mut escaped = 0;
    for _ in 0..200 {
        let result = attempt_evasion(4, 90, 2, 120);
        assert_eq!(result.chance, Some(70), "should be 70% chance");
        if result.escaped {
            escaped += 1;
        }
    }
    assert!(escaped > 100, "expected ~70% escape rate, got {}", escaped);
}

#[test]
fn evasion_large_party_low_chance() {
    let mut escaped = 0;
    for _ in 0..1000 {
        let result = attempt_evasion(30, 60, 50, 120);
        assert_eq!(result.chance, Some(10), "should be 10% chance");
        if result.escaped {
            escaped += 1;
        }
    }
    assert!(escaped > 0, "should have at least some chance of escape");
    assert!(escaped < 200, "expected ~10% escape rate, got {}", escaped);
}

#[test]
fn begin_encounter_dungeon_sequence() {
    let seq = begin_encounter_dungeon();
    assert!(!seq.messages.is_empty());
    assert!(seq.messages.iter().any(|m| m.contains("Surprise")));
    assert!(seq.messages.iter().any(|m| m.contains("distance")));
}

#[test]
fn begin_encounter_wilderness_sequence() {
    let seq = begin_encounter_wilderness();
    assert!(!seq.messages.is_empty());
    assert!(seq.messages.iter().any(|m| m.contains("yards")));
}

#[test]
fn roll_gold_reads_multiplier_and_plain_dice() {
    assert_eq!(roll_gold("1d1x5"), 5);
    assert_eq!(roll_gold("1d1xabc"), 1);
    assert_eq!(roll_gold("1d1x+7"), 7);
    assert_eq!(roll_gold("1d1-3"), 0);
    for _ in 0..50 {
        let g = roll_gold("2d4");
        assert!((2..=8).contains(&g));
    }
    assert_eq!(roll_gold("1d1x4294967295"), 4294967295);
    assert_eq!(roll_gold("2d1x4294967295"), u32::MAX);
}

#[test]
fn parse_u32_follows_from_str() {
    assert_eq!(parse_u32("12"), Some(12));
    assert_eq!(parse_u32("+12"), Some(12));
    assert_eq!(parse_u32("007"), Some(7));
    assert_eq!(parse_u32("4294967295"), Some(u32::MAX));
    assert_eq!(parse_u32("4294967296"), None);
    assert_eq!(parse_u32(""), None);
    assert_eq!(parse_u32("+"), None);
    assert_eq!(parse_u32("-1"), None);
    assert_eq!(parse_u32("1a"), None);
    for t in ["12", "+12", "007", "4294967295", "4294967296", "", "+", "-1", "1a", "99999999999"] {
        assert_eq!(parse_u32(t), t.parse::<u32>().ok());
    }
}

fn exploring_state(level: u32) -> GameState {
    let mut state = GameState::new();
    state.mode = GameMode::Exploration;
    state.dungeon_level = level;
    state
}

fn entry(name: &str, number: &str) -> Option<EncounterEntry> {
    Some(EncounterEntry { name: name.to_string(), number: number.to_string() })
}

#[test]
fn roll_encounter_with_fixed_number() {
    let state = exploring_state(2);
    let r = roll_encounter_with(&state, 7, entry("Goblin", "4")).unwrap();
    assert_eq!(r.context, "dungeon");
    assert_eq!(r.level, Some(2));
    assert_eq!(r.terrain, None);
    assert_eq!(r.table_roll, 7);
    assert_eq!(r.monster_name, "Goblin");
    assert_eq!(r.number_notation, "4");
    assert_eq!(r.number_appearing, 4);
    assert!((1..=6).contains(&r.party_surprise_roll));
    assert!(r.message.starts_with("ENCOUNTER — Dungeon Level 2\nTable roll: 7 → Goblin\nNumber appearing: 4 → 4\nSurprise: party "));
    assert!(r.message.ends_with(&format!("Distance: {}' feet", r.distance)));
}

#[test]
fn roll_encounter_with_dice_number() {
    let state = exploring_state(1);
    for _ in 0..20 {
        let r = roll_encounter_with(&state, 3, entry("Orc", "2d4")).unwrap();
        assert!((2..=8).contains(&r.number_appearing));
    }
}

#[test]
fn roll_encounter_with_refusals() {
    let r = roll_encounter_with(&exploring_state(0), 3, entry("Orc", "1"));
    assert!(matches!(r, Err(EngineError::WrongState(t)) if t == "dungeon level not set. Use EnterDungeon first."));
    let r = roll_encounter_with(&exploring_state(1), 3, None);
    assert!(matches!(r, Err(EngineError::Internal(t)) if t == "no encounter found for this roll."));
    let r = roll_encounter_with(&exploring_state(1), 3, entry("Orc", "lots"));
    assert!(matches!(r, Err(EngineError::Internal(t)) if t == "bad dice expr 'lots': not a number or dice expression"));
    let r = roll_encounter_with(&GameState::new(), 3, entry("Orc", "1"));
    assert!(matches!(r, Err(EngineError::WrongState(t)) if t == "encounter requires exploration or wilderness mode."));
}
