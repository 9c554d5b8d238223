use ose_engine::bestiary::{ModuleMonsters, MonsterDef, find_monster};
use ose_engine::engine::combat::spawn::{
    SpawnEncounterParams, action_add_monster, action_spawn_monster, action_spawn_placed, hit_dice_fit,
    module_defs_fit_check, roll_monster_hp,
};
use ose_engine::model::{Character, Class, CombatState, HitDice, Monster};
use ose_engine::state::dungeon::{DungeonState, PlacedMonsterInstance, Room};
use ose_engine::state::{GameMode, GameState};

fn test_fighter() -> Character {
    let mut c = Character::new("Grond", Class::Fighter);
    c.hp = 12;
    c.max_hp = 12;
    c.ac = 4;
    c.level = 2;
    c.abilities.strength = 16;
    c
}

fn mk_monster(name: &str, hd: u32, hp: i32, ac: i32, morale: u32) -> Monster {
    let mut monster = Monster::new(name, HitDice::new(hd, 0));
    monster.hp = hp;
    monster.max_hp = hp;
    monster.ac = ac;
    monster.damage = "1d6".to_string();
    monster.morale = morale;
    monster
}

fn exploration_state_with_placed(monsters: Vec<PlacedMonsterInstance>) -> GameState {
    let mut state = GameState::new();
    state.party.add_member(test_fighter());

    let mut dungeon = DungeonState::new(1);
    let mut room = Room::new(0, "Guard Chamber");
    room.placed_monsters = monsters;
    dungeon.add_room(room).unwrap();
    dungeon.current_room = Some(0);

    state.enter_exploration(dungeon, 1);
    state
}

fn err_text<T>(r: Result<T, ose_engine::state::EngineError>) -> String {
    match r {
        Ok(_) => panic!("expected an error"),
        Err(e) => e.to_string(),
    }
}

#[test]
fn spawn_placed_core_db_monster() {
    if find_monster("Skeleton").is_none() {
        return;
    }
    let placed = vec![PlacedMonsterInstance::new("Skeleton", 3)];
    let mut state = exploration_state_with_placed(placed);

    let result = action_spawn_placed(&mut state, 10, None).unwrap();
    assert_eq!(result.distance, 10);
    assert_eq!(result.spawned.len(), 1);
    assert_eq!(result.spawned[0].name, "Skeleton");
    assert_eq!(result.spawned[0].count, 3);
    assert_eq!(result.spawned[0].source, "core");
    assert!(result.unresolved.is_empty());
    assert_eq!(state.mode, GameMode::Combat);
    assert_eq!(state.combat.as_ref().unwrap().monsters.len(), 3);
}

#[test]
fn spawn_placed_module_monster() {
    let placed = vec![PlacedMonsterInstance::new("Frost Giant", 2)];
    let mut state = exploration_state_with_placed(placed);

    let def = MonsterDef::new("Frost Giant", HitDice::new(10, 0), 4, 12);
    state.module_monsters.insert("frost giant".to_string(), def);

    let result = action_spawn_placed(&mut state, 20, None).unwrap();
    assert_eq!(result.spawned[0].source, "module");
    assert_eq!(result.spawned[0].count, 2);
    assert_eq!(state.combat.as_ref().unwrap().monsters.len(), 2);
}

#[test]
fn spawn_placed_no_dungeon_error() {
    let mut state = GameState::new();
    state.party.add_member(test_fighter());

    let result = action_spawn_placed(&mut state, 10, None);
    assert!(result.is_err());
    assert!(err_text(result).contains("not in exploration"));
}

#[test]
fn spawn_placed_combat_active_error() {
    let placed = vec![PlacedMonsterInstance::new("Skeleton", 1)];
    let mut state = exploration_state_with_placed(placed);
    state.enter_combat(CombatState::new(vec![mk_monster("Orc", 1, 4, 6, 8)], 30));

    let result = action_spawn_placed(&mut state, 10, None);
    assert!(result.is_err());
    assert!(err_text(result).contains("combat already active"));
}

#[test]
fn spawn_placed_no_unspawned_error() {
    let mut placed = PlacedMonsterInstance::new("Skeleton", 1);
    placed.spawned = true;
    let mut state = exploration_state_with_placed(vec![placed]);

    let result = action_spawn_placed(&mut state, 10, None);
    assert!(result.is_err());
    assert!(err_text(result).contains("no unspawned"));
}

#[test]
fn spawn_placed_unresolved_monster_error() {
    let placed = vec![PlacedMonsterInstance::new("Unknown Beast", 1)];
    let mut state = exploration_state_with_placed(placed);

    let result = action_spawn_placed(&mut state, 10, None);
    assert!(result.is_err());
    assert!(err_text(result).contains("Unknown Beast"));
}

#[test]
fn spawn_placed_name_filter() {
    if find_monster("Skeleton").is_none() {
        return;
    }
    let placed = vec![
        PlacedMonsterInstance::new("Skeleton", 3),
        PlacedMonsterInstance::new("Zombie", 2),
    ];
    let mut state = exploration_state_with_placed(placed);

    let result = action_spawn_placed(&mut state, 10, Some("Skeleton")).unwrap();
    assert_eq!(result.spawned.len(), 1);
    assert_eq!(result.spawned[0].name, "Skeleton");
    assert_eq!(state.combat.as_ref().unwrap().monsters.len(), 3);

    let dungeon = state.dungeon.as_ref().unwrap();
    let room = dungeon.find_room(0).unwrap();
    let zombie = room.placed_monsters.iter().find(|m| m.name == "Zombie").unwrap();
    assert!(!zombie.spawned);
}

#[test]
fn spawn_placed_marks_spawned() {
    if find_monster("Skeleton").is_none() {
        return;
    }
    let placed = vec![PlacedMonsterInstance::new("Skeleton", 3)];
    let mut state = exploration_state_with_placed(placed);

    let _ = action_spawn_placed(&mut state, 10, None).unwrap();

    let dungeon = state.dungeon.as_ref().unwrap();
    let room = dungeon.find_room(0).unwrap();
    assert!(room.placed_monsters[0].spawned);
}

#[test]
fn spawn_placed_undead_from_placed_monster() {
    let mut placed = PlacedMonsterInstance::new("Custom Undead", 2);
    placed.undead = Some(true);
    let mut state = exploration_state_with_placed(vec![placed]);

    let def = MonsterDef::new("Custom Undead", HitDice::new(3, 0), 7, 12);
    state.module_monsters.insert("custom undead".to_string(), def);

    let _result = action_spawn_placed(&mut state, 10, None).unwrap();
    let combat = state.combat.as_ref().unwrap();
    assert!(combat.monsters[0].undead, "should be undead from placed monster flag");
}

#[test]
fn spawn_placed_partial_success_with_unresolved() {
    if find_monster("Skeleton").is_none() {
        return;
    }
    let placed = vec![
        PlacedMonsterInstance::new("Skeleton", 2),
        PlacedMonsterInstance::new("Unknown Horror", 1),
    ];
    let mut state = exploration_state_with_placed(placed);

    let result = action_spawn_placed(&mut state, 10, None).unwrap();
    assert_eq!(result.spawned.len(), 1);
    assert_eq!(result.spawned[0].name, "Skeleton");
    assert_eq!(result.unresolved, vec!["Unknown Horror"]);
    assert!(result.message.contains("WARNING"));
    assert_eq!(state.combat.as_ref().unwrap().monsters.len(), 2);
}

#[test]
fn spawn_placed_message_lists_kinds() {
    let placed = vec![PlacedMonsterInstance::new("Skeleton", 2)];
    let mut state = exploration_state_with_placed(placed);
    let result = action_spawn_placed(&mut state, 30, None).unwrap();
    assert_eq!(
        result.message,
        "combat started: placed monsters at 30' distance. Skeleton x2 (HD 1, AC 7, Morale 12, 10 XP) [core]. Special: Undead: immune to sleep, charm and hold."
    );
    let combat = state.combat.as_ref().unwrap();
    assert_eq!(combat.monsters[0].name, "Skeleton 1");
    assert_eq!(combat.monsters[1].name, "Skeleton 2");
    assert!(combat.monsters.iter().all(|m| m.hp >= 1 && m.hp <= 8 && m.undead));
    assert_eq!(state.pre_combat_mode, Some(GameMode::Exploration));
}

#[test]
fn spawn_placed_only_unresolved_names_them() {
    let placed = vec![
        PlacedMonsterInstance::new("Unknown Beast", 1),
        PlacedMonsterInstance::new("Odd Thing", 2),
    ];
    let mut state = exploration_state_with_placed(placed);
    let e = err_text(action_spawn_placed(&mut state, 10, None));
    assert_eq!(
        e,
        "no monster definitions found for: Unknown Beast, Odd Thing. Use SpawnEncounter with manual stats."
    );
    assert!(state.combat.is_none());
}

#[test]
fn spawn_placed_filter_names_missing_kind() {
    let placed = vec![PlacedMonsterInstance::new("Skeleton", 1)];
    let mut state = exploration_state_with_placed(placed);
    let e = err_text(action_spawn_placed(&mut state, 10, Some("Wolf")));
    assert_eq!(e, "no unspawned placed monster named 'Wolf' in this room.");
}

#[test]
fn spawn_placed_filter_ignores_ascii_case() {
    let placed = vec![PlacedMonsterInstance::new("Skeleton", 1)];
    let mut state = exploration_state_with_placed(placed);
    let result = action_spawn_placed(&mut state, 10, Some("sKeLeToN")).unwrap();
    assert_eq!(result.spawned.len(), 1);
}

#[test]
fn spawn_placed_missing_room_error() {
    let mut state = exploration_state_with_placed(vec![]);
    state.dungeon.as_mut().unwrap().current_room = Some(7);
    assert_eq!(err_text(action_spawn_placed(&mut state, 10, None)), "room 7 not found.");
    state.dungeon.as_mut().unwrap().current_room = None;
    assert_eq!(err_text(action_spawn_placed(&mut state, 10, None)), "no current room.");
}

#[test]
fn spawn_monster_from_bestiary() {
    let mut state = GameState::new();
    state.party.add_member(test_fighter());
    let result = action_spawn_monster(&mut state, "ogre", 2, 40).unwrap();
    assert_eq!(result.message, "combat started: 2 Ogre(s) at 40' distance.");
    assert_eq!(result.monster_name, "Ogre");
    assert_eq!(result.ac, 5);
    assert_eq!(result.damage, "1d10");
    assert_eq!(result.morale, 10);
    assert_eq!(result.xp_per_monster, 125);
    let combat = state.combat.as_ref().unwrap();
    assert_eq!(combat.monsters.len(), 2);
    assert_eq!(combat.monsters[1].name, "Ogre 2");
    assert!(combat.monsters.iter().all(|m| m.hp >= 5 && m.hp <= 33 && m.hp == m.max_hp));
    assert_eq!(combat.distance, 40);
}

#[test]
fn spawn_monster_special_in_message() {
    let mut state = GameState::new();
    let result = action_spawn_monster(&mut state, "Wight", 1, 10).unwrap();
    assert_eq!(
        result.message,
        "combat started: 1 Wight(s) at 10' distance. Special: Energy drain. Hit only by silver or magic weapons."
    );
    let m = &state.combat.as_ref().unwrap().monsters[0];
    assert_eq!(m.name, "Wight");
    assert!(m.undead && m.immune_to_normal_weapons);
}

#[test]
fn spawn_monster_unknown_and_active_errors() {
    let mut state = GameState::new();
    assert_eq!(
        err_text(action_spawn_monster(&mut state, "Dragon", 1, 10)),
        "unknown monster 'Dragon'. Use SpawnEncounter for custom monsters."
    );
    let _ = action_spawn_monster(&mut state, "Orc", 1, 10).unwrap();
    assert_eq!(
        err_text(action_spawn_monster(&mut state, "Orc", 1, 10)),
        "combat already active. Use 'end_combat' first."
    );
}

#[test]
fn monster_hp_rolls_stay_in_bounds() {
    for _ in 0..50 {
        let small = roll_monster_hp(HitDice::new(0, 0));
        assert!((1..=4).contains(&small));
        let goblin = roll_monster_hp(HitDice::new(1, -1));
        assert!((1..=7).contains(&goblin));
        let bear = roll_monster_hp(HitDice::new(7, 0));
        assert!((7..=56).contains(&bear));
    }
    assert_eq!(roll_monster_hp(HitDice::new(200, 5)), 805);
    assert_eq!(roll_monster_hp(HitDice::new(1, -20)), 1);
}

#[test]
fn module_monsters_read_back_what_was_filed() {
    let mut mm = ModuleMonsters::new();
    mm.insert("troll".to_string(), MonsterDef::new("Troll", HitDice::new(6, 3), 4, 10));
    mm.insert("ghast".to_string(), MonsterDef::new("Ghast", HitDice::new(4, 0), 4, 9));
    mm.insert("troll".to_string(), MonsterDef::new("Cave Troll", HitDice::new(7, 0), 4, 10));
    assert_eq!(mm.get("troll").unwrap().name, "Cave Troll");
    assert_eq!(mm.get("ghast").unwrap().name, "Ghast");
    assert!(mm.get("Troll").is_none());
    assert!(mm.contains_key("ghast"));
    assert_eq!(mm.entries.len(), 2);
}

fn goblin_params<'a>(name: &'a str, count: u32, hd: &'a HitDice) -> SpawnEncounterParams<'a> {
    SpawnEncounterParams {
        name,
        count,
        hit_dice: hd,
        ac: 6,
        hp: 4,
        damage: "1d6",
        morale: 7,
        distance: 30,
        xp_value: None,
        undead: None,
        immune_to_normal_weapons: None,
    }
}

#[test]
fn add_monster_grows_combat_by_count() {
    let mut state = GameState::new();
    state.party.add_member(test_fighter());
    state.mode = GameMode::Combat;
    let hd = HitDice::new(1, 0);
    state.combat = Some(CombatState::new(vec![Monster::new("Orc", hd)], 30));
    let r = action_add_monster(&mut state, &goblin_params("Goblin", 3, &hd)).unwrap();
    let combat = state.combat.as_ref().unwrap();
    assert_eq!(combat.monsters.len(), 4);
    assert_eq!(r.total_monsters, 4);
    assert_eq!(combat.monsters[0].name, "Orc");
    assert_eq!(combat.monsters[1].name, "Goblin 1");
    assert_eq!(combat.monsters[3].name, "Goblin 3");
    assert_eq!(combat.monsters[2].hp, 4);
    assert_eq!(combat.monsters[2].max_hp, 4);
}

#[test]
fn add_monster_refuses_name_of_only_unicode_space() {
    let mut state = GameState::new();
    state.mode = GameMode::Combat;
    let hd = HitDice::new(1, 0);
    state.combat = Some(CombatState::new(vec![Monster::new("Orc", hd)], 30));
    assert!(action_add_monster(&mut state, &goblin_params("\u{a0}", 1, &hd)).is_err());
    assert!(action_add_monster(&mut state, &goblin_params("\u{2003}\t", 1, &hd)).is_err());
    assert_eq!(state.combat.as_ref().unwrap().monsters.len(), 1);
}

#[test]
fn module_definitions_fit_check() {
    assert!(hit_dice_fit(&HitDice::new(4, 1)));
    assert!(hit_dice_fit(&HitDice::new(0, -2)));
    assert!(!hit_dice_fit(&HitDice::new(1, i32::MAX)));
    assert!(!hit_dice_fit(&HitDice::new(u32::MAX, 0)));
    let ok = vec![("orc".to_string(), MonsterDef::new("Orc", HitDice::new(1, 0), 6, 8))];
    assert!(module_defs_fit_check(&ok));
    let mut bad = ok.clone();
    bad.push(("titan".to_string(), MonsterDef::new("Titan", HitDice::new(1, i32::MAX - 2), 2, 12)));
    assert!(!module_defs_fit_check(&bad));
    assert!(module_defs_fit_check(&Vec::new()));
}
