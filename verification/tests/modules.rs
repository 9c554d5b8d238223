use ose_engine::bestiary::MonsterDef;
use ose_engine::engine::module::actions::{load_module, module_to_dungeon};
use ose_engine::dice::roll_die;
use ose_engine::model::{parse_hit_dice, CombatState, HitDice};
use ose_engine::rules::module::{
    ConnectionType, ModuleDef, ModuleExit, ModuleLevel, ModuleRoom, PlacedMonster, PlacedTreasure,
};
use ose_engine::state::dungeon::{DoorState, DungeonState, TrapTrigger};
use ose_engine::state::{EngineError, GameMode, GameState};

fn exit(to: &str, door: DoorState) -> ModuleExit {
    ModuleExit { to: to.to_string(), door, connection_type: ConnectionType::Door }
}

fn exit_via(to: &str, door: DoorState, connection_type: ConnectionType) -> ModuleExit {
    ModuleExit { to: to.to_string(), door, connection_type }
}

fn room(name: &str, description: &str, exits: Vec<ModuleExit>) -> ModuleRoom {
    ModuleRoom {
        name: name.to_string(),
        description: description.to_string(),
        trap: None,
        trap_trigger: TrapTrigger::Entry,
        monsters: vec![],
        treasure: vec![],
        exits,
    }
}

fn monster(name: &str, count: u32, undead: Option<bool>) -> PlacedMonster {
    PlacedMonster { name: name.to_string(), count, undead }
}

fn module(name: &str, entry: &str, rooms: Vec<(&str, ModuleRoom)>) -> ModuleDef {
    ModuleDef {
        name: name.to_string(),
        level_range: (1, 3),
        entry_room: entry.to_string(),
        rooms: rooms.into_iter().map(|(k, r)| (k.to_string(), r)).collect(),
        levels: vec![],
    }
}

fn sample_module() -> ModuleDef {
    let mut guard = room(
        "Guard Chamber",
        "Bones litter the floor.",
        vec![exit("entrance", DoorState::Closed), exit("vault", DoorState::Locked)],
    );
    guard.monsters = vec![monster("skeleton", 3, None)];
    let mut vault = room(
        "Treasure Vault",
        "A dusty chest sits in the corner.",
        vec![exit("guard", DoorState::Locked)],
    );
    vault.treasure = vec![
        PlacedTreasure::Coins { gp: 500 },
        PlacedTreasure::Item { item: "Potion of Healing".to_string(), value_gp: 0 },
    ];
    module(
        "Test Crypt",
        "entrance",
        vec![
            (
                "entrance",
                room(
                    "Crypt Entrance",
                    "Stone steps descend into darkness.",
                    vec![exit("guard", DoorState::Closed)],
                ),
            ),
            ("guard", guard),
            ("vault", vault),
        ],
    )
}

fn multi_level_module() -> ModuleDef {
    let mut m = module(
        "Multi-Level Crypt",
        "entrance",
        vec![
            ("entrance", room("Cave Mouth", "", vec![exit("guard", DoorState::Open)])),
            (
                "guard",
                room(
                    "Guard Post",
                    "",
                    vec![
                        exit("entrance", DoorState::Open),
                        exit_via("deep_hall", DoorState::Closed, ConnectionType::Stairs),
                    ],
                ),
            ),
            (
                "deep_hall",
                room(
                    "Deep Hall",
                    "",
                    vec![
                        exit_via("guard", DoorState::Closed, ConnectionType::Stairs),
                        exit("deep_vault", DoorState::Locked),
                    ],
                ),
            ),
            ("deep_vault", room("Deep Vault", "", vec![exit("deep_hall", DoorState::Locked)])),
        ],
    );
    m.levels = vec![
        (
            "surface".to_string(),
            ModuleLevel {
                name: "Surface Level".to_string(),
                dungeon_level: 1,
                wandering_table: None,
                rooms: vec!["entrance".to_string(), "guard".to_string()],
            },
        ),
        (
            "depths".to_string(),
            ModuleLevel {
                name: "The Depths".to_string(),
                dungeon_level: 2,
                wandering_table: Some("depths_wandering".to_string()),
                rooms: vec!["deep_hall".to_string(), "deep_vault".to_string()],
            },
        ),
    ];
    m
}

fn room_named<'a>(d: &'a DungeonState, name: &str) -> &'a ose_engine::state::dungeon::Room {
    d.rooms.iter().find(|r| r.name == name).unwrap()
}

fn level_of(d: &DungeonState, key: &str) -> u32 {
    d.level_map.iter().find(|(k, _)| k == key).unwrap().1
}

#[test]
fn module_to_dungeon_creates_rooms() {
    let dungeon = module_to_dungeon(&sample_module()).unwrap();
    assert_eq!(dungeon.rooms.len(), 3);
}

#[test]
fn module_to_dungeon_entry_room_is_current() {
    let dungeon = module_to_dungeon(&sample_module()).unwrap();
    assert_eq!(dungeon.current_room, Some(0));
    assert!(dungeon.explored.contains(&0));
    let entry = dungeon.find_room(0).unwrap();
    assert_eq!(entry.name, "Crypt Entrance");
}

#[test]
fn module_to_dungeon_creates_doors() {
    let dungeon = module_to_dungeon(&sample_module()).unwrap();
    assert_eq!(dungeon.doors.len(), 2);
}

#[test]
fn module_to_dungeon_door_states() {
    let dungeon = module_to_dungeon(&sample_module()).unwrap();
    let locked_door =
        dungeon.doors.iter().find(|d| d.state == DoorState::Locked).expect("should have a locked door");
    let room_ids: Vec<u32> = vec![locked_door.room_a, locked_door.room_b];
    let guard_id = room_named(&dungeon, "Guard Chamber").id;
    let vault_id = room_named(&dungeon, "Treasure Vault").id;
    assert!(room_ids.contains(&guard_id));
    assert!(room_ids.contains(&vault_id));
}

#[test]
fn module_to_dungeon_room_descriptions() {
    let dungeon = module_to_dungeon(&sample_module()).unwrap();
    let vault = room_named(&dungeon, "Treasure Vault");
    assert_eq!(vault.description, "A dusty chest sits in the corner.");
}

#[test]
fn module_to_dungeon_sets_level() {
    let dungeon = module_to_dungeon(&sample_module()).unwrap();
    assert_eq!(dungeon.level, 1);
}

#[test]
fn module_to_dungeon_logs_load() {
    let dungeon = module_to_dungeon(&sample_module()).unwrap();
    assert!(dungeon.log.iter().any(|m| m.contains("Test Crypt")));
}

#[test]
fn module_to_dungeon_loads_monsters() {
    let dungeon = module_to_dungeon(&sample_module()).unwrap();
    let guard = room_named(&dungeon, "Guard Chamber");
    assert_eq!(guard.placed_monsters.len(), 1);
    assert_eq!(guard.placed_monsters[0].name, "skeleton");
    assert_eq!(guard.placed_monsters[0].count, 3);
    assert!(!guard.placed_monsters[0].spawned);
    assert!(!guard.monsters_cleared);
}

#[test]
fn module_to_dungeon_propagates_undead() {
    let mut crypt = room("Bone Crypt", "", vec![exit("hall", DoorState::Closed)]);
    crypt.monsters = vec![monster("Frosted Skeleton", 4, Some(true)), monster("Ice Spider", 2, None)];
    let m = module(
        "Undead Test",
        "hall",
        vec![("hall", room("Hall", "", vec![exit("crypt", DoorState::Closed)])), ("crypt", crypt)],
    );
    let dungeon = module_to_dungeon(&m).unwrap();
    let crypt = room_named(&dungeon, "Bone Crypt");
    assert_eq!(crypt.placed_monsters.len(), 2);
    assert_eq!(crypt.placed_monsters[0].undead, Some(true));
    assert_eq!(crypt.placed_monsters[1].undead, None);
}

#[test]
fn module_to_dungeon_loads_treasure() {
    let dungeon = module_to_dungeon(&sample_module()).unwrap();
    let vault = room_named(&dungeon, "Treasure Vault");
    assert_eq!(vault.placed_treasure.len(), 2);
    assert!(vault.placed_treasure[0].description.contains("500"));
    assert_eq!(vault.placed_treasure[0].gp_value, 500);
    assert_eq!(vault.placed_treasure[1].description, "Potion of Healing");
    assert_eq!(vault.placed_treasure[1].gp_value, 0);
    assert!(!vault.treasure_looted);
}

#[test]
fn module_to_dungeon_item_treasure_with_value_gp() {
    let mut crypt = room("Family Crypt", "A dusty crypt.", vec![]);
    crypt.treasure = vec![
        PlacedTreasure::Item { item: "Pearl necklace (500gp)".to_string(), value_gp: 500 },
        PlacedTreasure::Item { item: "Silver-framed mirror (1000gp)".to_string(), value_gp: 1000 },
        PlacedTreasure::Item { item: "Potion of Healing".to_string(), value_gp: 0 },
        PlacedTreasure::Coins { gp: 50 },
    ];
    let m = module("Valued Items", "crypt", vec![("crypt", crypt)]);
    let dungeon = module_to_dungeon(&m).unwrap();
    let crypt = &dungeon.rooms[0];
    assert_eq!(crypt.placed_treasure.len(), 4);
    assert_eq!(crypt.placed_treasure[0].description, "Pearl necklace (500gp)");
    assert_eq!(crypt.placed_treasure[0].gp_value, 500);
    assert_eq!(crypt.placed_treasure[1].description, "Silver-framed mirror (1000gp)");
    assert_eq!(crypt.placed_treasure[1].gp_value, 1000);
    assert_eq!(crypt.placed_treasure[2].description, "Potion of Healing");
    assert_eq!(crypt.placed_treasure[2].gp_value, 0);
    assert_eq!(crypt.placed_treasure[3].gp_value, 50);
}

#[test]
fn module_to_dungeon_deterministic_room_ids() {
    let m = sample_module();
    let results: Vec<Vec<(u32, String)>> = (0..5)
        .map(|_| {
            let dungeon = module_to_dungeon(&m).unwrap();
            dungeon.rooms.iter().map(|r| (r.id, r.name.clone())).collect::<Vec<_>>()
        })
        .collect();
    for result in &results[1..] {
        assert_eq!(&results[0], result, "room IDs should be deterministic across runs");
    }
}

#[test]
fn module_to_dungeon_sets_room_keys() {
    let dungeon = module_to_dungeon(&sample_module()).unwrap();
    let entry = dungeon.find_room(0).unwrap();
    assert_eq!(entry.key, Some("entrance".to_string()));
    let guard = room_named(&dungeon, "Guard Chamber");
    assert_eq!(guard.key, Some("guard".to_string()));
}

#[test]
fn module_to_dungeon_open_doors_are_module_open() {
    let m = module(
        "Open Passage Test",
        "hall",
        vec![
            (
                "hall",
                room(
                    "Great Hall",
                    "A wide hall.",
                    vec![exit("gallery", DoorState::Open), exit("cellar", DoorState::Closed)],
                ),
            ),
            ("gallery", room("Gallery", "An open gallery.", vec![exit("hall", DoorState::Open)])),
            ("cellar", room("Cellar", "A dark cellar.", vec![exit("hall", DoorState::Closed)])),
        ],
    );
    let dungeon = module_to_dungeon(&m).unwrap();
    let open_door = dungeon.doors.iter().find(|d| d.state == DoorState::Open).expect("should have an open door");
    assert!(open_door.module_open, "module-defined open door should have module_open = true");
    let closed_door =
        dungeon.doors.iter().find(|d| d.state == DoorState::Closed).expect("should have a closed door");
    assert!(!closed_door.module_open, "closed door should have module_open = false");
}

#[test]
fn module_to_dungeon_propagates_trap_trigger() {
    let mut pit = room("Pit Room", "", vec![exit("entrance", DoorState::Closed)]);
    pit.trap = Some("Pit trap (1d6 damage)".to_string());
    let mut mirror = room("Freezing Mirror", "", vec![exit("entrance", DoorState::Closed)]);
    mirror.trap = Some("Save vs paralysis or be frozen".to_string());
    mirror.trap_trigger = TrapTrigger::Action;
    let m = module(
        "Trap Test",
        "entrance",
        vec![
            (
                "entrance",
                room(
                    "Entrance",
                    "",
                    vec![exit("pit_room", DoorState::Closed), exit("mirror_room", DoorState::Closed)],
                ),
            ),
            ("pit_room", pit),
            ("mirror_room", mirror),
        ],
    );
    let dungeon = module_to_dungeon(&m).unwrap();
    let pit = room_named(&dungeon, "Pit Room");
    assert_eq!(pit.trap_trigger, TrapTrigger::Entry, "pit trap should default to Entry");
    let mirror = room_named(&dungeon, "Freezing Mirror");
    assert_eq!(mirror.trap_trigger, TrapTrigger::Action, "mirror trap should be Action");
}

#[test]
fn load_module_rejects_during_exploration() {
    let mut state = GameState::new();
    let dungeon = module_to_dungeon(&sample_module()).unwrap();
    state.enter_exploration(dungeon, 1);
    let result = load_module(&mut state, Ok(sample_module()), vec![]);
    match result {
        Err(EngineError::WrongState(m)) => assert_eq!(
            m,
            "Cannot load module while in Exploration mode. Save and exit exploration first."
        ),
        _ => panic!("expected a wrong-state error"),
    }
}

#[test]
fn load_module_rejects_during_combat() {
    let mut state = GameState::new();
    let dungeon = module_to_dungeon(&sample_module()).unwrap();
    state.enter_exploration(dungeon, 1);
    state.enter_combat(CombatState::new(vec![], 30));
    let result = load_module(&mut state, Ok(sample_module()), vec![]);
    match result {
        Err(EngineError::WrongState(m)) => assert_eq!(
            m,
            "Cannot load module while in Exploration mode. Save and exit exploration first."
        ),
        _ => panic!("expected a wrong-state error"),
    }
}

#[test]
fn module_to_dungeon_propagates_connection_type() {
    let m = module(
        "Connection Type Test",
        "hall",
        vec![
            (
                "hall",
                room(
                    "Great Hall",
                    "A wide hall.",
                    vec![
                        exit_via("cellar", DoorState::Closed, ConnectionType::Stairs),
                        exit_via("pit_room", DoorState::Open, ConnectionType::Pit),
                        exit("tower", DoorState::Closed),
                    ],
                ),
            ),
            (
                "cellar",
                room("Cellar", "A dark cellar.", vec![exit_via("hall", DoorState::Closed, ConnectionType::Stairs)]),
            ),
            (
                "pit_room",
                room("Pit Room", "A deep pit.", vec![exit_via("hall", DoorState::Open, ConnectionType::Pit)]),
            ),
            ("tower", room("Tower", "A tall tower.", vec![exit("hall", DoorState::Closed)])),
        ],
    );
    let dungeon = module_to_dungeon(&m).unwrap();
    let cellar = room_named(&dungeon, "Cellar").id;
    let hall = room_named(&dungeon, "Great Hall").id;
    let pit_room = room_named(&dungeon, "Pit Room").id;
    let tower = room_named(&dungeon, "Tower").id;
    let joining = |x: u32, y: u32| {
        dungeon
            .doors
            .iter()
            .find(|d| (d.room_a == x && d.room_b == y) || (d.room_a == y && d.room_b == x))
            .unwrap()
            .connection_type
    };
    assert_eq!(joining(hall, cellar), ConnectionType::Stairs);
    assert_eq!(joining(hall, pit_room), ConnectionType::Pit);
    assert_eq!(joining(hall, tower), ConnectionType::Door);
}

#[test]
fn module_to_dungeon_sets_level_keys() {
    let dungeon = module_to_dungeon(&multi_level_module()).unwrap();
    assert_eq!(room_named(&dungeon, "Cave Mouth").level_key, Some("surface".to_string()));
    assert_eq!(room_named(&dungeon, "Guard Post").level_key, Some("surface".to_string()));
    assert_eq!(room_named(&dungeon, "Deep Hall").level_key, Some("depths".to_string()));
    assert_eq!(room_named(&dungeon, "Deep Vault").level_key, Some("depths".to_string()));
}

#[test]
fn module_to_dungeon_sets_current_level_key() {
    let dungeon = module_to_dungeon(&multi_level_module()).unwrap();
    assert_eq!(dungeon.current_level_key, Some("surface".to_string()));
    assert_eq!(dungeon.level, 1);
}

#[test]
fn module_to_dungeon_builds_level_map() {
    let dungeon = module_to_dungeon(&multi_level_module()).unwrap();
    assert_eq!(dungeon.level_map.len(), 2);
    assert_eq!(level_of(&dungeon, "surface"), 1);
    assert_eq!(level_of(&dungeon, "depths"), 2);
}

#[test]
fn module_to_dungeon_no_levels_has_no_level_keys() {
    let dungeon = module_to_dungeon(&sample_module()).unwrap();
    assert!(dungeon.current_level_key.is_none());
    assert!(dungeon.level_map.is_empty());
    for room in &dungeon.rooms {
        assert!(room.level_key.is_none());
    }
}

#[test]
fn module_to_dungeon_status_shows_level_key() {
    let dungeon = module_to_dungeon(&multi_level_module()).unwrap();
    let status = dungeon.status();
    assert!(status.contains("Level: 1 (surface)"), "status should show level key, got: {}", status);
}

// --- Further checks of the conversion and of loading ---

#[test]
fn module_rooms_sorted_by_key_with_entry_first_id() {
    let dungeon = module_to_dungeon(&sample_module()).unwrap();
    let ids: Vec<(u32, String)> = dungeon.rooms.iter().map(|r| (r.id, r.key.clone().unwrap())).collect();
    assert_eq!(
        ids,
        vec![(0, "entrance".to_string()), (1, "guard".to_string()), (2, "vault".to_string())]
    );
    // Doors are numbered in the order their pairs first come up
    assert_eq!((dungeon.doors[0].id, dungeon.doors[0].room_a, dungeon.doors[0].room_b), (0, 0, 1));
    assert_eq!((dungeon.doors[1].id, dungeon.doors[1].room_a, dungeon.doors[1].room_b), (1, 1, 2));
    assert_eq!(room_named(&dungeon, "Treasure Vault").placed_treasure[0].description, "500 gold pieces");
}

#[test]
fn module_entry_key_after_other_keys() {
    // "zoo" sorts last: the other rooms count from 1 before it
    let m = module(
        "Order",
        "zoo",
        vec![
            ("zoo", room("Zoo", "", vec![exit("ant", DoorState::Closed)])),
            ("ant", room("Ant Hill", "", vec![])),
            ("bee", room("Bee Hive", "", vec![])),
        ],
    );
    let d = module_to_dungeon(&m).unwrap();
    let ids: Vec<(u32, String)> = d.rooms.iter().map(|r| (r.id, r.name.clone())).collect();
    assert_eq!(
        ids,
        vec![(1, "Ant Hill".to_string()), (2, "Bee Hive".to_string()), (0, "Zoo".to_string())]
    );
    assert_eq!(d.find_room(0).unwrap().name, "Zoo");
}

#[test]
fn module_exit_to_unknown_room_refused() {
    let m = module("Broken", "a", vec![("a", room("A", "", vec![exit("nowhere", DoorState::Open)]))]);
    let e = module_to_dungeon(&m).unwrap_err();
    assert_eq!(e, "room 'a' has exit to unknown room 'nowhere'");
}

#[test]
fn module_exit_to_itself_refused() {
    let m = module("Loop", "a", vec![("a", room("A", "", vec![exit("a", DoorState::Open)]))]);
    let e = module_to_dungeon(&m).unwrap_err();
    assert_eq!(e, "door 0 cannot connect a room to itself.");
}

#[test]
fn module_exit_to_missing_entry_refused() {
    let m = module("No Entry", "gate", vec![("a", room("A", "", vec![exit("gate", DoorState::Open)]))]);
    let e = module_to_dungeon(&m).unwrap_err();
    assert_eq!(e, "room 0 does not exist.");
}

#[test]
fn load_module_enters_exploration() {
    let mut state = GameState::new();
    let mut bat = MonsterDef::new("Giant Bat", HitDice::new(2, 0), 6, 8);
    bat.xp = 20;
    let r = load_module(&mut state, Ok(multi_level_module()), vec![bat]).unwrap();
    assert_eq!(r.message, "loaded module: Multi-Level Crypt (levels 1-3). 4 rooms.");
    assert_eq!(r.level_range, (1, 3));
    assert_eq!(r.room_count, 4);
    assert_eq!(state.mode, GameMode::Exploration);
    assert_eq!(state.dungeon_level, 1);
    assert!(state.module_monsters.contains_key("giant bat"));
    assert!(!state.module_monsters.contains_key("Giant Bat"));
    let e = load_module(&mut state, Ok(sample_module()), vec![]).unwrap_err();
    assert!(matches!(e, EngineError::WrongState(_)));
}

#[test]
fn load_module_read_failure_is_invalid_input() {
    let mut state = GameState::new();
    let e = load_module(&mut state, Err("module file not found".to_string()), vec![]).unwrap_err();
    match e {
        EngineError::InvalidInput(m) => assert_eq!(m, "module file not found"),
        _ => panic!("expected invalid input"),
    }
    assert_eq!(state.mode, GameMode::Idle);
}

#[test]
fn module_stairs_take_party_down_a_level() {
    let mut d = module_to_dungeon(&multi_level_module()).unwrap();
    // Rooms by key: deep_hall (1), deep_vault (2), entrance (0), guard (3)
    let guard = room_named(&d, "Guard Post").id;
    let deep_hall = room_named(&d, "Deep Hall").id;
    d.move_to(guard).unwrap();
    assert_eq!(d.level, 1);
    d.move_to(deep_hall).unwrap();
    assert_eq!(d.level, 2);
    assert_eq!(d.current_level_key, Some("depths".to_string()));
    assert!(d.status().starts_with("Level: 2 (depths)\n"));
}

#[test]
fn parse_hit_dice_reads_each_written_form() {
    assert_eq!(parse_hit_dice("3"), Some(HitDice::new(3, 0)));
    assert_eq!(parse_hit_dice("4+1"), Some(HitDice::new(4, 1)));
    assert_eq!(parse_hit_dice("1-1"), Some(HitDice::new(1, -1)));
    assert_eq!(parse_hit_dice("0"), Some(HitDice::new(0, 0)));
    assert_eq!(parse_hit_dice("9999+9999"), Some(HitDice::new(9999, 9999)));
}

#[test]
fn parse_hit_dice_refuses_other_text() {
    assert_eq!(parse_hit_dice(""), None);
    assert_eq!(parse_hit_dice("abc"), None);
    assert_eq!(parse_hit_dice("04"), None);
    assert_eq!(parse_hit_dice("4+0"), None);
    assert_eq!(parse_hit_dice("4+"), None);
    assert_eq!(parse_hit_dice("4*1"), None);
    assert_eq!(parse_hit_dice("12345"), None);
    assert_eq!(parse_hit_dice("4+1x"), None);
}

#[test]
fn roll_die_stays_on_the_die() {
    for _ in 0..200 {
        let r = roll_die(6);
        assert!((1..=6).contains(&r));
    }
    assert_eq!(roll_die(1), 1);
}
