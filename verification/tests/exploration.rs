use ose_engine::engine::exploration::actions::{
    action_add_door, action_add_room, action_advance_dungeon_turn, action_enter_dungeon,
    action_exploration_status, action_force_door, action_light, action_listen_at_door,
    action_look, action_move_through_door, action_open_door, action_pick_lock, action_rest,
    action_search_room,
};
use ose_engine::engine::exploration::{
    advance_dungeon_turn, check_trap, exploration_status, force_door, listen_at_door,
    move_through_door, pick_lock, search_room,
};
use ose_engine::model::{AbilityScores, ActiveEffect, Character, Class, EffectDuration};
use ose_engine::state::dungeon::{
    Door, DoorState, DungeonState, PlacedMonsterInstance, PlacedTreasureInstance, Room,
    TrapTrigger,
};
use ose_engine::state::time::{LightSourceKind, TimeTracker};
use ose_engine::state::{GameMode, GameState};

fn exploration_state() -> GameState {
    let mut state = GameState::new();
    let mut ch = Character::new("Arden", Class::Fighter);
    ch.hp = 8;
    ch.max_hp = 8;
    state.party.add_member(ch);

    let mut dungeon = DungeonState::new(1);
    dungeon.add_room(Room::new(0, "Hall")).unwrap();
    state.enter_exploration(dungeon, 1);

    state.time.as_mut().unwrap().light(LightSourceKind::Lantern, "Arden");
    state
}

fn test_effect(name: &str, turns: u32) -> ActiveEffect {
    ActiveEffect {
        id: 1,
        name: name.to_string(),
        source: "test".to_string(),
        duration: EffectDuration::Turns(turns),
        notes: String::new(),
    }
}

fn test_dungeon() -> DungeonState {
    let mut ds = DungeonState::new(1);
    ds.add_room(Room::new(0, "Entrance Hall")).unwrap();
    ds.add_room(Room::new(1, "Guard Room")).unwrap();
    ds.add_room(Room::new(2, "Hidden Chamber")).unwrap();
    ds.add_room(Room::new(3, "Trap Room").with_trap("Pit trap")).unwrap();
    ds.add_door(Door::new(0, 0, 1, DoorState::Closed).unwrap()).unwrap();
    ds.add_door(Door::new(1, 1, 2, DoorState::Secret).unwrap()).unwrap();
    ds.add_door(Door::new(2, 1, 3, DoorState::Open).unwrap()).unwrap();
    ds
}

fn test_character() -> Character {
    let mut c = Character::new("Arden", Class::Fighter);
    c.abilities = AbilityScores {
        strength: 14,
        intelligence: 10,
        wisdom: 10,
        dexterity: 12,
        constitution: 13,
        charisma: 10,
    };
    c
}

fn test_thief() -> Character {
    let mut c = Character::new("Shadow", Class::Thief);
    c.level = 3;
    c
}

fn err_text<T>(r: Result<T, ose_engine::state::EngineError>) -> String {
    match r {
        Ok(_) => panic!("expected an error"),
        Err(e) => e.to_string(),
    }
}

#[test]
fn advance_turn_ticks_turn_effects() {
    let mut state = exploration_state();
    state.party.members[0].effects.push(test_effect("Shield", 2));

    let r = action_advance_dungeon_turn(&mut state).unwrap();
    assert_eq!(state.party.members[0].effects.len(), 1);
    assert_eq!(state.party.members[0].effects[0].duration, EffectDuration::Turns(1));
    assert!(!r.message.contains("worn off"));

    let r = action_advance_dungeon_turn(&mut state).unwrap();
    assert!(state.party.members[0].effects.is_empty());
    assert!(r.message.contains("Shield has worn off"));
}

#[test]
fn search_room_ticks_turn_effects() {
    let mut state = exploration_state();
    state.party.members[0].effects.push(test_effect("Light", 1));

    let r = action_search_room(&mut state, false).unwrap();
    assert!(state.party.members[0].effects.is_empty());
    assert!(r.message.contains("Light has worn off"));
}

#[test]
fn listen_at_door_ticks_turn_effects() {
    let mut state = exploration_state();
    state.party.members[0].effects.push(test_effect("Detect Magic", 1));

    let r = action_listen_at_door(&mut state, false).unwrap();
    assert!(state.party.members[0].effects.is_empty());
    assert!(r.message.contains("Detect Magic has worn off"));
}

#[test]
fn rest_ticks_turn_effects() {
    let mut state = exploration_state();
    state.party.members[0].effects.push(test_effect("Bless", 1));

    let r = action_rest(&mut state).unwrap();
    assert!(state.party.members[0].effects.is_empty());
    assert!(r.message.contains("Bless has worn off"));
}

#[test]
fn global_effects_tick_during_exploration() {
    let mut state = exploration_state();
    state.effects.push(test_effect("Zone of Silence", 1));

    let r = action_advance_dungeon_turn(&mut state).unwrap();
    assert!(state.effects.is_empty());
    assert!(r.message.contains("Zone of Silence has worn off"));
}

#[test]
fn round_effects_not_ticked_by_exploration() {
    let mut state = exploration_state();
    state.party.members[0].effects.push(ActiveEffect {
        id: 1,
        name: "Haste".to_string(),
        source: "test".to_string(),
        duration: EffectDuration::Rounds(3),
        notes: String::new(),
    });

    action_advance_dungeon_turn(&mut state).unwrap();
    assert_eq!(state.party.members[0].effects.len(), 1);
    assert_eq!(state.party.members[0].effects[0].duration, EffectDuration::Rounds(3));
}

#[test]
fn exploration_exploration_status_display() {
    let time = TimeTracker::new();
    let dungeon = test_dungeon();
    let status = exploration_status(&time, &dungeon);
    assert!(status.contains("Turn:"));
    assert!(status.contains("Level: 1"));
}

#[test]
fn mod_exploration_status_display() {
    let time = TimeTracker::new();
    let dungeon = test_dungeon();
    let status = exploration_status(&time, &dungeon);
    assert!(status.contains("Turn:"));
    assert!(status.contains("Level: 1"));
}

#[test]
fn advance_turn_tracks_time_and_explores() {
    let mut time = TimeTracker::new();
    let mut dungeon = test_dungeon();
    time.light(LightSourceKind::Torch, "Arden");

    let result = advance_dungeon_turn(&mut time, &mut dungeon, 1);
    assert_eq!(time.total_turns, 1);
    assert!(result.messages.iter().any(|m| m.contains("Turn 1")));
    assert!(dungeon.explored.contains(&0));
    assert!(result.to_string().contains("Torch: 5 turns remaining"));
}

#[test]
fn darkness_blocks_exploration() {
    let mut time = TimeTracker::new();
    let mut dungeon = test_dungeon();
    let result = advance_dungeon_turn(&mut time, &mut dungeon, 1);
    assert!(result.messages.iter().any(|m| m.contains("DARKNESS")));
    assert!(!dungeon.explored.contains(&0));
    assert!(!result.to_string().contains("turns remaining"));
}

#[test]
fn torch_expires_and_lantern_lasts() {
    let mut time = TimeTracker::new();
    let mut dungeon = test_dungeon();
    time.light(LightSourceKind::Torch, "Arden");
    for _ in 0..6 {
        advance_dungeon_turn(&mut time, &mut dungeon, 1);
    }
    assert!(!time.has_light());
    let result = advance_dungeon_turn(&mut time, &mut dungeon, 1);
    assert!(result.messages.iter().any(|m| m.contains("DARKNESS")));

    let mut time = TimeTracker::new();
    time.light(LightSourceKind::Lantern, "Brin");
    for _ in 0..6 {
        advance_dungeon_turn(&mut time, &mut dungeon, 1);
    }
    assert!(time.has_light());
    for _ in 0..18 {
        advance_dungeon_turn(&mut time, &mut dungeon, 1);
    }
    assert!(!time.has_light());
}

#[test]
fn rest_requirement_after_five_turns() {
    let mut time = TimeTracker::new();
    let mut dungeon = test_dungeon();
    time.light(LightSourceKind::Lantern, "Test");
    for _ in 0..5 {
        advance_dungeon_turn(&mut time, &mut dungeon, 1);
    }
    assert!(time.needs_rest());
    assert_eq!(time.rest_penalty(), -1);
    let result = advance_dungeon_turn(&mut time, &mut dungeon, 1);
    assert!(result.messages.iter().any(|m| m.contains("must rest")));
}

#[test]
fn wandering_monsters_only_on_even_turns() {
    for _ in 0..100 {
        let mut time = TimeTracker::new();
        let mut dungeon = test_dungeon();
        time.light(LightSourceKind::Lantern, "Test");
        let result = advance_dungeon_turn(&mut time, &mut dungeon, 1);
        assert!(result.encounter.is_none());
    }
}

#[test]
fn search_finds_secret_door_sometimes() {
    let mut found = false;
    for _ in 0..200 {
        let mut time = TimeTracker::new();
        let mut dungeon = test_dungeon();
        time.light(LightSourceKind::Lantern, "Test");
        dungeon.doors[0].state = DoorState::Open;
        dungeon.move_to(1).unwrap();
        let result = search_room(&mut time, &mut dungeon, 1, false);
        assert_eq!(time.total_turns, 1);
        if result.to_string().contains("Secret door found! Door 1 leads to room 2.") {
            assert!(dungeon.doors[1].discovered);
            found = true;
            break;
        }
    }
    assert!(found);
}

#[test]
fn search_turns_up_treasure_once() {
    let mut time = TimeTracker::new();
    let mut dungeon = DungeonState::new(1);
    let room = Room::new(0, "Vault").with_placed_treasure(vec![
        PlacedTreasureInstance::new("Ruby gem", 500),
        PlacedTreasureInstance::new("Silver cup", 20),
    ]);
    dungeon.add_room(room).unwrap();
    time.light(LightSourceKind::Lantern, "Test");
    let first = search_room(&mut time, &mut dungeon, 1, false);
    assert!(first.messages.iter().any(|m| m == "Treasure found: Ruby gem (500gp)"));
    assert_eq!(first.placed_treasure.as_ref().unwrap().len(), 2);
    assert!(dungeon.rooms[0].treasure_looted);
    assert!(dungeon.rooms[0].searched);
    let second = search_room(&mut time, &mut dungeon, 1, false);
    assert!(second.placed_treasure.is_none());
}

#[test]
fn listen_needs_a_door() {
    let mut time = TimeTracker::new();
    let mut dungeon = DungeonState::new(1);
    dungeon.add_room(Room::new(0, "Cell")).unwrap();
    time.light(LightSourceKind::Torch, "Arden");
    let result = listen_at_door(&mut time, &dungeon, 1, false);
    assert_eq!(result.messages, vec!["There are no doors to listen at in this room."]);
    assert_eq!(time.total_turns, 0);
    let dungeon = test_dungeon();
    let result = listen_at_door(&mut time, &dungeon, 1, true);
    assert_eq!(time.total_turns, 1);
    assert!(result.messages.iter().any(|m| m.contains("hear")));
}

#[test]
fn force_door_outcomes() {
    let character = test_character();
    let mut dungeon = test_dungeon();
    assert_eq!(force_door(&mut dungeon, 2, &character), "Door is already open.");
    assert_eq!(force_door(&mut dungeon, 9, &character), "Door 9 not found.");
    assert_eq!(force_door(&mut dungeon, 1, &character), "You see no door here.");
    dungeon.add_door(Door::new(3, 0, 3, DoorState::Locked).unwrap()).unwrap();
    assert!(force_door(&mut dungeon, 3, &character).contains("locked"));
    let mut opened = false;
    for _ in 0..200 {
        let mut dungeon = test_dungeon();
        let m = force_door(&mut dungeon, 0, &character);
        if m.contains("forces door 0 open") {
            assert_eq!(dungeon.doors[0].state, DoorState::Open);
            assert!(m.ends_with("vs 3)"));
            opened = true;
            break;
        } else {
            assert_eq!(dungeon.doors[0].state, DoorState::Closed);
        }
    }
    assert!(opened);
}

#[test]
fn pick_lock_outcomes() {
    let mut dungeon = test_dungeon();
    dungeon.add_door(Door::new(3, 0, 3, DoorState::Locked).unwrap()).unwrap();
    let r = pick_lock(&mut dungeon, 3, &test_character());
    assert!(!r.success && r.message.contains("does not have lockpicking"));
    let r = pick_lock(&mut dungeon, 0, &test_thief());
    assert!(!r.success && r.message.contains("not locked"));
    let r = pick_lock(&mut dungeon, 99, &test_thief());
    assert!(!r.success && r.message.contains("not found"));
    let (mut won, mut lost) = (false, false);
    for _ in 0..400 {
        let mut dungeon = test_dungeon();
        dungeon.add_door(Door::new(3, 0, 3, DoorState::Locked).unwrap()).unwrap();
        let r = pick_lock(&mut dungeon, 3, &test_thief());
        if r.success {
            assert!(r.message.contains("picks the lock") && r.message.contains("vs 25%"));
            assert_eq!(dungeon.doors[3].state, DoorState::Closed);
            won = true;
        } else {
            assert!(r.message.contains("fails to pick"));
            assert_eq!(dungeon.doors[3].state, DoorState::Locked);
            lost = true;
        }
    }
    assert!(won && lost);
}

#[test]
fn check_trap_reports_roll() {
    let mut triggered = false;
    for _ in 0..200 {
        let r = check_trap("Test Room");
        if r.triggered {
            assert!(r.message.starts_with("TRAP TRIGGERED in Test Room!"));
            triggered = true;
        } else {
            assert!(r.message.starts_with("No trap triggered in Test Room."));
        }
    }
    assert!(triggered);
}

#[test]
fn move_through_doors() {
    let mut time = TimeTracker::new();
    let mut dungeon = test_dungeon();
    let err = move_through_door(&mut time, &mut dungeon, 1, 0);
    assert!(err.unwrap_err().contains("DARKNESS"));
    time.light(LightSourceKind::Lantern, "Brin");
    assert!(move_through_door(&mut time, &mut dungeon, 1, 0).unwrap_err().contains("not open"));
    assert!(move_through_door(&mut time, &mut dungeon, 1, 2)
        .unwrap_err()
        .contains("not connected"));
    dungeon.doors[0].state = DoorState::Open;
    let result = move_through_door(&mut time, &mut dungeon, 1, 0).unwrap();
    assert_eq!(dungeon.current_room, Some(1));
    assert_eq!(dungeon.doors[0].state, DoorState::Closed);
    assert!(result.to_string().contains("Lantern: 23 turns remaining"));
    assert!(result.messages.iter().any(|m| m == "Moved to Guard Room (room 1)."));
}

#[test]
fn module_open_door_stays_open() {
    let mut time = TimeTracker::new();
    let mut dungeon = test_dungeon();
    time.light(LightSourceKind::Lantern, "Brin");
    dungeon.doors[0].state = DoorState::Open;
    dungeon.doors[0].module_open = true;
    move_through_door(&mut time, &mut dungeon, 1, 0).unwrap();
    assert_eq!(dungeon.doors[0].state, DoorState::Open);
}

#[test]
fn entering_trap_room_checks_trap() {
    let mut triggered = false;
    for _ in 0..200 {
        let mut time = TimeTracker::new();
        let mut dungeon = test_dungeon();
        time.light(LightSourceKind::Lantern, "Test");
        dungeon.doors[0].state = DoorState::Open;
        dungeon.move_to(1).unwrap();
        let result = move_through_door(&mut time, &mut dungeon, 1, 2).unwrap();
        let out = result.to_string();
        if out.contains("TRAP TRIGGERED") {
            assert!(dungeon.find_room(3).unwrap().trap_triggered);
            triggered = true;
            break;
        }
        assert!(out.contains("No trap triggered in Trap Room."));
    }
    assert!(triggered);
}

#[test]
fn action_trap_only_noted() {
    let mut time = TimeTracker::new();
    let mut dungeon = test_dungeon();
    time.light(LightSourceKind::Lantern, "Test");
    dungeon.rooms[3].trap_trigger = TrapTrigger::Action;
    dungeon.doors[0].state = DoorState::Open;
    dungeon.move_to(1).unwrap();
    let result = move_through_door(&mut time, &mut dungeon, 1, 2).unwrap();
    assert_eq!(
        result.messages[0],
        "TRAP PRESENT in Trap Room: Pit trap (requires character action to trigger)"
    );
    assert!(!dungeon.rooms[3].trap_triggered);
}

#[test]
fn entering_room_meets_placed_monsters_once() {
    let mut time = TimeTracker::new();
    let mut dungeon = test_dungeon();
    time.light(LightSourceKind::Lantern, "Test");
    let mut ghoul = PlacedMonsterInstance::new("Ghoul", 2);
    ghoul.undead = Some(true);
    dungeon.rooms[1].placed_monsters = vec![PlacedMonsterInstance::new("Orc", 3), ghoul];
    dungeon.doors[0].state = DoorState::Open;
    let result = move_through_door(&mut time, &mut dungeon, 1, 0).unwrap();
    assert!(result.messages.iter().any(|m| m == "Monsters present: Orc x3"));
    assert!(result.messages.iter().any(|m| m == "Monsters present: Ghoul x2 [undead]"));
    assert_eq!(result.placed_monsters.as_ref().unwrap().len(), 2);
    assert!(dungeon.rooms[1].placed_monsters.iter().all(|m| m.spawned));
    dungeon.doors[0].state = DoorState::Open;
    move_through_door(&mut time, &mut dungeon, 1, 0).unwrap();
    dungeon.doors[0].state = DoorState::Open;
    let again = move_through_door(&mut time, &mut dungeon, 1, 0).unwrap();
    assert!(again.placed_monsters.is_none());
}

#[test]
fn enter_dungeon_action() {
    let mut state = GameState::new();
    let r = action_enter_dungeon(&mut state, 2, "Gate").unwrap();
    assert_eq!(r.message, "entered dungeon level 2. starting room: Gate.");
    assert_eq!(state.mode, GameMode::Exploration);
    assert_eq!(state.dungeon_level, 2);
    assert_eq!(state.dungeon.as_ref().unwrap().explored, vec![0]);
    assert_eq!(
        err_text(action_enter_dungeon(&mut state, 1, "Gate")),
        "already in exploration mode. Use LeaveDungeon first."
    );
    let mut fresh = GameState::new();
    assert_eq!(
        err_text(action_enter_dungeon(&mut fresh, 0, "Gate")),
        "level must be a positive integer."
    );
}

#[test]
fn light_and_rest_actions() {
    let mut state = exploration_state();
    assert_eq!(
        err_text(action_light(&mut state, LightSourceKind::Torch, "Arden")),
        "Arden already has an active light source."
    );
    let r = action_light(&mut state, LightSourceKind::Torch, "Brin").unwrap();
    assert_eq!(r.message, "Brin lights a Torch (6 turns).");
    assert_eq!(r.duration_turns, 6);
    let r = action_rest(&mut state).unwrap();
    assert_eq!(r.total_turns, 1);
    assert!(r.message.starts_with("party rests for one turn. activity counter reset."));
    assert_eq!(state.time.as_ref().unwrap().turns_since_rest, 0);
}

#[test]
fn build_dungeon_and_look() {
    let mut state = exploration_state();
    let r = action_add_room(&mut state, 1, "Crypt").unwrap();
    assert_eq!(r.message, "added room 1: Crypt.");
    assert_eq!(err_text(action_add_room(&mut state, 1, "Again")), "room 1 already exists.");
    let r = action_add_door(&mut state, 7, 0, 1, DoorState::Closed).unwrap();
    assert_eq!(r.message, "added door 7 between rooms 0 and 1 (closed).");
    assert_eq!(
        err_text(action_add_door(&mut state, 8, 1, 1, DoorState::Open)),
        "door 8 cannot connect a room to itself."
    );
    assert_eq!(
        err_text(action_add_door(&mut state, 8, 0, 5, DoorState::Open)),
        "room 5 does not exist."
    );
    let look = action_look(&state).unwrap();
    assert_eq!(
        look.message,
        "== Hall (room 0) ==\nNo description available.\n\nExits:\n  Door 7 → 1 (Crypt) [closed]"
    );
    let status = action_exploration_status(&state).unwrap();
    assert!(status.message.contains("Turn: 0"));
}

#[test]
fn force_and_pick_actions() {
    let mut state = exploration_state();
    state.party.add_member(test_thief());
    action_add_room(&mut state, 1, "Crypt").unwrap();
    action_add_door(&mut state, 7, 0, 1, DoorState::Locked).unwrap();
    let r = action_force_door(&mut state, 7, "Arden").unwrap();
    assert!(!r.forced_open);
    assert!(r.message.contains("locked"));
    let r = action_pick_lock(&mut state, 7, "Shadow").unwrap();
    assert_eq!(r.character, "Shadow");
    assert_eq!(
        err_text(action_pick_lock(&mut state, 7, "Nobody")),
        "no party member named 'Nobody'."
    );
}

#[test]
fn open_door_action() {
    let mut state = exploration_state();
    action_add_room(&mut state, 1, "Crypt").unwrap();
    action_add_door(&mut state, 7, 0, 1, DoorState::Open).unwrap();
    let r = action_open_door(&mut state, 7).unwrap();
    assert!(r.moved && !r.forced);
    assert_eq!(state.dungeon.as_ref().unwrap().current_room, Some(1));
    action_add_door(&mut state, 8, 1, 0, DoorState::Stuck).unwrap();
    assert_eq!(
        err_text(action_open_door(&mut state, 8)),
        "door 8 is stuck. Use ForceDoor to attempt to force it open."
    );
    assert_eq!(err_text(action_open_door(&mut state, 9)), "door 9 not found.");
    action_add_door(&mut state, 9, 1, 0, DoorState::Closed).unwrap();
    let r = action_open_door(&mut state, 9).unwrap();
    assert!(r.forced);
    assert!(r.steps[0].starts_with("Arden "));
    if r.moved {
        assert_eq!(state.dungeon.as_ref().unwrap().current_room, Some(0));
    }
}

#[test]
fn move_action_syncs_level() {
    let mut state = exploration_state();
    action_add_room(&mut state, 1, "Crypt").unwrap();
    action_add_door(&mut state, 7, 0, 1, DoorState::Open).unwrap();
    let r = action_move_through_door(&mut state, 7).unwrap();
    assert!(r.message.contains("Moved to Crypt (room 1)."));
    assert_eq!(state.dungeon_level, 1);
    assert_eq!(err_text(action_move_through_door(&mut state, 7)), "Door 7 is not open. Force it first.");
}

#[test]
fn enter_dungeon_from_downtime_and_chargen() {
    let mut state = GameState::new();
    state.mode = GameMode::Downtime;
    assert!(action_enter_dungeon(&mut state, 1, "Gate").is_ok());
    assert_eq!(state.mode, GameMode::Exploration);
    let mut state = GameState::new();
    state.mode = GameMode::CharGen;
    assert_eq!(
        err_text(action_enter_dungeon(&mut state, 1, "Gate")),
        "cannot enter dungeon during character generation."
    );
    assert_eq!(state.mode, GameMode::CharGen);
    assert!(state.dungeon.is_none());
}
