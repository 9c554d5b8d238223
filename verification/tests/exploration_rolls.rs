use ose_engine::engine::exploration::results::ExplorationActionResult;
use ose_engine::engine::exploration::{
    WanderingEncounter, advance_dungeon_turn, check_trap, force_door, listen_at_door, listen_at_door_rolled,
    move_through_door, pick_lock, search_room, search_room_rolled, wandering_from_rolls,
};
use ose_engine::model::{AbilityScores, Character, Class};
use ose_engine::state::dungeon::{
    Door, DoorState, DungeonState, PlacedMonsterInstance, PlacedTreasureInstance, Room, TrapTrigger,
};
use ose_engine::state::time::{LightSourceKind, TimeTracker};

fn test_dungeon() -> DungeonState {
    let mut ds = DungeonState::new(1);
    ds.add_room(Room::new(0, "Entrance Hall")).unwrap();
    ds.add_room(Room::new(1, "Guard Room")).unwrap();
    ds.add_room(Room::new(2, "Hidden Chamber")).unwrap();
    ds.add_room(Room::new(3, "Trap Room").with_trap("Pit trap")).unwrap();
    ds.add_door(Door::new(0, 0, 1, DoorState::Closed).unwrap()).unwrap();
    ds.add_door(Door::new(1, 1, 2, DoorState::Secret).unwrap()).unwrap();
    ds.add_door(Door::new(2, 1, 3, DoorState::Open).unwrap()).unwrap();
    ds
}

fn test_character() -> Character {
    let mut c = Character::new("Arden", Class::Fighter);
    c.abilities = AbilityScores {
        strength: 14,
        intelligence: 10,
        wisdom: 10,
        dexterity: 12,
        constitution: 13,
        charisma: 10,
    };
    c
}

fn test_thief() -> Character {
    let mut c = Character::new("Shadow", Class::Thief);
    c.level = 3; // OpenLocks at level 3 = 25%
    c
}

/// The position of door `id` in the dungeon's door list.
fn door_at(dungeon: &DungeonState, id: u32) -> usize {
    dungeon.doors.iter().position(|d| d.id == id).unwrap()
}

fn open_door(dungeon: &mut DungeonState, id: u32) {
    let i = door_at(dungeon, id);
    dungeon.doors[i].state = DoorState::Open;
}

// --- Turns ---

fn check_advance_turn_tracks_time() {
    let mut time = TimeTracker::new();
    let mut dungeon = test_dungeon();
    time.light(LightSourceKind::Torch, "Arden");
    let result = advance_dungeon_turn(&mut time, &mut dungeon, 1);
    assert_eq!(time.total_turns, 1);
    assert!(result.messages.iter().any(|m| m.contains("Turn 1")));
}

#[test]
fn exploration_advance_turn_tracks_time() {
    check_advance_turn_tracks_time();
}

#[test]
fn mod_advance_turn_tracks_time() {
    check_advance_turn_tracks_time();
}

fn check_advance_turn_marks_explored() {
    let mut time = TimeTracker::new();
    let mut dungeon = test_dungeon();
    time.light(LightSourceKind::Torch, "Arden");
    advance_dungeon_turn(&mut time, &mut dungeon, 1);
    assert!(dungeon.explored.contains(&0));
}

#[test]
fn exploration_advance_turn_marks_explored() {
    check_advance_turn_marks_explored();
}

#[test]
fn mod_advance_turn_marks_explored() {
    check_advance_turn_marks_explored();
}

fn check_darkness_blocks_exploration() {
    let mut time = TimeTracker::new();
    let mut dungeon = test_dungeon();
    let result = advance_dungeon_turn(&mut time, &mut dungeon, 1);
    assert!(result.messages.iter().any(|m| m.contains("DARKNESS")));
    assert!(!dungeon.explored.contains(&0), "should not explore in darkness");
}

#[test]
fn exploration_darkness_blocks_exploration() {
    check_darkness_blocks_exploration();
}

#[test]
fn mod_darkness_blocks_exploration() {
    check_darkness_blocks_exploration();
}

fn check_darkness_blocks_door_movement() {
    let mut time = TimeTracker::new();
    let mut dungeon = test_dungeon();
    open_door(&mut dungeon, 0);
    let result = move_through_door(&mut time, &mut dungeon, 1, 0);
    assert!(result.is_err());
    assert!(result.unwrap_err().contains("DARKNESS"));
}

#[test]
fn exploration_darkness_blocks_door_movement() {
    check_darkness_blocks_door_movement();
}

#[test]
fn mod_darkness_blocks_door_movement() {
    check_darkness_blocks_door_movement();
}

fn check_wandering_monster_check_every_2_turns() {
    let mut encounters = 0;
    for _ in 0..100 {
        let mut time = TimeTracker::new();
        let mut dungeon = test_dungeon();
        time.light(LightSourceKind::Lantern, "Test");
        // Turn 1: no check
        advance_dungeon_turn(&mut time, &mut dungeon, 1);
        // Turn 2: check happens
        let result = advance_dungeon_turn(&mut time, &mut dungeon, 1);
        if result.encounter.is_some() {
            encounters += 1;
        }
    }
    // With a 1-in-6 chance, expect roughly 16-17 out of 100
    assert!(encounters > 0, "should get at least some encounters");
    assert!(encounters < 50, "should not get encounters most of the time");
}

#[test]
fn exploration_wandering_monster_check_every_2_turns() {
    check_wandering_monster_check_every_2_turns();
}

#[test]
fn mod_wandering_monster_check_every_2_turns() {
    check_wandering_monster_check_every_2_turns();
}

#[test]
fn encounter_result_includes_next_steps() {
    for _ in 0..200 {
        let mut time = TimeTracker::new();
        let mut dungeon = test_dungeon();
        time.light(LightSourceKind::Lantern, "Test");
        advance_dungeon_turn(&mut time, &mut dungeon, 1);
        let result = advance_dungeon_turn(&mut time, &mut dungeon, 1);
        if result.encounter.is_some() {
            let api_result = ExplorationActionResult::from_exploration(result);
            assert!(!api_result.next_steps.is_empty(), "encounter should include next_steps");
            assert!(
                api_result.next_steps.iter().any(|s| s.contains("SpawnMonster")),
                "next_steps should mention SpawnMonster"
            );
            assert!(
                api_result.next_steps.iter().any(|s| s.contains("RollReaction")),
                "next_steps should mention RollReaction"
            );
            assert!(
                api_result.next_steps.iter().any(|s| s.contains("Evade")),
                "next_steps should mention Evade"
            );
            assert!(
                api_result.messages.iter().any(|m| m.contains("ENCOUNTER RESOLUTION REQUIRED")),
                "messages should include resolution guidance"
            );
            assert!(
                api_result.message.contains("ENCOUNTER RESOLUTION REQUIRED"),
                "message text should include resolution guidance"
            );
            return;
        }
    }
    panic!("failed to trigger an encounter in 200 tries");
}

#[test]
fn no_encounter_means_no_next_steps() {
    let mut time = TimeTracker::new();
    let mut dungeon = test_dungeon();
    time.light(LightSourceKind::Lantern, "Test");
    // Turn 1: odd turn, never an encounter
    let result = advance_dungeon_turn(&mut time, &mut dungeon, 1);
    assert!(result.encounter.is_none());
    let api_result = ExplorationActionResult::from_exploration(result);
    assert!(api_result.next_steps.is_empty(), "no encounter means no next_steps");
    assert!(
        !api_result.message.contains("ENCOUNTER RESOLUTION REQUIRED"),
        "no encounter means no guidance"
    );
}

fn check_wandering_monster_never_on_odd_turns() {
    for attempt in 0..200 {
        let mut time = TimeTracker::new();
        let mut dungeon = test_dungeon();
        time.light(LightSourceKind::Lantern, "Test");
        let result = advance_dungeon_turn(&mut time, &mut dungeon, 1);
        assert!(
            result.encounter.is_none(),
            "turn 1 (odd) should never have wandering monster (attempt {})",
            attempt
        );
    }
}

#[test]
fn exploration_wandering_monster_never_on_odd_turns() {
    check_wandering_monster_never_on_odd_turns();
}

#[test]
fn mod_wandering_monster_never_on_odd_turns() {
    check_wandering_monster_never_on_odd_turns();
}

fn check_torch_expires_during_exploration() {
    let mut time = TimeTracker::new();
    let mut dungeon = test_dungeon();
    time.light(LightSourceKind::Torch, "Arden");
    for _ in 0..6 {
        advance_dungeon_turn(&mut time, &mut dungeon, 1);
    }
    assert!(!time.has_light(), "torch should be expired after 6 turns");
    let result = advance_dungeon_turn(&mut time, &mut dungeon, 1);
    assert!(result.messages.iter().any(|m| m.contains("DARKNESS")));
}

#[test]
fn exploration_torch_expires_during_exploration() {
    check_torch_expires_during_exploration();
}

#[test]
fn mod_torch_expires_during_exploration() {
    check_torch_expires_during_exploration();
}

fn check_lantern_lasts_longer_than_torch() {
    let mut time = TimeTracker::new();
    let mut dungeon = test_dungeon();
    time.light(LightSourceKind::Lantern, "Brin");
    for _ in 0..6 {
        advance_dungeon_turn(&mut time, &mut dungeon, 1);
    }
    assert!(time.has_light(), "lantern should still be active after 6 turns");
    for _ in 0..18 {
        advance_dungeon_turn(&mut time, &mut dungeon, 1);
    }
    assert!(!time.has_light(), "lantern should expire after 24 turns");
}

#[test]
fn exploration_lantern_lasts_longer_than_torch() {
    check_lantern_lasts_longer_than_torch();
}

#[test]
fn mod_lantern_lasts_longer_than_torch() {
    check_lantern_lasts_longer_than_torch();
}

fn check_rest_requirement_message_after_5_turns() {
    let mut time = TimeTracker::new();
    let mut dungeon = test_dungeon();
    time.light(LightSourceKind::Lantern, "Test");
    for _ in 0..5 {
        advance_dungeon_turn(&mut time, &mut dungeon, 1);
    }
    assert!(time.needs_rest(), "should need rest after 5 turns");
    assert_eq!(time.rest_penalty(), -1, "should have -1 penalty");
    let result = advance_dungeon_turn(&mut time, &mut dungeon, 1);
    assert!(
        result.messages.iter().any(|m| m.contains("must rest")),
        "should warn about rest requirement"
    );
}

#[test]
fn exploration_rest_requirement_message_after_5_turns() {
    check_rest_requirement_message_after_5_turns();
}

#[test]
fn mod_rest_requirement_message_after_5_turns() {
    check_rest_requirement_message_after_5_turns();
}

fn check_explore_output_includes_torch_status() {
    let mut time = TimeTracker::new();
    let mut dungeon = test_dungeon();
    time.light(LightSourceKind::Torch, "Arden");
    let result = advance_dungeon_turn(&mut time, &mut dungeon, 1);
    let output = result.to_string();
    assert!(
        output.contains("Torch: 5 turns remaining"),
        "explore output should show torch status, got: {}",
        output
    );
}

#[test]
fn exploration_explore_output_includes_torch_status() {
    check_explore_output_includes_torch_status();
}

#[test]
fn mod_explore_output_includes_torch_status() {
    check_explore_output_includes_torch_status();
}

fn check_explore_no_torch_status_in_darkness() {
    let mut time = TimeTracker::new();
    let mut dungeon = test_dungeon();
    let result = advance_dungeon_turn(&mut time, &mut dungeon, 1);
    let output = result.to_string();
    assert!(output.contains("DARKNESS"), "should mention darkness");
    assert!(
        !output.contains("turns remaining"),
        "should not show torch status in darkness, got: {}",
        output
    );
}

#[test]
fn exploration_explore_no_torch_status_in_darkness() {
    check_explore_no_torch_status_in_darkness();
}

#[test]
fn mod_explore_no_torch_status_in_darkness() {
    check_explore_no_torch_status_in_darkness();
}

// --- Searching ---

fn check_search_room_basic() {
    let mut time = TimeTracker::new();
    let mut dungeon = test_dungeon();
    time.light(LightSourceKind::Torch, "Arden");
    let result = search_room(&mut time, &mut dungeon, 1, false);
    assert!(!result.messages.is_empty());
}

#[test]
fn exploration_search_room_basic() {
    check_search_room_basic();
}

#[test]
fn mod_search_room_basic() {
    check_search_room_basic();
}

fn check_search_finds_secret_door() {
    let mut found = false;
    for _ in 0..100 {
        let mut time = TimeTracker::new();
        let mut dungeon = test_dungeon();
        time.light(LightSourceKind::Lantern, "Test");
        open_door(&mut dungeon, 0);
        dungeon.move_to(1).unwrap(); // Guard Room has a secret door
        let result = search_room(&mut time, &mut dungeon, 1, false);
        let output = result.to_string();
        if output.contains("Secret door found") {
            found = true;
            break;
        }
    }
    assert!(found, "should eventually find a secret door");
}

#[test]
fn exploration_search_finds_secret_door() {
    check_search_finds_secret_door();
}

#[test]
fn mod_search_finds_secret_door() {
    check_search_finds_secret_door();
}

fn check_elf_has_better_secret_door_detection() {
    let mut elf_finds = 0;
    let mut human_finds = 0;
    let trials = 500;
    for _ in 0..trials {
        let mut time = TimeTracker::new();
        let mut dungeon = test_dungeon();
        time.light(LightSourceKind::Lantern, "Test");
        open_door(&mut dungeon, 0);
        dungeon.move_to(1).unwrap();
        let result = search_room(&mut time, &mut dungeon, 1, true);
        if result.to_string().contains("Secret door found") {
            elf_finds += 1;
        }

        let mut time = TimeTracker::new();
        let mut dungeon = test_dungeon();
        time.light(LightSourceKind::Lantern, "Test");
        open_door(&mut dungeon, 0);
        dungeon.move_to(1).unwrap();
        let result = search_room(&mut time, &mut dungeon, 1, false);
        if result.to_string().contains("Secret door found") {
            human_finds += 1;
        }
    }
    assert!(
        elf_finds > human_finds,
        "elf should find secret doors more often ({} vs {} in {} trials)",
        elf_finds,
        human_finds,
        trials
    );
}

#[test]
fn exploration_elf_has_better_secret_door_detection() {
    check_elf_has_better_secret_door_detection();
}

#[test]
fn mod_elf_has_better_secret_door_detection() {
    check_elf_has_better_secret_door_detection();
}

fn check_search_consumes_a_turn() {
    let mut time = TimeTracker::new();
    let mut dungeon = test_dungeon();
    time.light(LightSourceKind::Lantern, "Test");
    let turns_before = time.total_turns;
    search_room(&mut time, &mut dungeon, 1, false);
    assert_eq!(time.total_turns, turns_before + 1, "search should consume one turn");
}

#[test]
fn exploration_search_consumes_a_turn() {
    check_search_consumes_a_turn();
}

#[test]
fn mod_search_consumes_a_turn() {
    check_search_consumes_a_turn();
}

fn check_search_output_includes_torch_status() {
    let mut time = TimeTracker::new();
    let mut dungeon = test_dungeon();
    time.light(LightSourceKind::Torch, "Arden");
    let result = search_room(&mut time, &mut dungeon, 1, false);
    let output = result.to_string();
    assert!(
        output.contains("Torch: 5 turns remaining"),
        "search output should show torch status, got: {}",
        output
    );
}

#[test]
fn exploration_search_output_includes_torch_status() {
    check_search_output_includes_torch_status();
}

#[test]
fn mod_search_output_includes_torch_status() {
    check_search_output_includes_torch_status();
}

#[test]
fn search_room_finds_placed_treasure() {
    let mut time = TimeTracker::new();
    let mut dungeon = DungeonState::new(1);
    time.light(LightSourceKind::Lantern, "Test");
    let treasure_room = Room::new(0, "Treasure Vault").with_placed_treasure(vec![
        PlacedTreasureInstance::new("Gold coins", 500),
        PlacedTreasureInstance::new("Potion of Healing", 50),
    ]);
    dungeon.add_room(treasure_room).unwrap();

    let result = search_room(&mut time, &mut dungeon, 1, false);
    let output = result.to_string();
    assert!(output.contains("Gold coins"), "output should mention gold");
    assert!(output.contains("500gp"), "output should mention gold value");

    assert!(result.placed_treasure.is_some(), "should report placed treasure");
    let treasure = result.placed_treasure.unwrap();
    assert_eq!(treasure.len(), 2, "should have 2 treasure items");
    assert_eq!(treasure[0].description, "Gold coins");
    assert_eq!(treasure[0].gp_value, 500);
    assert_eq!(treasure[1].description, "Potion of Healing");
    assert_eq!(treasure[1].gp_value, 50);

    let room = dungeon.find_room(0).unwrap();
    assert!(room.treasure_looted, "room should be marked as discovered");
    assert!(
        room.placed_treasure.iter().all(|t| !t.taken),
        "treasure should not be marked taken until looted"
    );
}

#[test]
fn search_looted_room_finds_no_treasure() {
    let mut time = TimeTracker::new();
    let mut dungeon = DungeonState::new(1);
    time.light(LightSourceKind::Lantern, "Test");
    let mut treasure_room = Room::new(0, "Empty Vault")
        .with_placed_treasure(vec![PlacedTreasureInstance::new("Ancient sword", 1000)]);
    treasure_room.treasure_looted = true;
    dungeon.add_room(treasure_room).unwrap();
    let result = search_room(&mut time, &mut dungeon, 1, false);
    assert!(result.placed_treasure.is_none(), "should not report treasure in looted room");
}

#[test]
fn search_room_twice_only_yields_treasure_once() {
    let mut time = TimeTracker::new();
    let mut dungeon = DungeonState::new(1);
    time.light(LightSourceKind::Lantern, "Test");
    let treasure_room = Room::new(0, "Treasury")
        .with_placed_treasure(vec![PlacedTreasureInstance::new("Gems", 200)]);
    dungeon.add_room(treasure_room).unwrap();
    let result = search_room(&mut time, &mut dungeon, 1, false);
    assert!(result.placed_treasure.is_some(), "first search should find treasure");
    let result = search_room(&mut time, &mut dungeon, 1, false);
    assert!(result.placed_treasure.is_none(), "second search should not find treasure");
}

// --- Listening ---

fn check_listen_at_door_basic() {
    let mut time = TimeTracker::new();
    let dungeon = test_dungeon();
    time.light(LightSourceKind::Torch, "Arden");
    let result = listen_at_door(&mut time, &dungeon, 1, false);
    assert!(result.messages.iter().any(|m| m.contains("hear") || m.contains("nothing")));
}

#[test]
fn exploration_listen_at_door_basic() {
    check_listen_at_door_basic();
}

#[test]
fn mod_listen_at_door_basic() {
    check_listen_at_door_basic();
}

fn check_listen_at_door_consumes_turn() {
    let mut time = TimeTracker::new();
    let dungeon = test_dungeon();
    time.light(LightSourceKind::Torch, "Arden");
    let turns_before = time.total_turns;
    listen_at_door(&mut time, &dungeon, 1, false);
    assert_eq!(time.total_turns, turns_before + 1, "listening should consume one turn");
}

#[test]
fn exploration_listen_at_door_consumes_turn() {
    check_listen_at_door_consumes_turn();
}

#[test]
fn mod_listen_at_door_consumes_turn() {
    check_listen_at_door_consumes_turn();
}

fn check_listen_output_includes_torch_status() {
    let mut time = TimeTracker::new();
    let dungeon = test_dungeon();
    time.light(LightSourceKind::Torch, "Arden");
    let result = listen_at_door(&mut time, &dungeon, 1, false);
    let output = result.to_string();
    assert!(
        output.contains("Torch: 5 turns remaining"),
        "listen output should show torch status, got: {}",
        output
    );
}

#[test]
fn exploration_listen_output_includes_torch_status() {
    check_listen_output_includes_torch_status();
}

#[test]
fn mod_listen_output_includes_torch_status() {
    check_listen_output_includes_torch_status();
}

// --- Doors ---

fn check_force_door_success() {
    let mut found_success = false;
    for _ in 0..100 {
        let mut dungeon = test_dungeon();
        let character = test_character();
        let result = force_door(&mut dungeon, 0, &character);
        if result.contains("forces door 0 open") {
            found_success = true;
            break;
        }
    }
    assert!(found_success, "should eventually force a door open");
}

#[test]
fn exploration_force_door_success() {
    check_force_door_success();
}

#[test]
fn mod_force_door_success() {
    check_force_door_success();
}

fn check_force_locked_door_refused() {
    let mut dungeon = test_dungeon();
    dungeon.add_door(Door::new(3, 0, 3, DoorState::Locked).unwrap()).unwrap();
    let character = test_character();
    let result = force_door(&mut dungeon, 3, &character);
    assert!(result.contains("locked"));
}

#[test]
fn exploration_force_locked_door_refused() {
    check_force_locked_door_refused();
}

#[test]
fn mod_force_locked_door_refused() {
    check_force_locked_door_refused();
}

fn check_force_open_door_no_op() {
    let mut dungeon = test_dungeon();
    let character = test_character();
    let result = force_door(&mut dungeon, 2, &character);
    assert!(result.contains("already open"));
}

#[test]
fn exploration_force_open_door_no_op() {
    check_force_open_door_no_op();
}

#[test]
fn mod_force_open_door_no_op() {
    check_force_open_door_no_op();
}

fn check_stuck_door_treated_as_closed_for_forcing() {
    let mut found_success = false;
    for _ in 0..100 {
        let mut dungeon = test_dungeon();
        dungeon.add_door(Door::new(3, 0, 3, DoorState::Stuck).unwrap()).unwrap();
        let character = test_character();
        let result = force_door(&mut dungeon, 3, &character);
        if result.contains("forces door 3 open") {
            found_success = true;
            break;
        }
    }
    assert!(found_success, "should eventually force a stuck door open");
}

#[test]
fn exploration_stuck_door_treated_as_closed_for_forcing() {
    check_stuck_door_treated_as_closed_for_forcing();
}

#[test]
fn mod_stuck_door_treated_as_closed_for_forcing() {
    check_stuck_door_treated_as_closed_for_forcing();
}

#[test]
fn pick_lock_success() {
    let mut success = false;
    for _ in 0..200 {
        let mut dungeon = test_dungeon();
        dungeon.add_door(Door::new(3, 0, 3, DoorState::Locked).unwrap()).unwrap();
        let thief = test_thief();
        let result = pick_lock(&mut dungeon, 3, &thief);
        if result.success {
            assert!(result.message.contains("picks the lock"));
            let i = door_at(&dungeon, 3);
            assert_eq!(dungeon.doors[i].state, DoorState::Closed);
            success = true;
            break;
        }
    }
    assert!(success, "thief should eventually pick the lock");
}

#[test]
fn pick_lock_failure() {
    let mut failure = false;
    for _ in 0..200 {
        let mut dungeon = test_dungeon();
        dungeon.add_door(Door::new(3, 0, 3, DoorState::Locked).unwrap()).unwrap();
        let thief = test_thief();
        let result = pick_lock(&mut dungeon, 3, &thief);
        if !result.success {
            assert!(result.message.contains("fails to pick"));
            let i = door_at(&dungeon, 3);
            assert_eq!(dungeon.doors[i].state, DoorState::Locked);
            failure = true;
            break;
        }
    }
    assert!(failure, "thief should sometimes fail");
}

#[test]
fn pick_lock_non_thief_rejected() {
    let mut dungeon = test_dungeon();
    dungeon.add_door(Door::new(3, 0, 3, DoorState::Locked).unwrap()).unwrap();
    let fighter = test_character();
    let result = pick_lock(&mut dungeon, 3, &fighter);
    assert!(!result.success);
    assert!(result.message.contains("does not have lockpicking"));
}

#[test]
fn pick_lock_not_locked_rejected() {
    let mut dungeon = test_dungeon();
    let thief = test_thief();
    let result = pick_lock(&mut dungeon, 0, &thief);
    assert!(!result.success);
    assert!(result.message.contains("not locked"));
}

#[test]
fn pick_lock_door_not_found() {
    let mut dungeon = test_dungeon();
    let thief = test_thief();
    let result = pick_lock(&mut dungeon, 99, &thief);
    assert!(!result.success);
    assert!(result.message.contains("not found"));
}

#[test]
fn mod_check_trap_can_trigger() {
    let mut triggered = false;
    for _ in 0..100 {
        let result = check_trap("Test Room");
        if result.triggered {
            assert!(result.message.contains("TRIGGERED"), "triggered message should contain TRIGGERED");
            triggered = true;
            break;
        }
    }
    assert!(triggered, "trap should eventually trigger");
}

#[test]
fn exploration_check_trap_can_trigger() {
    let mut triggered = false;
    for _ in 0..100 {
        let result = check_trap("Test Room");
        if result.message.contains("TRIGGERED") {
            triggered = true;
            break;
        }
    }
    assert!(triggered, "trap should eventually trigger");
}

// --- Moving ---

fn check_move_through_open_door() {
    let mut time = TimeTracker::new();
    let mut dungeon = test_dungeon();
    time.light(LightSourceKind::Lantern, "Test");
    open_door(&mut dungeon, 0);
    dungeon.move_to(1).unwrap();
    let result = move_through_door(&mut time, &mut dungeon, 1, 2);
    assert!(result.is_ok());
    assert_eq!(dungeon.current_room, Some(3));
}

#[test]
fn exploration_move_through_open_door() {
    check_move_through_open_door();
}

#[test]
fn mod_move_through_open_door() {
    check_move_through_open_door();
}

fn check_move_through_closed_door_fails() {
    let mut time = TimeTracker::new();
    let mut dungeon = test_dungeon();
    time.light(LightSourceKind::Lantern, "Test");
    let result = move_through_door(&mut time, &mut dungeon, 1, 0);
    assert!(result.is_err());
    assert!(result.unwrap_err().contains("not open"));
}

#[test]
fn exploration_move_through_closed_door_fails() {
    check_move_through_closed_door_fails();
}

#[test]
fn mod_move_through_closed_door_fails() {
    check_move_through_closed_door_fails();
}

fn check_move_to_nonexistent_room_fails() {
    let mut time = TimeTracker::new();
    let mut dungeon = test_dungeon();
    time.light(LightSourceKind::Lantern, "Test");
    let result = move_through_door(&mut time, &mut dungeon, 1, 99);
    assert!(result.is_err());
    assert!(result.unwrap_err().contains("not found"));
}

#[test]
fn exploration_move_to_nonexistent_room_fails() {
    check_move_to_nonexistent_room_fails();
}

#[test]
fn mod_move_to_nonexistent_room_fails() {
    check_move_to_nonexistent_room_fails();
}

fn check_move_through_door_not_connected_to_current_room() {
    let mut time = TimeTracker::new();
    let mut dungeon = test_dungeon();
    time.light(LightSourceKind::Lantern, "Test");
    // Door 2 connects rooms 1-3, but the party is in room 0
    open_door(&mut dungeon, 2);
    let result = move_through_door(&mut time, &mut dungeon, 1, 2);
    assert!(result.is_err());
    assert!(result.unwrap_err().contains("not connected"));
}

#[test]
fn exploration_move_through_door_not_connected_to_current_room() {
    check_move_through_door_not_connected_to_current_room();
}

#[test]
fn mod_move_through_door_not_connected_to_current_room() {
    check_move_through_door_not_connected_to_current_room();
}

fn check_door_auto_closes_after_passing() {
    let mut time = TimeTracker::new();
    let mut dungeon = test_dungeon();
    time.light(LightSourceKind::Lantern, "Test");
    open_door(&mut dungeon, 0);
    let result = move_through_door(&mut time, &mut dungeon, 1, 0);
    assert!(result.is_ok());
    assert_eq!(dungeon.current_room, Some(1));
    assert_eq!(
        dungeon.doors.iter().find(|d| d.id == 0).unwrap().state,
        DoorState::Closed,
        "door should auto-close after passing through per OSE rules"
    );
}

#[test]
fn exploration_door_auto_closes_after_passing() {
    check_door_auto_closes_after_passing();
}

#[test]
fn mod_door_auto_closes_after_passing() {
    check_door_auto_closes_after_passing();
}

#[test]
fn module_open_door_does_not_auto_close() {
    let mut time = TimeTracker::new();
    let mut dungeon = test_dungeon();
    time.light(LightSourceKind::Lantern, "Test");
    let i = door_at(&dungeon, 0);
    dungeon.doors[i].state = DoorState::Open;
    dungeon.doors[i].module_open = true;
    let result = move_through_door(&mut time, &mut dungeon, 1, 0);
    assert!(result.is_ok());
    assert_eq!(dungeon.current_room, Some(1));
    assert_eq!(
        dungeon.doors.iter().find(|d| d.id == 0).unwrap().state,
        DoorState::Open,
        "module-open door should remain open after passing through"
    );
}

fn check_move_through_door_triggers_trap() {
    let mut triggered = false;
    for _ in 0..100 {
        let mut time = TimeTracker::new();
        let mut dungeon = test_dungeon();
        time.light(LightSourceKind::Lantern, "Test");
        open_door(&mut dungeon, 0);
        dungeon.move_to(1).unwrap();
        let result = move_through_door(&mut time, &mut dungeon, 1, 2);
        assert!(result.is_ok());
        let output = result.unwrap().to_string();
        if output.contains("TRAP TRIGGERED") {
            triggered = true;
            assert!(dungeon.find_room(3).unwrap().trap_triggered);
            break;
        }
    }
    assert!(triggered, "moving into trap room should eventually trigger a trap");
}

#[test]
fn exploration_move_through_door_triggers_trap() {
    check_move_through_door_triggers_trap();
}

#[test]
fn mod_move_through_door_triggers_trap() {
    check_move_through_door_triggers_trap();
}

fn check_move_output_includes_torch_status() {
    let mut time = TimeTracker::new();
    let mut dungeon = test_dungeon();
    time.light(LightSourceKind::Lantern, "Brin");
    open_door(&mut dungeon, 0);
    let result = move_through_door(&mut time, &mut dungeon, 1, 0);
    assert!(result.is_ok());
    let output = result.unwrap().to_string();
    assert!(
        output.contains("Lantern: 23 turns remaining"),
        "move output should show lantern status, got: {}",
        output
    );
}

#[test]
fn exploration_move_output_includes_torch_status() {
    check_move_output_includes_torch_status();
}

#[test]
fn mod_move_output_includes_torch_status() {
    check_move_output_includes_torch_status();
}

// --- Placed monsters and traps ---

#[test]
fn move_into_room_spawns_placed_monsters() {
    let mut time = TimeTracker::new();
    let mut dungeon = DungeonState::new(1);
    time.light(LightSourceKind::Lantern, "Test");
    dungeon.add_room(Room::new(0, "Entrance")).unwrap();
    let monster_room = Room::new(1, "Monster Lair").with_placed_monsters(vec![
        PlacedMonsterInstance::new("skeleton", 3),
        PlacedMonsterInstance::new("zombie", 2),
    ]);
    dungeon.add_room(monster_room).unwrap();
    dungeon.add_door(Door::new(0, 0, 1, DoorState::Open).unwrap()).unwrap();

    let result = move_through_door(&mut time, &mut dungeon, 1, 0);
    assert!(result.is_ok());
    let result = result.unwrap();
    let output = result.to_string();
    assert!(output.contains("skeleton x3"), "output should mention skeletons");
    assert!(output.contains("zombie x2"), "output should mention zombies");

    assert!(result.placed_monsters.is_some(), "should report placed monsters");
    let monsters = result.placed_monsters.unwrap();
    assert_eq!(monsters.len(), 2, "should have 2 monster groups");
    assert_eq!(monsters[0].name, "skeleton");
    assert_eq!(monsters[0].count, 3);
    assert_eq!(monsters[1].name, "zombie");
    assert_eq!(monsters[1].count, 2);

    let room = dungeon.find_room(1).unwrap();
    assert!(room.placed_monsters.iter().all(|m| m.spawned), "all monsters should be marked spawned");
}

#[test]
fn placed_monsters_report_undead_tag() {
    let mut time = TimeTracker::new();
    let mut dungeon = DungeonState::new(1);
    time.light(LightSourceKind::Lantern, "Test");
    dungeon.add_room(Room::new(0, "Entrance")).unwrap();
    let mut skeleton = PlacedMonsterInstance::new("Frosted Skeleton", 4);
    skeleton.undead = Some(true);
    let spider = PlacedMonsterInstance::new("Ice Spider", 2);
    let room = Room::new(1, "Bone Crypt").with_placed_monsters(vec![skeleton, spider]);
    dungeon.add_room(room).unwrap();
    dungeon.add_door(Door::new(0, 0, 1, DoorState::Open).unwrap()).unwrap();

    let result = move_through_door(&mut time, &mut dungeon, 1, 0).unwrap();
    let output = result.to_string();
    assert!(output.contains("Frosted Skeleton x4 [undead]"), "undead monsters should be tagged: {output}");
    assert!(output.contains("Ice Spider x2"), "non-undead should not be tagged: {output}");
    assert!(!output.contains("Ice Spider x2 [undead]"), "non-undead must not have tag");

    let monsters = result.placed_monsters.unwrap();
    assert_eq!(monsters[0].undead, Some(true));
    assert_eq!(monsters[1].undead, None);
}

#[test]
fn move_into_cleared_room_does_not_spawn_monsters() {
    let mut time = TimeTracker::new();
    let mut dungeon = DungeonState::new(1);
    time.light(LightSourceKind::Lantern, "Test");
    dungeon.add_room(Room::new(0, "Entrance")).unwrap();
    let mut monster_room = Room::new(1, "Monster Lair")
        .with_placed_monsters(vec![PlacedMonsterInstance::new("orc", 4)]);
    monster_room.monsters_cleared = true;
    dungeon.add_room(monster_room).unwrap();
    dungeon.add_door(Door::new(0, 0, 1, DoorState::Open).unwrap()).unwrap();

    let result = move_through_door(&mut time, &mut dungeon, 1, 0);
    assert!(result.is_ok());
    let result = result.unwrap();
    assert!(result.placed_monsters.is_none(), "should not report monsters in cleared room");
}

#[test]
fn re_entering_room_after_spawn_does_not_spawn_again() {
    let mut time = TimeTracker::new();
    let mut dungeon = DungeonState::new(1);
    time.light(LightSourceKind::Lantern, "Test");
    dungeon.add_room(Room::new(0, "Entrance")).unwrap();
    let monster_room = Room::new(1, "Monster Lair")
        .with_placed_monsters(vec![PlacedMonsterInstance::new("goblin", 5)]);
    dungeon.add_room(monster_room).unwrap();
    dungeon.add_door(Door::new(0, 0, 1, DoorState::Open).unwrap()).unwrap();

    let result = move_through_door(&mut time, &mut dungeon, 1, 0);
    assert!(result.is_ok());
    assert!(result.unwrap().placed_monsters.is_some(), "first entry should spawn");

    open_door(&mut dungeon, 0);
    let _ = move_through_door(&mut time, &mut dungeon, 1, 0);

    open_door(&mut dungeon, 0);
    let result = move_through_door(&mut time, &mut dungeon, 1, 0);
    assert!(result.is_ok());
    let result = result.unwrap();
    assert!(result.placed_monsters.is_none(), "re-entry should not spawn monsters again");
}

#[test]
fn room_with_no_placed_content_works_normally() {
    let mut time = TimeTracker::new();
    let mut dungeon = DungeonState::new(1);
    time.light(LightSourceKind::Lantern, "Test");
    dungeon.add_room(Room::new(0, "Empty Hall")).unwrap();
    dungeon.add_room(Room::new(1, "Another Room")).unwrap();
    dungeon.add_door(Door::new(0, 0, 1, DoorState::Open).unwrap()).unwrap();

    let result = move_through_door(&mut time, &mut dungeon, 1, 0);
    assert!(result.is_ok());
    let result = result.unwrap();
    assert!(result.placed_monsters.is_none(), "empty room should have no monsters");

    let result = search_room(&mut time, &mut dungeon, 1, false);
    assert!(result.placed_treasure.is_none(), "empty room should have no treasure");
}

#[test]
fn action_trap_does_not_trigger_on_room_entry() {
    for attempt in 0..100 {
        let mut time = TimeTracker::new();
        let mut dungeon = DungeonState::new(1);
        time.light(LightSourceKind::Lantern, "Test");
        dungeon.add_room(Room::new(0, "Entrance")).unwrap();
        dungeon
            .add_room(
                Room::new(1, "Freezing Mirror")
                    .with_trap("Save vs paralysis or be frozen")
                    .with_trap_trigger(TrapTrigger::Action),
            )
            .unwrap();
        dungeon.add_door(Door::new(0, 0, 1, DoorState::Open).unwrap()).unwrap();

        let result = move_through_door(&mut time, &mut dungeon, 1, 0);
        assert!(result.is_ok());
        let output = result.unwrap().to_string();
        assert!(
            !output.contains("TRAP TRIGGERED"),
            "action trap should never auto-trigger on entry (attempt {}), got: {}",
            attempt,
            output
        );
        assert!(
            !dungeon.find_room(1).unwrap().trap_triggered,
            "action trap flag should not be set on entry (attempt {})",
            attempt
        );
    }
}

#[test]
fn action_trap_notifies_gm_on_entry() {
    let mut time = TimeTracker::new();
    let mut dungeon = DungeonState::new(1);
    time.light(LightSourceKind::Lantern, "Test");
    dungeon.add_room(Room::new(0, "Entrance")).unwrap();
    dungeon
        .add_room(
            Room::new(1, "Freezing Mirror")
                .with_trap("Save vs paralysis or be frozen")
                .with_trap_trigger(TrapTrigger::Action),
        )
        .unwrap();
    dungeon.add_door(Door::new(0, 0, 1, DoorState::Open).unwrap()).unwrap();

    let result = move_through_door(&mut time, &mut dungeon, 1, 0);
    assert!(result.is_ok());
    let output = result.unwrap().to_string();
    assert!(
        output.contains("TRAP PRESENT") && output.contains("requires character action"),
        "should notify GM about action trap, got: {}",
        output
    );
}

#[test]
fn entry_trap_still_triggers_on_room_entry() {
    let mut triggered = false;
    for _ in 0..100 {
        let mut time = TimeTracker::new();
        let mut dungeon = DungeonState::new(1);
        time.light(LightSourceKind::Lantern, "Test");
        dungeon.add_room(Room::new(0, "Entrance")).unwrap();
        dungeon
            .add_room(
                Room::new(1, "Pit Room")
                    .with_trap("Pit trap (1d6 damage)")
                    .with_trap_trigger(TrapTrigger::Entry),
            )
            .unwrap();
        dungeon.add_door(Door::new(0, 0, 1, DoorState::Open).unwrap()).unwrap();

        let result = move_through_door(&mut time, &mut dungeon, 1, 0);
        assert!(result.is_ok());
        if result.unwrap().to_string().contains("TRAP TRIGGERED") {
            triggered = true;
            assert!(dungeon.find_room(1).unwrap().trap_triggered);
            break;
        }
    }
    assert!(triggered, "entry trap should eventually trigger on room entry");
}

// --- Decisions from given dice ---

#[test]
fn wandering_from_rolls_needs_even_turn_and_a_one() {
    assert_eq!(
        wandering_from_rolls(2, 3, 1, 17),
        Some(WanderingEncounter { level: 3, table_roll: 17 })
    );
    assert_eq!(wandering_from_rolls(1, 3, 1, 17), None);
    assert_eq!(wandering_from_rolls(2, 3, 2, 17), None);
    assert_eq!(wandering_from_rolls(4, 1, 6, 40), None);
}

fn lit_time() -> TimeTracker {
    let mut time = TimeTracker::new();
    time.light(LightSourceKind::Torch, "Arden");
    time
}

#[test]
fn listen_with_rolls_follows_threshold() {
    let dungeon = test_dungeon();
    let heard = |elf: bool, roll: u32| {
        let mut time = lit_time();
        let r = listen_at_door_rolled(&mut time, &dungeon, 1, elf, roll, 6, 1);
        assert_eq!(time.total_turns, 1);
        r.messages.iter().any(|m| m == "You hear sounds beyond the door!")
    };
    assert!(heard(false, 1));
    assert!(!heard(false, 2));
    assert!(heard(true, 2));
    assert!(!heard(true, 3));
    assert!(!heard(true, 6));
}

#[test]
fn search_with_rolls_follows_threshold() {
    let found = |elf: bool, roll: u32| {
        let mut time = lit_time();
        let mut dungeon = test_dungeon();
        dungeon.current_room = Some(1);
        let r = search_room_rolled(&mut time, &mut dungeon, 1, elf, roll, 6, 1);
        let door = dungeon.find_door(1).unwrap();
        assert_eq!(door.discovered, r.messages.iter().any(|m| m.starts_with("Secret door found! Door 1")));
        door.discovered
    };
    assert!(found(false, 1));
    assert!(!found(false, 2));
    assert!(found(true, 2));
    assert!(!found(true, 3));
}

#[test]
fn wandering_check_with_rolls_reports_encounter() {
    let dungeon = test_dungeon();
    let mut time = lit_time();
    time.total_turns = 1;
    let r = listen_at_door_rolled(&mut time, &dungeon, 2, false, 6, 1, 33);
    assert_eq!(r.encounter, Some(WanderingEncounter { level: 2, table_roll: 33 }));
    assert!(r.messages.iter().any(|m| m == "Wandering monster! (roll 33 on the level 2 encounter table)"));
}
