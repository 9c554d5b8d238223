use ose_engine::engine::inventory::actions::{
    action_buy, action_drop, action_equip, action_list_equipment, action_loot,
};
use ose_engine::model::{Character, Class, Item};
use ose_engine::state::GameState;
use ose_engine::state::dungeon::{DungeonState, PlacedTreasureInstance, Room};

fn state_with_fighter() -> GameState {
    let mut state = GameState::new();
    let mut c = Character::new("Aldric", Class::Fighter);
    c.gold_gp = 100;
    c.abilities.dexterity = 10;
    state.party.add_member(c);
    state
}

fn err_text<T>(r: Result<T, ose_engine::state::EngineError>) -> String {
    match r {
        Ok(_) => panic!("expected an error"),
        Err(e) => e.to_string(),
    }
}

#[test]
fn buy_sword() {
    let mut state = state_with_fighter();
    let result = action_buy(&mut state, "Aldric", "Sword").expect("buy should succeed");
    assert!(result.message.contains("buys Sword"));
    assert_eq!(result.cost_gp, 10);
    assert_eq!(result.gold_remaining, 90);
    let c = state.party.find_member("Aldric").unwrap();
    assert_eq!(c.inventory.len(), 1);
    assert_eq!(c.inventory[0].name, "Sword");
}

#[test]
fn buy_torch_costs_gp() {
    let mut state = state_with_fighter();
    let result = action_buy(&mut state, "Aldric", "Torches (6)").expect("buy torches should succeed");
    assert_eq!(result.cost_gp, 1);
    assert_eq!(result.gold_remaining, 99);
}

#[test]
fn buy_holy_water_costs_gp() {
    let mut state = state_with_fighter();
    let result =
        action_buy(&mut state, "Aldric", "Holy water (vial)").expect("buy holy water should succeed");
    assert_eq!(result.cost_gp, 25);
    assert_eq!(result.gold_remaining, 75);
}

#[test]
fn buy_improvised_weapon_not_free() {
    // A torch is not sold as a free weapon: buying it costs gold or fails.
    let mut state = state_with_fighter();
    let result = action_buy(&mut state, "Aldric", "Torch");
    assert!(
        result.is_err() || result.unwrap().cost_gp > 0,
        "Improvised weapons without a price should not be buyable at 0 gp"
    );
}

#[test]
fn buy_suggests_chainmail() {
    let mut state = state_with_fighter();
    let err = err_text(action_buy(&mut state, "Aldric", "chain"));
    assert!(err.contains("Did you mean"));
    assert!(err.contains("Chainmail"));
}

#[test]
fn buy_chain_mail_with_space_resolves_to_chainmail() {
    let mut state = state_with_fighter();
    let result = action_buy(&mut state, "Aldric", "Chain Mail").expect("should resolve Chain Mail");
    assert!(result.message.contains("buys Chainmail"));
    assert_eq!(result.cost_gp, 40);
}

#[test]
fn buy_thieves_tools_without_apostrophe() {
    let mut state = state_with_fighter();
    let result =
        action_buy(&mut state, "Aldric", "Thieves tools").expect("should resolve without apostrophe");
    assert!(result.message.contains("Thieves' tools"));
    assert_eq!(result.cost_gp, 25);
}

#[test]
fn buy_leather_armor_suggests_leather() {
    let mut state = state_with_fighter();
    let msg = err_text(action_buy(&mut state, "Aldric", "Leather Armor"));
    assert!(msg.contains("Did you mean"), "should suggest: {}", msg);
    assert!(msg.contains("Leather"), "should suggest Leather: {}", msg);
}

#[test]
fn buy_plate_mail_with_extra_space_resolves() {
    let mut state = state_with_fighter();
    let result = action_buy(&mut state, "Aldric", "Plate Mail")
        .expect("should resolve Plate Mail with different spacing");
    assert!(result.message.contains("Plate mail"));
}

#[test]
fn buy_war_hammer_without_space_resolves() {
    let mut state = state_with_fighter();
    let result =
        action_buy(&mut state, "Aldric", "Warhammer").expect("should resolve Warhammer to War hammer");
    assert!(result.message.contains("War hammer"));
}

#[test]
fn drop_item() {
    let mut state = state_with_fighter();
    let i = state.party.find_index("Aldric").unwrap();
    state.party.members[i].inventory.push(Item::new("Sword", 60, 10));
    let result = action_drop(&mut state, "Aldric", "Sword").expect("drop should succeed");
    assert!(result.message.contains("drops Sword"));
    assert!(state.party.find_member("Aldric").unwrap().inventory.is_empty());
}

#[test]
fn equip_updates_ac() {
    let mut state = state_with_fighter();
    action_buy(&mut state, "Aldric", "Leather").expect("buy leather should succeed");
    let result = action_equip(&mut state, "Aldric", "Leather").expect("equip should succeed");
    assert!(result.message.contains("equips Leather"));
    assert_eq!(result.ac, 7);
    assert_eq!(state.party.find_member("Aldric").unwrap().ac, 7);
}

fn state_with_dungeon_treasure() -> GameState {
    let mut state = state_with_fighter();
    let mut dungeon = DungeonState::new(1);
    let room = Room::new(0, "Vault").with_placed_treasure(vec![
        PlacedTreasureInstance::new("Ruby gem", 500),
        PlacedTreasureInstance::new("Old key", 0),
    ]);
    dungeon.add_room(room).unwrap();
    dungeon.current_room = Some(0);
    dungeon.explored.push(0);
    state.dungeon = Some(dungeon);
    state
}

#[test]
fn loot_from_current_room_marks_treasure_taken() {
    let mut state = state_with_dungeon_treasure();
    let result =
        action_loot(&mut state, "Aldric", "Ruby gem", None).expect("loot from room should succeed");
    assert!(result.message.contains("500 gp"));
    assert_eq!(result.value_gp, 500);

    let room = state.dungeon.as_ref().unwrap().find_room(0).unwrap();
    assert!(room.placed_treasure[0].taken);
}

#[test]
fn loot_adhoc_item_in_dungeon() {
    let mut state = state_with_dungeon_treasure();
    let result = action_loot(&mut state, "Aldric", "Diamond", Some(200))
        .expect("ad-hoc loot in dungeon should succeed");
    assert!(result.message.contains("picks up Diamond"));
    assert!(result.message.contains("200 gp"));
    assert_eq!(result.value_gp, 200);
}

#[test]
fn loot_adhoc_item_in_dungeon_no_value() {
    let mut state = state_with_dungeon_treasure();
    let result = action_loot(&mut state, "Aldric", "Old scroll", None)
        .expect("ad-hoc loot without value should succeed");
    assert!(result.message.contains("picks up Old scroll"));
    assert_eq!(result.value_gp, 0);
}

#[test]
fn list_equipment_has_items() {
    let result = action_list_equipment();
    assert!(!result.weapons.is_empty(), "should have weapons");
    assert!(!result.armour.is_empty(), "should have armour");
    assert!(!result.gear.is_empty(), "should have gear");
    assert!(!result.ammunition.is_empty(), "should have ammunition");
}

#[test]
fn list_equipment_contains_sword() {
    let result = action_list_equipment();
    assert!(result.weapons.iter().any(|w| w.name == "Sword"), "weapons should contain Sword");
}

#[test]
fn list_equipment_contains_chainmail() {
    let result = action_list_equipment();
    assert!(result.armour.iter().any(|a| a.name == "Chainmail"), "armour should contain Chainmail");
}

#[test]
fn list_equipment_all_have_cost() {
    let result = action_list_equipment();
    for w in &result.weapons {
        assert!(w.cost_gp > 0, "weapon {} should have cost > 0", w.name);
    }
    for a in &result.armour {
        assert!(a.cost_gp > 0, "armour {} should have cost > 0", a.name);
    }
}

#[test]
fn buy_messages_and_refusals() {
    let mut state = state_with_fighter();
    let result = action_buy(&mut state, "aldric", "sword").unwrap();
    assert_eq!(result.message, "Aldric buys Sword for 10 gp. (90 gp remaining)");
    state.party.members[0].gold_gp = 30;
    assert_eq!(
        err_text(action_buy(&mut state, "Aldric", "Plate mail")),
        "Aldric has 30 gp but Plate mail costs 60 gp."
    );
    assert_eq!(
        err_text(action_buy(&mut state, "Nobody", "Sword")),
        "no party member named 'Nobody'."
    );
    assert_eq!(
        err_text(action_buy(&mut state, "Aldric", "Xyzzy")),
        "unknown item 'Xyzzy'. Check equipment tables."
    );
    assert_eq!(
        err_text(action_buy(&mut state, "Aldric", "   ")),
        "unknown item '   '. Did you mean: Battle axe, Club, Crossbow?"
    );
}

#[test]
fn buy_suggestions_stop_at_three() {
    let mut state = state_with_fighter();
    let msg = err_text(action_buy(&mut state, "Aldric", "s"));
    let list = msg.split("Did you mean: ").nth(1).unwrap();
    assert_eq!(list.trim_end_matches('?').split(", ").count(), 3);
}

#[test]
fn equip_twice_restores_and_shield_counts() {
    let mut state = state_with_fighter();
    action_buy(&mut state, "Aldric", "Chainmail").unwrap();
    action_buy(&mut state, "Aldric", "Shield").unwrap();
    assert_eq!(action_equip(&mut state, "Aldric", "chainmail").unwrap().ac, 5);
    let r = action_equip(&mut state, "Aldric", "Shield").unwrap();
    assert_eq!(r.ac, 4);
    assert_eq!(r.message, "Aldric equips Shield. (AC 4)");
    let r = action_equip(&mut state, "Aldric", "Chainmail").unwrap();
    assert_eq!(r.action, "unequips");
    assert_eq!(r.ac, 8);
    assert_eq!(
        err_text(action_equip(&mut state, "Aldric", "Lantern")),
        "Aldric does not have 'Lantern'."
    );
}

#[test]
fn drop_missing_item_refused() {
    let mut state = state_with_fighter();
    assert_eq!(err_text(action_drop(&mut state, "Aldric", "Sword")), "Aldric does not have 'Sword'.");
}

#[test]
fn loot_takes_treasure_only_once() {
    let mut state = state_with_dungeon_treasure();
    let first = action_loot(&mut state, "Aldric", "ruby GEM", None).unwrap();
    assert_eq!(first.value_gp, 500);
    assert_eq!(first.message, "Aldric picks up ruby GEM. (worth 500 gp)");
    let second = action_loot(&mut state, "Aldric", "Ruby gem", None).unwrap();
    assert_eq!(second.value_gp, 0);
    assert_eq!(second.message, "Aldric picks up Ruby gem.");
    assert_eq!(state.party.find_member("Aldric").unwrap().inventory.len(), 2);
}
