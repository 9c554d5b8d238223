use ose_engine::engine::lookup::actions::{parse_spell_list, spell_list_of_lowercase};
use ose_engine::engine::lookup::results::{
    LookupItemMatch, LookupItemPayload, LookupItemResult, LookupSpellResult, MagicItemData,
    MagicItemPropertyData, SearchItemEntry, SearchItemsPayload, SearchItemsResult, SpellList,
};

#[test]
fn parse_spell_list_aliases() {
    assert_eq!(parse_spell_list("cleric"), Some(SpellList::Cleric));
    assert_eq!(parse_spell_list("mu"), Some(SpellList::MagicUser));
    assert_eq!(parse_spell_list("mage"), Some(SpellList::MagicUser));
    assert_eq!(parse_spell_list("bad"), None);
}

#[test]
fn parse_spell_list_any_case() {
    assert_eq!(parse_spell_list("Magic-User"), Some(SpellList::MagicUser));
    assert_eq!(parse_spell_list("MAGIC_USER"), Some(SpellList::MagicUser));
    assert_eq!(parse_spell_list("Druid"), Some(SpellList::Druid));
    assert_eq!(parse_spell_list("illusionist"), Some(SpellList::Illusionist));
    assert_eq!(parse_spell_list("magic user"), None);
}

fn bag() -> MagicItemData {
    MagicItemData {
        name: "Bag of Holding".to_string(),
        category: "Miscellaneous".to_string(),
        cursed: false,
        description: Some("Holds much more than it seems.".to_string()),
        properties: vec![
            MagicItemPropertyData { key: Some("Capacity".to_string()), value: "10,000 coins".to_string() },
            MagicItemPropertyData { key: None, value: "Weighs 600 coins when full".to_string() },
        ],
    }
}

#[test]
fn lookup_item_single_outputs() {
    let r = LookupItemResult { query: "bag".to_string(), item_match: LookupItemMatch::Single(bag()) };
    assert_eq!(
        r.cli_output(),
        "=== Bag of Holding ===\nCategory: Miscellaneous\n\nHolds much more than it seems.\n\nProperties:\n  Capacity: 10,000 coins\n  - Weighs 600 coins when full\n"
    );
    assert_eq!(
        r.api_message(),
        "Bag of Holding (Miscellaneous): Holds much more than it seems."
    );
    match r.api_payload() {
        LookupItemPayload::Item(i) => {
            assert_eq!(i.name, "Bag of Holding");
            assert_eq!(i.properties.len(), 2);
        }
        _ => panic!("expected the item"),
    }
}

#[test]
fn lookup_item_cursed_without_description() {
    let item = MagicItemData {
        name: "Sword -1, Cursed".to_string(),
        category: "Sword".to_string(),
        cursed: true,
        description: None,
        properties: vec![],
    };
    let r = LookupItemResult { query: "sword".to_string(), item_match: LookupItemMatch::Single(item) };
    assert_eq!(r.cli_output(), "=== Sword -1, Cursed ===\nCategory: Sword [CURSED]\n");
    assert_eq!(r.api_message(), "Sword -1, Cursed (Sword) [CURSED]");
}

#[test]
fn lookup_item_several_and_too_many() {
    let names = vec!["Potion of Healing".to_string(), "Potion of Heroism".to_string()];
    let r = LookupItemResult { query: "potion of he".to_string(), item_match: LookupItemMatch::Multiple(names) };
    assert_eq!(
        r.cli_output(),
        "Multiple items match 'potion of he'. Did you mean:\n  - Potion of Healing\n  - Potion of Heroism\n"
    );
    assert_eq!(
        r.api_message(),
        "multiple items match 'potion of he'. Did you mean: Potion of Healing, Potion of Heroism?"
    );
    match r.api_payload() {
        LookupItemPayload::Matches { matches, count } => {
            assert_eq!(count, 2);
            assert_eq!(matches[1], "Potion of Heroism");
        }
        _ => panic!("expected matches"),
    }
    let r = LookupItemResult { query: "of".to_string(), item_match: LookupItemMatch::TooMany(42) };
    assert_eq!(r.cli_output(), "Found 42 items matching 'of'. Please be more specific.");
    assert_eq!(r.api_message(), "found 42 items matching 'of'. Please be more specific.");
    assert!(matches!(r.api_payload(), LookupItemPayload::Count { count: 42 }));
}

fn search_result() -> SearchItemsResult {
    SearchItemsResult {
        query: "healing".to_string(),
        by_category: vec![
            (
                "Potion".to_string(),
                vec![
                    SearchItemEntry { name: "Potion of Healing".to_string(), cursed: false },
                    SearchItemEntry { name: "Potion of Poison".to_string(), cursed: true },
                ],
            ),
            ("Staff".to_string(), vec![SearchItemEntry { name: "Staff of Healing".to_string(), cursed: false }]),
        ],
    }
}

#[test]
fn search_items_outputs() {
    let r = search_result();
    assert_eq!(r.count(), 3);
    assert_eq!(
        r.cli_output(),
        "Found 3 item(s) matching 'healing':\n\nPotion:\n  - Potion of Healing\n  - Potion of Poison [CURSED]\n\nStaff:\n  - Staff of Healing\n\n"
    );
    assert_eq!(r.api_message(), "found 3 item(s) matching 'healing'.");
    match r.api_payload() {
        SearchItemsPayload::Results { count, by_category } => {
            assert_eq!(count, 3);
            assert_eq!(by_category[0].0, "Potion");
            assert_eq!(by_category[0].1, vec!["Potion of Healing".to_string(), "Potion of Poison".to_string()]);
            assert_eq!(by_category[1].1, vec!["Staff of Healing".to_string()]);
        }
        _ => panic!("expected results"),
    }
}

#[test]
fn search_items_nothing_found() {
    let r = SearchItemsResult { query: "zzz".to_string(), by_category: vec![] };
    assert_eq!(r.count(), 0);
    assert_eq!(r.cli_output(), "No magic items found matching 'zzz'.");
    assert_eq!(r.api_message(), "no magic items found matching 'zzz'.");
    assert!(matches!(r.api_payload(), SearchItemsPayload::Empty { count: 0, .. }));
}

#[test]
fn lookup_spell_outputs() {
    let r = LookupSpellResult {
        query: "cure light".to_string(),
        name: "Cure Light Wounds".to_string(),
        list: SpellList::Cleric,
        level: 1,
        range: "Touch".to_string(),
        duration: "Instant".to_string(),
        description: "Restores 1d6+1 hit points.".to_string(),
        reversible: true,
        reversed_name: Some("Cause Light Wounds".to_string()),
    };
    assert_eq!(
        r.cli_output(),
        "=== Cure Light Wounds ===\nList: Cleric (Level 1)\nRange: Touch\nDuration: Instant\nReversible: Cause Light Wounds\n\nRestores 1d6+1 hit points."
    );
    assert_eq!(
        r.api_message(),
        "Cure Light Wounds (ClericL1) — Range: Touch, Duration: Instant: Restores 1d6+1 hit points."
    );
    let p = r.api_payload();
    assert_eq!(p.list, "Cleric");
    assert_eq!(p.level, 1);
    let mut plain = r.clone();
    plain.reversed_name = None;
    assert!(plain.cli_output().contains("Reversible: yes\n"));
    plain.reversible = false;
    assert!(!plain.cli_output().contains("Reversible"));
    assert_eq!(SpellList::MagicUser.name(), "Magic-User");
}

#[test]
fn search_categories_in_order() {
    assert!(search_result().categories_in_order());
    let mut r = search_result();
    r.by_category.reverse();
    assert!(!r.categories_in_order());
    let mut r = search_result();
    r.by_category[1].0 = "Potion".to_string();
    assert!(!r.categories_in_order());
    let r = SearchItemsResult { query: "zzz".to_string(), by_category: vec![] };
    assert!(r.categories_in_order());
}

#[test]
fn spell_list_of_lowercase_names() {
    assert_eq!(spell_list_of_lowercase("cleric"), Some(SpellList::Cleric));
    assert_eq!(spell_list_of_lowercase("mu"), Some(SpellList::MagicUser));
    assert_eq!(spell_list_of_lowercase("magic_user"), Some(SpellList::MagicUser));
    assert_eq!(spell_list_of_lowercase("Cleric"), None);
    assert_eq!(spell_list_of_lowercase("bard"), None);
}
