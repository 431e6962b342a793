use archipelago_rs::protocol::data_package::{DataPackageObject, GameData, NameTable};

fn items() -> NameTable {
    let mut table = NameTable::new();
    table.insert("Sword".to_string(), 42);
    table.insert("Shield".to_string(), 43);
    table.insert("Potion".to_string(), 7);
    table
}

fn locations() -> NameTable {
    let mut table = NameTable::new();
    table.insert("Cave".to_string(), 1);
    table.insert("Tower".to_string(), 2);
    table
}

#[test]
fn table_holds_what_was_put_in() {
    let table = items();
    assert_eq!(table.len(), 3);
    assert_eq!(table.get("Sword"), Some(42));
    assert_eq!(table.get("Potion"), Some(7));
    assert_eq!(table.get("Bow"), None);
    assert_eq!(table.entries()[1].name, "Shield");
    assert_eq!(table.entries()[1].id, 43);
}

#[test]
fn table_insert_replaces_a_name() {
    let mut table = items();
    assert_eq!(table.insert("Sword".to_string(), 99), Some(42));
    assert_eq!(table.insert("Bow".to_string(), 5), None);
    assert_eq!(table.len(), 4);
    assert_eq!(table.get("Sword"), Some(99));
    assert_eq!(table.get("Bow"), Some(5));
}

#[test]
fn empty_table_holds_nothing() {
    let table = NameTable::new();
    assert_eq!(table.len(), 0);
    assert_eq!(table.get(""), None);
}

#[test]
fn inverse_index_gives_the_name_of_each_entry() {
    let mut game = GameData::new(items(), locations(), "abc".to_string());
    let entries: Vec<(String, i64)> = game
        .item_name_to_id()
        .entries()
        .iter()
        .map(|entry| (entry.name.clone(), entry.id))
        .collect();
    let index = game.item_id_to_name().clone();
    assert_eq!(index.len(), 3);
    for (name, id) in entries {
        assert_eq!(index[&id], name);
    }
    assert_eq!(index.get(&1000), None);
}

#[test]
fn inverse_index_is_the_same_on_every_call() {
    let mut game = GameData::new(items(), locations(), "abc".to_string());
    let first = game.item_id_to_name().clone();
    let second = game.item_id_to_name().clone();
    assert_eq!(first, second);
    let first = game.location_id_to_name().clone();
    let second = game.location_id_to_name().clone();
    assert_eq!(first, second);
    assert_eq!(first[&2], "Tower");
}

#[test]
fn inverse_index_leaves_the_tables_alone() {
    let mut game = GameData::new(items(), locations(), "abc".to_string());
    game.item_id_to_name();
    game.location_id_to_name();
    assert_eq!(game.item_name_to_id().get("Sword"), Some(42));
    assert_eq!(game.item_name_to_id().len(), 3);
    assert_eq!(game.location_name_to_id().get("Cave"), Some(1));
    assert_eq!(game.checksum(), "abc");
}

#[test]
fn inverse_index_with_a_duplicate_id_keeps_the_later_name() {
    let mut table = NameTable::new();
    table.insert("First".to_string(), 1);
    table.insert("Second".to_string(), 1);
    let mut game = GameData::new(table, NameTable::new(), String::new());
    let index = game.item_id_to_name();
    assert_eq!(index.len(), 1);
    assert_eq!(index[&1], "Second");
    assert_eq!(game.location_id_to_name().len(), 0);
}

#[test]
fn catalogue_finds_names_by_game_and_id() {
    let mut catalogue = DataPackageObject::new();
    assert_eq!(catalogue.len(), 0);
    catalogue.insert("Zelda".to_string(), GameData::new(items(), locations(), "z".to_string()));
    catalogue.insert("Mario".to_string(), GameData::new(locations(), items(), "m".to_string()));
    assert_eq!(catalogue.len(), 2);
    assert_eq!(catalogue.item_name("Zelda", 42), Some("Sword".to_string()));
    assert_eq!(catalogue.item_name("Zelda", 1), None);
    assert_eq!(catalogue.item_name("Mario", 1), Some("Cave".to_string()));
    assert_eq!(catalogue.location_name("Zelda", 2), Some("Tower".to_string()));
    assert_eq!(catalogue.location_name("Mario", 43), Some("Shield".to_string()));
    assert_eq!(catalogue.item_name("Metroid", 42), None);
    assert_eq!(catalogue.location_name("Metroid", 1), None);
    assert_eq!(catalogue.len(), 2);
    assert_eq!(catalogue.get("Zelda").map(|game| game.checksum().as_str()), Some("z"));
    assert!(catalogue.get("Metroid").is_none());
}

#[test]
fn catalogue_insert_replaces_a_game() {
    let mut catalogue = DataPackageObject::new();
    catalogue.insert("Zelda".to_string(), GameData::new(items(), locations(), "old".to_string()));
    assert_eq!(catalogue.item_name("Zelda", 42), Some("Sword".to_string()));
    catalogue.insert(
        "Zelda".to_string(),
        GameData::new(locations(), NameTable::new(), "new".to_string()),
    );
    assert_eq!(catalogue.len(), 1);
    assert_eq!(catalogue.item_name("Zelda", 42), None);
    assert_eq!(catalogue.item_name("Zelda", 2), Some("Tower".to_string()));
    assert_eq!(catalogue.get("Zelda").map(|game| game.checksum().as_str()), Some("new"));
}

#[test]
fn table_insert_keeps_the_order_of_the_lines() {
    let mut table = items();
    table.insert("Shield".to_string(), 50);
    table.insert("Bow".to_string(), 5);
    let lines: Vec<(&str, i64)> =
        table.entries().iter().map(|entry| (entry.name.as_str(), entry.id)).collect();
    assert_eq!(lines, vec![("Sword", 42), ("Shield", 50), ("Potion", 7), ("Bow", 5)]);
}

#[test]
fn copies_hold_what_was_copied() {
    let table = items().copy();
    assert_eq!(table.len(), 3);
    assert_eq!(table.get("Shield"), Some(43));

    let mut game = GameData::new(items(), locations(), "abc".to_string());
    game.item_id_to_name();
    let mut copy = game.copy();
    assert_eq!(copy.checksum(), "abc");
    assert_eq!(copy.item_id_to_name(), game.item_id_to_name());
    assert_eq!(copy.location_id_to_name(), game.location_id_to_name());

    let mut catalogue = DataPackageObject::new();
    catalogue.insert("Zelda".to_string(), game);
    catalogue.insert("Mario".to_string(), GameData::new(locations(), items(), "m".to_string()));
    let mut copy = catalogue.copy();
    assert_eq!(copy.len(), 2);
    assert_eq!(copy.games(), vec!["Zelda".to_string(), "Mario".to_string()]);
    assert_eq!(copy.item_name("Zelda", 7), Some("Potion".to_string()));
    assert_eq!(copy.location_name("Mario", 42), Some("Sword".to_string()));
}

#[test]
fn games_lists_each_game_once() {
    let mut catalogue = DataPackageObject::new();
    assert!(catalogue.games().is_empty());
    catalogue.insert("Zelda".to_string(), GameData::new(items(), locations(), "z".to_string()));
    catalogue.insert("Mario".to_string(), GameData::new(items(), locations(), "m".to_string()));
    catalogue.insert("Zelda".to_string(), GameData::new(items(), locations(), "y".to_string()));
    assert_eq!(catalogue.games(), vec!["Zelda".to_string(), "Mario".to_string()]);
}

#[test]
fn clones_hold_what_was_cloned() {
    let table = items().clone();
    assert_eq!(table.len(), 3);
    assert_eq!(table.get("Potion"), Some(7));
    assert_eq!(table.entries()[0].name, "Sword");

    let mut catalogue = DataPackageObject::new();
    catalogue.insert("Zelda".to_string(), GameData::new(items(), locations(), "z".to_string()));
    let mut clone = catalogue.clone();
    assert_eq!(clone.games(), vec!["Zelda".to_string()]);
    assert_eq!(clone.item_name("Zelda", 43), Some("Shield".to_string()));
    assert_eq!(clone.get("Zelda").unwrap().clone().checksum(), "z");
    assert_eq!(catalogue.location_name("Zelda", 1), Some("Cave".to_string()));
}
