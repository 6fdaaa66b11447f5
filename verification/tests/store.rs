use poem_api::db::{load_db, save_db, Database, NotFound, SaveStep, DB_FILE};
use poem_api::models::Item;

fn item(id: u32, name: &str) -> Item {
    Item { id, name: name.to_string() }
}

fn filled() -> Database {
    let mut db = Database::default();
    db.create("a".to_string());
    db.create("b".to_string());
    db.create("c".to_string());
    db
}

#[test]
fn new_store_is_empty() {
    let db = Database::default();
    assert_eq!(db.last_id, 0);
    assert!(db.items.is_empty());
    assert!(db.list().is_empty());
}

#[test]
fn create_numbers_items_from_one() {
    let mut db = Database::default();
    assert_eq!(db.create("a".to_string()), item(1, "a"));
    assert_eq!(db.create("b".to_string()), item(2, "b"));
    assert_eq!(db.last_id, 2);
    assert_eq!(db.list(), vec![item(1, "a"), item(2, "b")]);
}

#[test]
fn create_goes_on_from_the_counter_of_a_snapshot() {
    let mut db = Database { last_id: 41, items: vec![item(7, "old")] };
    assert_eq!(db.create("new".to_string()), item(42, "new"));
    assert_eq!(db.items, vec![item(7, "old"), item(42, "new")]);
}

#[test]
fn create_can_issue_the_largest_id() {
    let mut db = Database { last_id: u32::MAX - 1, items: vec![] };
    assert_eq!(db.create("last".to_string()), item(u32::MAX, "last"));
    assert_eq!(db.last_id, u32::MAX);
    assert_eq!(db.find(u32::MAX), Some(item(u32::MAX, "last")));
}

#[test]
fn find_gives_the_first_item_with_the_id() {
    let db = filled();
    assert_eq!(db.find(2), Some(item(2, "b")));
    assert_eq!(db.find(0), None);
    assert_eq!(db.find(4), None);
    let twice = Database { last_id: 5, items: vec![item(5, "x"), item(5, "y")] };
    assert_eq!(twice.find(5), Some(item(5, "x")));
}

#[test]
fn update_keeps_the_id_and_the_order() {
    let mut db = filled();
    assert_eq!(db.update(1, "A".to_string()), Ok(item(1, "A")));
    assert_eq!(db.items, vec![item(1, "A"), item(2, "b"), item(3, "c")]);
    assert_eq!(db.update(9, "z".to_string()), Err(NotFound));
    assert_eq!(db.items, vec![item(1, "A"), item(2, "b"), item(3, "c")]);
    assert_eq!(db.last_id, 3);
}

#[test]
fn delete_removes_one_item_and_keeps_the_counter() {
    let mut db = filled();
    assert_eq!(db.delete(2), Ok(()));
    assert_eq!(db.items, vec![item(1, "a"), item(3, "c")]);
    assert_eq!(db.last_id, 3);
    assert_eq!(db.delete(2), Err(NotFound));
    assert_eq!(db.find(2), None);
    assert_eq!(db.create("d".to_string()), item(4, "d"));
}

#[test]
fn copy_of_a_store_equals_it() {
    let db = filled();
    assert_eq!(db.clone(), db);
}

#[test]
fn snapshot_is_restored_as_it_is() {
    let mut db = filled();
    db.delete(1).unwrap();
    let loaded = load_db(Some(db.clone()));
    assert!(!loaded.recovered);
    assert_eq!(loaded.db.items, db.items);
    assert_eq!(loaded.db.last_id, db.last_id);
}

#[test]
fn missing_snapshot_starts_an_empty_store() {
    let loaded = load_db(None);
    assert!(loaded.recovered);
    assert_eq!(loaded.db, Database::default());
}

#[test]
fn save_outcome_names_the_step_that_failed() {
    assert_eq!(DB_FILE, "data.json");
    assert_eq!(save_db(None), Ok(()));
    let error = save_db(Some(SaveStep::Encode)).unwrap_err();
    assert_eq!(error.status, 500);
    assert_eq!(error.message, "Failed to Read File from data.json");
    let error = save_db(Some(SaveStep::Write)).unwrap_err();
    assert_eq!(error.status, 500);
    assert_eq!(error.message, "Failed to write on data.json");
}
