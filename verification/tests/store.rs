use layoutlens::model::{Point, Project, Wall};
use layoutlens::store::Store;

fn project(id: &str, name: &str) -> Project {
    Project { id: id.to_string(), name: name.to_string(), walls: Vec::new() }
}

#[test]
fn new_store_holds_nothing() {
    let store = Store::new();
    assert!(!store.contains("a"));
    assert!(!store.contains(""));
    assert_eq!(store.get("a"), None);
}

#[test]
fn insert_then_get_and_contains() {
    let mut store = Store::new();
    store.insert("a".to_string(), project("a", "first"));
    assert!(store.contains("a"));
    assert!(!store.contains("b"));
    assert_eq!(store.get("a"), Some(project("a", "first")));
    assert_eq!(store.get("b"), None);
}

#[test]
fn insert_overwrites_and_leaves_other_keys() {
    let mut store = Store::new();
    store.insert("a".to_string(), project("a", "first"));
    store.insert("b".to_string(), project("b", "other"));
    store.insert("a".to_string(), project("a", "second"));
    assert_eq!(store.get("a"), Some(project("a", "second")));
    assert_eq!(store.get("b"), Some(project("b", "other")));
}

#[test]
fn keys_are_compared_letter_for_letter() {
    let mut store = Store::new();
    store.insert("abc".to_string(), project("abc", "n"));
    assert!(!store.contains("ABC"));
    assert!(!store.contains("abc "));
    assert!(!store.contains("ab"));
}

#[test]
fn get_copies_walls_too() {
    let mut store = Store::new();
    let wall = Wall {
        id: "w1".to_string(),
        start: Point { x: 0f32.to_bits(), y: 0f32.to_bits() },
        end: Point { x: 10f32.to_bits(), y: 0f32.to_bits() },
        thickness: 0.2f32.to_bits(),
    };
    let stored =
        Project { id: "a".to_string(), name: "n".to_string(), walls: vec![wall.clone()] };
    store.insert("a".to_string(), stored.clone());
    let mut copy = store.get("a").unwrap();
    assert_eq!(copy, stored);
    copy.walls.clear();
    assert_eq!(store.get("a").unwrap().walls, vec![wall]);
}

#[test]
fn clone_of_a_project_is_equal() {
    let first = Project {
        id: "a".to_string(),
        name: "n".to_string(),
        walls: vec![Wall {
            id: "w".to_string(),
            start: Point { x: 1, y: 2 },
            end: Point { x: 3, y: 4 },
            thickness: 5,
        }],
    };
    assert_eq!(first.clone(), first);
}
