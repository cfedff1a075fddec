use std::collections::HashSet;

use scoundrel::{Point, TileBin};

#[test]
fn test_insert() {
    let mut bin = TileBin::<i32>::default();
    assert!(bin.insert(1, Point::new(0, 0)));
    assert!(bin.insert(2, Point::new(0, 0)));
    assert!(!bin.insert(1, Point::new(0, 0)));
    assert!(bin.insert(3, Point::new(1, 0)));
    assert!(bin.insert(4, Point::new(1, 1)));
    assert!(bin.insert(5, Point::new(2, 2)));
}

#[test]
fn test_remove() {
    let mut bin = TileBin::<i32>::default();
    assert!(!bin.remove(&1));
    bin.insert(1, Point::new(0, 0));
    assert!(bin.remove(&1));
    assert!(!bin.remove(&1));
    bin.insert(1, Point::new(0, 0));
    bin.insert(2, Point::new(0, 0));
    assert!(bin.remove(&1));
    assert!(bin.remove(&2));
}

#[test]
fn test_relocate() {
    let mut bin = TileBin::<i32>::default();
    bin.insert(1, Point::new(0, 0));
    bin.insert(2, Point::new(0, 1));
    bin.relocate(1, Point::new(1, 1));
    assert!(bin.values_at(Point::new(0, 0)).is_empty());
    assert_eq!(bin.values_at(Point::new(1, 1)).first(), Some(&1));
    assert_eq!(bin.values_at(Point::new(0, 1)).first(), Some(&2));
}

#[test]
fn tilebin_test_clear() {
    let mut bin = TileBin::<i32>::default();
    bin.insert(1, Point::new(0, 0));
    bin.insert(2, Point::new(1, 1));
    bin.clear();
    assert!(bin.values_at(Point::new(0, 0)).is_empty());
    assert!(bin.values_at(Point::new(1, 1)).is_empty());
}

#[test]
fn test_values_at_multiple_items() {
    let mut bin = TileBin::<i32>::default();

    bin.insert(1, Point::new(5, 5));
    bin.insert(2, Point::new(5, 5));
    bin.insert(3, Point::new(5, 5));

    let values: HashSet<i32> = bin.values_at(Point::new(5, 5)).into_iter().collect();

    let expected: HashSet<i32> = [1, 2, 3].iter().cloned().collect();
    assert_eq!(values, expected);

    assert_eq!(bin.values_at(Point::new(5, 5)).len(), 3);
}

#[test]
fn test_values_at_empty_location() {
    let bin = TileBin::<i32>::default();

    let values = bin.values_at(Point::new(10, 10));
    assert!(values.is_empty());
}

#[test]
fn test_remove_nonexistent_bin() {
    let mut bin = TileBin::<i32>::default();
    bin.insert(1, Point::new(0, 0));

    bin.remove(&1);
    let values = bin.values_at(Point::new(0, 0));
    assert!(values.is_empty());

    assert!(!bin.positions.iter().any(|entry| entry.0 == 1));
    assert!(bin
        .bins
        .iter()
        .find(|entry| entry.0 == Point::new(0, 0))
        .map_or(true, |entry| entry.1.is_empty()));
}

#[test]
fn test_relocate_to_same_position() {
    let mut bin = TileBin::<i32>::default();
    bin.insert(1, Point::new(3, 3));

    bin.relocate(1, Point::new(3, 3));

    assert_eq!(bin.values_at(Point::new(3, 3)).first(), Some(&1));
}

#[test]
fn test_relocate_with_existing_items() {
    let mut bin = TileBin::<i32>::default();

    bin.insert(1, Point::new(0, 0));
    bin.insert(2, Point::new(1, 1));
    bin.insert(3, Point::new(1, 1));

    bin.relocate(1, Point::new(1, 1));

    assert!(bin.values_at(Point::new(0, 0)).is_empty());

    let values: HashSet<i32> = bin.values_at(Point::new(1, 1)).into_iter().collect();

    let expected: HashSet<i32> = [1, 2, 3].iter().cloned().collect();
    assert_eq!(values, expected);
}

#[test]
fn test_custom_type() {
    #[derive(Hash, Eq, PartialEq, Clone, Debug)]
    struct Entity {
        id: u32,
        name: String,
    }

    let mut bin = TileBin::<Entity>::default();

    let e1 = Entity {
        id: 1,
        name: "Player".to_string(),
    };
    let e2 = Entity {
        id: 2,
        name: "Enemy".to_string(),
    };

    bin.insert(e1.clone(), Point::new(10, 10));
    bin.insert(e2.clone(), Point::new(20, 20));

    assert_eq!(bin.values_at(Point::new(10, 10)).first().unwrap().id, 1);
    assert_eq!(bin.values_at(Point::new(20, 20)).first().unwrap().id, 2);

    bin.relocate(e1.clone(), Point::new(15, 15));

    assert!(bin.values_at(Point::new(10, 10)).is_empty());
    assert_eq!(bin.values_at(Point::new(15, 15)).first().unwrap().id, 1);
}

#[test]
fn test_remove_last_item_in_bin() {
    let mut bin = TileBin::<i32>::default();

    bin.insert(1, Point::new(0, 0));
    bin.insert(2, Point::new(1, 1));
    bin.insert(3, Point::new(2, 2));

    bin.remove(&2);

    assert!(bin.values_at(Point::new(1, 1)).is_empty());

    assert_eq!(bin.values_at(Point::new(0, 0)).first(), Some(&1));
    assert_eq!(bin.values_at(Point::new(2, 2)).first(), Some(&3));
}
