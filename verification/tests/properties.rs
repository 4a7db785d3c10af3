use resizing_vec::{Position, ResizingVec};

#[test]
fn occupancy_invariant_along_operations() {
    let mut rv: ResizingVec<u32> = ResizingVec::new();
    assert!(rv.filled() <= rv.reserved_space());
    rv.insert(7, 70);
    assert!(rv.filled() <= rv.reserved_space());
    rv.insert(2, 20);
    assert!(rv.filled() <= rv.reserved_space());
    rv.remove(7);
    assert!(rv.filled() <= rv.reserved_space());
    let _ = rv.resize();
    assert!(rv.filled() <= rv.reserved_space());
    rv.clear();
    assert!(rv.filled() <= rv.reserved_space());
}

#[test]
fn insert_get_round_trip() {
    let mut rv = ResizingVec::new();
    let prev = rv.insert(3, "three");
    assert_eq!(prev, None);
    assert_eq!(rv.get(3), Some(&"three"));
    assert_eq!(rv.get(0), None);
    assert_eq!(rv.get(2), None);
    assert_eq!(rv.get(4), None);
}

#[test]
fn insert_returns_previous_occupant() {
    let mut rv = ResizingVec::new();
    assert_eq!(rv.insert(1, "old"), None);
    assert_eq!(rv.filled(), 1);
    assert_eq!(rv.insert(1, "new"), Some("old"));
    assert_eq!(rv.filled(), 1);
    assert_eq!(rv.get(1), Some(&"new"));
}

#[test]
fn growth_on_demand() {
    let mut rv = ResizingVec::new();
    assert_eq!(rv.reserved_space(), 0);
    rv.insert(9, 'x');
    assert_eq!(rv.reserved_space(), 10);
    assert_eq!(rv.filled(), 1);
}

#[test]
fn remove_idempotence() {
    let mut rv = ResizingVec::new();
    rv.insert(4, 44u64);

    assert_eq!(rv.remove(100), None);
    assert_eq!(rv.filled(), 1);
    assert_eq!(rv.reserved_space(), 5);

    assert_eq!(rv.remove(2), None);
    assert_eq!(rv.filled(), 1);
    assert_eq!(rv.reserved_space(), 5);

    assert_eq!(rv.remove(4), Some(44));
    assert_eq!(rv.filled(), 0);
    assert_eq!(rv.reserved_space(), 5);

    assert_eq!(rv.remove(4), None);
    assert_eq!(rv.filled(), 0);
    assert_eq!(rv.reserved_space(), 5);
}

#[test]
fn compaction_after_single_insert() {
    let mut rv = ResizingVec::new();
    rv.insert(5, "5th".to_string());
    assert_eq!(rv.reserved_space(), 6);
    assert_eq!(rv.filled(), 1);

    let positions = rv.resize();
    assert_eq!(positions.len(), 1);
    assert_eq!(positions[0], Position { prev_idx: 5, new_idx: 0 });
    assert!(positions[0].changed());

    assert_eq!(rv.reserved_space(), 1);
    assert_eq!(rv.filled(), 1);
    assert_eq!(rv.get(0), Some(&"5th".to_string()));
}

#[test]
fn compaction_preserves_order_and_packs() {
    let mut rv = ResizingVec::new();
    rv.insert(10, "a");
    rv.insert(22, "b");
    rv.insert(44, "c");
    rv.insert(0, "z");

    let before_filled = rv.filled();
    let positions = rv.resize();

    assert_eq!(positions.len(), before_filled);
    for (k, p) in positions.iter().enumerate() {
        assert_eq!(p.new_idx, k);
    }
    assert_eq!(rv.reserved_space(), rv.filled());

    let visited: Vec<(usize, &&str)> = rv.iter();
    let values: Vec<&str> = visited.iter().map(|(_, v)| **v).collect();
    assert_eq!(values, ["z", "a", "b", "c"]);
}

#[test]
fn compaction_of_dense_store_changes_nothing() {
    let mut rv = ResizingVec::from_vec(vec![1, 2, 3]);
    let positions = rv.resize();
    assert_eq!(positions.len(), 3);
    for (k, p) in positions.iter().enumerate() {
        assert_eq!(p.prev_idx, k);
        assert_eq!(p.new_idx, k);
        assert!(!p.changed());
    }
    assert_eq!(rv.reserved_space(), 3);
    assert_eq!(rv.filled(), 3);
}

#[test]
fn clear_resets_fully() {
    let mut rv = ResizingVec::new();
    rv.insert(12, 1u8);
    rv.insert(3, 2u8);
    rv.remove(3);
    let _ = rv.resize();
    rv.insert(30, 3u8);

    rv.clear();

    assert_eq!(rv.reserved_space(), 0);
    assert_eq!(rv.filled(), 0);
    assert!(rv.iter().is_empty());
}

#[test]
fn iter_skips_empty_slots_in_ascending_order() {
    let mut rv = ResizingVec::prefill(8);
    rv.insert(6, "f");
    rv.insert(1, "b");
    rv.insert(4, "d");

    let pairs: Vec<(usize, &&str)> = rv.iter();
    let indexed: Vec<(usize, &str)> = pairs.iter().map(|(i, v)| (*i, **v)).collect();
    assert_eq!(indexed, [(1, "b"), (4, "d"), (6, "f")]);
}

#[test]
fn from_vec_wraps_dense_sequence() {
    let rv = ResizingVec::from_vec(vec!["a", "b", "c"]);
    assert_eq!(rv.reserved_space(), 3);
    assert_eq!(rv.filled(), 3);
    assert_eq!(rv.get(0), Some(&"a"));
    assert_eq!(rv.get(1), Some(&"b"));
    assert_eq!(rv.get(2), Some(&"c"));
    assert_eq!(rv.get(3), None);
}

#[test]
fn get_mut_updates_in_place() {
    let mut rv = ResizingVec::new();
    rv.insert(2, 10u32);

    assert!(rv.get_mut(0).is_none());
    assert!(rv.get_mut(9).is_none());

    if let Some(v) = rv.get_mut(2) {
        *v = 99;
    }
    assert_eq!(rv.get(2), Some(&99));
    assert_eq!(rv.filled(), 1);
}

#[test]
fn position_changed_reports_a_move() {
    let moved = Position { prev_idx: 5, new_idx: 0 };
    assert!(moved.changed());
    let kept = Position { prev_idx: 2, new_idx: 2 };
    assert!(!kept.changed());
}

#[test]
fn prefill_has_only_empty_slots() {
    let rv: ResizingVec<String> = ResizingVec::prefill(4);
    assert_eq!(rv.reserved_space(), 4);
    assert_eq!(rv.filled(), 0);
    for i in 0..4 {
        assert_eq!(rv.get(i), None);
    }
    assert!(rv.iter().is_empty());
}
