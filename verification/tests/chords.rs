use key_binder::keys::VirtualKey;
use key_binder::keyset::VirtualKeySet;
use key_binder::registry::{init_key_mappings, ChordRegistry};

fn chord(keys: &[VirtualKey]) -> VirtualKeySet {
    VirtualKeySet::from_keys(keys)
}

fn keys_of(s: &VirtualKeySet) -> Vec<VirtualKey> {
    s.to_vec()
}

#[test]
fn from_keys_drops_duplicates_and_keeps_order() {
    let s = chord(&[VirtualKey::Ctrl, VirtualKey::KeyC, VirtualKey::Ctrl, VirtualKey::KeyC]);
    assert_eq!(keys_of(&s), vec![VirtualKey::Ctrl, VirtualKey::KeyC]);
    assert_eq!(s.len(), 2);
    assert!(s.contains(VirtualKey::Ctrl));
    assert!(s.contains(VirtualKey::KeyC));
    assert!(!s.contains(VirtualKey::KeyA));
}

#[test]
fn insert_and_remove_keep_press_order() {
    let mut s = VirtualKeySet::new();
    assert!(s.is_empty());
    s.insert(VirtualKey::Ctrl);
    s.insert(VirtualKey::KeyC);
    s.insert(VirtualKey::Ctrl);
    assert_eq!(keys_of(&s), vec![VirtualKey::Ctrl, VirtualKey::KeyC]);
    s.remove(VirtualKey::Ctrl);
    assert_eq!(keys_of(&s), vec![VirtualKey::KeyC]);
    s.remove(VirtualKey::KeyA);
    assert_eq!(keys_of(&s), vec![VirtualKey::KeyC]);
}

#[test]
fn chord_equality_is_order_insensitive() {
    let a = chord(&[VirtualKey::Ctrl, VirtualKey::KeyC]);
    let b = chord(&[VirtualKey::KeyC, VirtualKey::Ctrl]);
    let c = chord(&[VirtualKey::Ctrl, VirtualKey::Shift, VirtualKey::KeyC]);
    assert!(a.same_keys(&b));
    assert!(b.same_keys(&a));
    assert!(!a.same_keys(&c));
    assert!(a.is_subset_of(&c));
    assert!(!c.is_subset_of(&a));
}

#[test]
fn lookup_matches_exact_set_only() {
    let mut reg = ChordRegistry::new();
    reg.register(
        chord(&[VirtualKey::Ctrl, VirtualKey::KeyC]),
        chord(&[VirtualKey::KeyX]),
    );
    // Exact match, in either order.
    assert!(reg.lookup(&chord(&[VirtualKey::Ctrl, VirtualKey::KeyC])).is_some());
    assert!(reg.lookup(&chord(&[VirtualKey::KeyC, VirtualKey::Ctrl])).is_some());
    // A superset of the origin must not match.
    assert!(reg.lookup(&chord(&[VirtualKey::Ctrl, VirtualKey::Shift, VirtualKey::KeyC]))
        .is_none());
    // A subset of the origin must not match.
    assert!(reg.lookup(&chord(&[VirtualKey::Ctrl])).is_none());
    // An unrelated set must not match.
    assert!(reg.lookup(&chord(&[VirtualKey::KeyA])).is_none());
    // The empty table matches nothing.
    let empty = ChordRegistry::new();
    assert!(empty.lookup(&chord(&[VirtualKey::Ctrl, VirtualKey::KeyC])).is_none());
}

#[test]
fn last_registration_wins() {
    let mut reg = ChordRegistry::new();
    reg.register(
        chord(&[VirtualKey::Ctrl, VirtualKey::KeyC]),
        chord(&[VirtualKey::KeyX]),
    );
    reg.register(
        chord(&[VirtualKey::Ctrl, VirtualKey::KeyC]),
        chord(&[VirtualKey::KeyY]),
    );
    let target = reg.lookup(&chord(&[VirtualKey::Ctrl, VirtualKey::KeyC])).unwrap();
    assert_eq!(keys_of(&target), vec![VirtualKey::KeyY]);
}

#[test]
fn origin_with_unknown_never_matches() {
    let mut reg = ChordRegistry::new();
    reg.register(
        chord(&[VirtualKey::Ctrl, VirtualKey::Unknown]),
        chord(&[VirtualKey::KeyX]),
    );
    assert!(reg.lookup(&chord(&[VirtualKey::Ctrl, VirtualKey::Unknown])).is_none());
}

#[test]
fn init_key_mappings_registers_in_order() {
    let rules = vec![
        (
            chord(&[VirtualKey::Ctrl, VirtualKey::KeyC]),
            chord(&[VirtualKey::KeyX]),
        ),
        (
            chord(&[VirtualKey::Ctrl, VirtualKey::KeyC]),
            chord(&[VirtualKey::KeyY]),
        ),
        (
            chord(&[VirtualKey::Alt]),
            chord(&[VirtualKey::Space]),
        ),
    ];
    let reg = init_key_mappings(&rules);
    assert_eq!(reg.len(), 3);
    let target = reg.lookup(&chord(&[VirtualKey::Ctrl, VirtualKey::KeyC])).unwrap();
    assert_eq!(keys_of(&target), vec![VirtualKey::KeyY]);
    let target2 = reg.lookup(&chord(&[VirtualKey::Alt])).unwrap();
    assert_eq!(keys_of(&target2), vec![VirtualKey::Space]);
}

#[test]
fn chord_prefix_detection() {
    let mut reg = ChordRegistry::new();
    reg.register(
        chord(&[VirtualKey::Ctrl, VirtualKey::KeyC]),
        chord(&[VirtualKey::KeyX]),
    );
    assert!(reg.is_chord_prefix(&chord(&[VirtualKey::Ctrl])));
    assert!(reg.is_chord_prefix(&VirtualKeySet::new()));
    assert!(!reg.is_chord_prefix(&chord(&[VirtualKey::Ctrl, VirtualKey::KeyC])));
    assert!(!reg.is_chord_prefix(&chord(&[VirtualKey::KeyA])));
}
