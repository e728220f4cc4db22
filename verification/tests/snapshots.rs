use key_binder::keys::VirtualKey;
use key_binder::publisher::{PressedState, PressedStatePublisher};

#[test]
fn publisher_starts_empty_and_hidden() {
    let publisher = PressedStatePublisher::new();
    let s = publisher.read();
    assert!(s.keys.is_empty());
    assert!(!s.should_show_ui);
}

#[test]
fn publish_replaces_the_whole_snapshot() {
    let publisher = PressedStatePublisher::new();
    publisher.publish(PressedState {
        keys: vec![VirtualKey::Ctrl, VirtualKey::KeyC],
        should_show_ui: true,
    });
    let s = publisher.read();
    assert_eq!(s.keys, vec![VirtualKey::Ctrl, VirtualKey::KeyC]);
    assert!(s.should_show_ui);

    publisher.publish(PressedState { keys: Vec::new(), should_show_ui: false });
    let s2 = publisher.read();
    assert!(s2.keys.is_empty());
    assert!(!s2.should_show_ui);
}

#[test]
fn readers_get_clones_not_references() {
    let publisher = PressedStatePublisher::new();
    publisher.publish(PressedState { keys: vec![VirtualKey::KeyA], should_show_ui: true });
    let mut first = publisher.read();
    first.keys.push(VirtualKey::KeyB);
    // Mutating a reader's clone does not leak into the published state.
    let second = publisher.read();
    assert_eq!(second.keys, vec![VirtualKey::KeyA]);
}

#[test]
fn snapshot_clone_is_deep() {
    let s = PressedState { keys: vec![VirtualKey::KeyA], should_show_ui: true };
    let mut c = s.clone();
    c.keys.push(VirtualKey::KeyB);
    assert_eq!(s.keys, vec![VirtualKey::KeyA]);
    assert_eq!(c.keys, vec![VirtualKey::KeyA, VirtualKey::KeyB]);
    assert!(c.should_show_ui);
}
