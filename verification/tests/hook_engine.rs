use key_binder::engine::{Decision, HookEngine};
use key_binder::keys::{Key, KeyAction, KeyEvent, VirtualKey};
use key_binder::keyset::VirtualKeySet;
use key_binder::publisher::PressedStatePublisher;
use key_binder::registry::ChordRegistry;

const PRESS: u32 = 0x100;
const RELEASE: u32 = 0x101;

const CTRL: u32 = 0x11;
const ALT: u32 = 0x12;
const KEY_4: u32 = 0x34;
const KEY_A: u32 = 0x41;
const KEY_C: u32 = 0x43;
const UNRECOGNIZED: u32 = 0x07;

fn chord(keys: &[VirtualKey]) -> VirtualKeySet {
    VirtualKeySet::from_keys(keys)
}

/// An engine with the single rule {Ctrl, C} -> {Alt, 4}.
fn ctrl_c_engine() -> HookEngine {
    let mut reg = ChordRegistry::new();
    reg.register(
        chord(&[VirtualKey::Ctrl, VirtualKey::KeyC]),
        chord(&[VirtualKey::Alt, VirtualKey::Key4]),
    );
    HookEngine::new(reg)
}

fn ev(key: VirtualKey, action: KeyAction) -> KeyEvent {
    KeyEvent { key, action }
}

#[test]
fn matched_chord_is_suppressed_and_tap_injected() {
    let publisher = PressedStatePublisher::new();
    let mut engine = ctrl_c_engine();

    // Pressing Ctrl begins the chord: withheld, nothing injected yet.
    let d1 = engine.process_event(&publisher, CTRL, PRESS, false);
    assert!(d1.suppress);
    assert!(d1.injections.is_empty());
    assert_eq!(publisher.read().keys, vec![VirtualKey::Ctrl]);

    // Pressing C completes the chord: suppressed, and the target chord is
    // tapped: presses left to right, releases right to left.
    let d2 = engine.process_event(&publisher, KEY_C, PRESS, false);
    assert!(d2.suppress);
    assert_eq!(
        d2.injections,
        vec![
            ev(VirtualKey::Alt, KeyAction::Press),
            ev(VirtualKey::Key4, KeyAction::Press),
            ev(VirtualKey::Key4, KeyAction::Release),
            ev(VirtualKey::Alt, KeyAction::Release),
        ]
    );
    assert_eq!(publisher.read().keys, vec![VirtualKey::Ctrl, VirtualKey::KeyC]);

    // The releases of the withheld origin keys are suppressed too.
    let d3 = engine.process_event(&publisher, KEY_C, RELEASE, false);
    assert!(d3.suppress);
    assert!(d3.injections.is_empty());
    let d4 = engine.process_event(&publisher, CTRL, RELEASE, false);
    assert!(d4.suppress);
    assert!(d4.injections.is_empty());
    let last = publisher.read();
    assert!(last.keys.is_empty());
    assert!(!last.should_show_ui);
}

#[test]
fn synthetic_events_never_retrigger_matching() {
    let publisher = PressedStatePublisher::new();
    let mut engine = ctrl_c_engine();

    engine.process_event(&publisher, CTRL, PRESS, false);
    let d = engine.process_event(&publisher, KEY_C, PRESS, false);
    assert!(!d.injections.is_empty());
    let before = publisher.read();

    // Replay every injected event as the OS would deliver it back to the
    // hook, tagged synthetic: nothing is suppressed, nothing more is
    // injected, and the pressed-state snapshot does not move.
    for injected in &d.injections {
        let action_code = match injected.action {
            KeyAction::Press => PRESS,
            _ => RELEASE,
        };
        let key_code = match injected.key {
            VirtualKey::Alt => ALT,
            _ => KEY_4,
        };
        let replay = engine.process_event(&publisher, key_code, action_code, true);
        assert!(!replay.suppress);
        assert!(replay.injections.is_empty());
    }
    let after = publisher.read();
    assert_eq!(before.keys, after.keys);
    assert_eq!(before.should_show_ui, after.should_show_ui);
}

#[test]
fn synthetic_press_of_an_origin_key_is_inert() {
    let publisher = PressedStatePublisher::new();
    let mut engine = ctrl_c_engine();

    // Even a synthetic press of a configured origin key drives no state
    // transition and no injection.
    let d = engine.process_event(&publisher, CTRL, PRESS, true);
    assert!(!d.suppress);
    assert!(d.injections.is_empty());
    assert!(publisher.read().keys.is_empty());
}

#[test]
fn unmatched_key_passes_through_with_snapshot_transitions() {
    let publisher = PressedStatePublisher::new();
    let mut engine = ctrl_c_engine();
    assert!(publisher.read().keys.is_empty());

    let d1 = engine.process_event(&publisher, KEY_A, PRESS, false);
    assert!(!d1.suppress);
    assert!(d1.injections.is_empty());
    let mid = publisher.read();
    assert_eq!(mid.keys, vec![VirtualKey::KeyA]);
    assert!(mid.should_show_ui);

    let d2 = engine.process_event(&publisher, KEY_A, RELEASE, false);
    assert!(!d2.suppress);
    assert!(d2.injections.is_empty());
    let last = publisher.read();
    assert!(last.keys.is_empty());
    assert!(!last.should_show_ui);
}

#[test]
fn unrecognized_code_is_tracked_but_does_not_block_matching() {
    let publisher = PressedStatePublisher::new();
    let mut engine = ctrl_c_engine();

    engine.process_event(&publisher, CTRL, PRESS, false);
    let d_unknown = engine.process_event(&publisher, UNRECOGNIZED, PRESS, false);
    assert!(!d_unknown.suppress);
    assert!(d_unknown.injections.is_empty());
    assert_eq!(
        publisher.read().keys,
        vec![VirtualKey::Ctrl, VirtualKey::Unknown]
    );

    // The unknown key is in the snapshot but not in the match set, so the
    // chord still completes.
    let d = engine.process_event(&publisher, KEY_C, PRESS, false);
    assert!(d.suppress);
    assert_eq!(d.injections.len(), 4);
}

#[test]
fn auto_repeat_and_stray_release_pass_through() {
    let publisher = PressedStatePublisher::new();
    let mut engine = ctrl_c_engine();

    engine.process_event(&publisher, KEY_A, PRESS, false);
    // A repeated press of a held key is not a transition.
    let repeat = engine.process_event(&publisher, KEY_A, PRESS, false);
    assert!(!repeat.suppress);
    assert!(repeat.injections.is_empty());
    assert_eq!(publisher.read().keys, vec![VirtualKey::KeyA]);

    // A release of a key that is not down is not a transition.
    let stray = engine.process_event(&publisher, KEY_C, RELEASE, false);
    assert!(!stray.suppress);
    assert!(stray.injections.is_empty());
    assert_eq!(publisher.read().keys, vec![VirtualKey::KeyA]);
}

#[test]
fn auto_repeat_of_a_withheld_key_is_withheld() {
    let publisher = PressedStatePublisher::new();
    let mut engine = ctrl_c_engine();

    let first = engine.process_event(&publisher, CTRL, PRESS, false);
    assert!(first.suppress);
    // The OS keeps delivering press events while the key is held; none of
    // them may leak a withheld key through to the rest of the OS.
    let repeat = engine.process_event(&publisher, CTRL, PRESS, false);
    assert!(repeat.suppress);
    assert!(repeat.injections.is_empty());
    assert_eq!(publisher.read().keys, vec![VirtualKey::Ctrl]);
}

#[test]
fn uninterpreted_event_codes_pass_through() {
    let publisher = PressedStatePublisher::new();
    let mut engine = ctrl_c_engine();
    let d = engine.process_event(&publisher, KEY_A, 0x200, false);
    assert!(!d.suppress);
    assert!(d.injections.is_empty());
    assert!(publisher.read().keys.is_empty());
}

#[test]
fn key_capability_reflects_last_observed_state() {
    let publisher = PressedStatePublisher::new();
    let mut engine = ctrl_c_engine();

    let a_before = engine.key_state(VirtualKey::KeyA);
    assert!(!a_before.is_pressed());
    assert!(a_before.is_released());

    engine.process_event(&publisher, KEY_A, PRESS, false);
    let a_down = engine.key_state(VirtualKey::KeyA);
    assert!(a_down.is_pressed());
    assert!(!a_down.is_released());

    let tap = a_down.press();
    assert_eq!(
        tap,
        vec![
            ev(VirtualKey::KeyA, KeyAction::Press),
            ev(VirtualKey::KeyA, KeyAction::Release),
        ]
    );
}

#[test]
fn withheld_prefix_that_never_completes_is_dropped() {
    let publisher = PressedStatePublisher::new();
    let mut engine = ctrl_c_engine();

    // Ctrl alone is the beginning of a configured chord, so it is withheld;
    // a key that can no longer complete any chord passes through.
    let d1 = engine.process_event(&publisher, CTRL, PRESS, false);
    assert!(d1.suppress);
    let d2 = engine.process_event(&publisher, KEY_A, PRESS, false);
    assert!(!d2.suppress);
    assert!(d2.injections.is_empty());
    assert_eq!(publisher.read().keys, vec![VirtualKey::Ctrl, VirtualKey::KeyA]);

    // Releasing the withheld key is suppressed; releasing the passed-through
    // key is not.
    let d3 = engine.process_event(&publisher, CTRL, RELEASE, false);
    assert!(d3.suppress);
    let d4 = engine.process_event(&publisher, KEY_A, RELEASE, false);
    assert!(!d4.suppress);
}

#[test]
fn single_key_origin_matches_immediately() {
    let publisher = PressedStatePublisher::new();
    let mut reg = ChordRegistry::new();
    reg.register(
        chord(&[VirtualKey::CapsLock]),
        chord(&[VirtualKey::Esc]),
    );
    let mut engine = HookEngine::new(reg);

    let d = engine.process_event(&publisher, 0x14, PRESS, false);
    assert!(d.suppress);
    assert_eq!(
        d.injections,
        vec![
            ev(VirtualKey::Esc, KeyAction::Press),
            ev(VirtualKey::Esc, KeyAction::Release),
        ]
    );
}

#[test]
fn decision_fields_are_plain_data() {
    let d = Decision { suppress: true, injections: vec![ev(VirtualKey::KeyZ, KeyAction::Press)] };
    assert!(d.suppress);
    assert_eq!(d.injections[0].key, VirtualKey::KeyZ);
}
