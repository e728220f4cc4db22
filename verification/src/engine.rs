use vstd::prelude::*;
use crate::keys::{Key, KeyAction, KeyEvent, KeyStatus, VirtualKey, action_of_code,
    action_from_native, from_native, key_of_code};
use crate::keyset::VirtualKeySet;
use crate::publisher::{PressedState, PressedStatePublisher};
use crate::registry::{ChordRegistry, chord_prefix, lookup_spec};

verus! {

/// What the hook tells the OS about one intercepted event: whether the
/// original event is suppressed (consumed at the hook, invisible to the rest
/// of the OS), and which synthetic events to inject in its place.
pub struct Decision {
    pub suppress: bool,
    pub injections: Vec<KeyEvent>,
}

/// The outcome of one engine step, as a mathematical value: the new pressed
/// keys in press order, the new set of keys whose press was withheld, and
/// the decision for the intercepted event.
pub struct EngineStep {
    pub pressed: Seq<VirtualKey>,
    pub suppressed: Set<VirtualKey>,
    pub suppress: bool,
    pub injections: Seq<KeyEvent>,
}

/// The keys of a pressed sequence that may participate in chord matching:
/// everything but the `Unknown` sentinel, as an unordered set.
pub open spec fn known_keys(pressed: Seq<VirtualKey>) -> Set<VirtualKey> {
    pressed.to_set().remove(VirtualKey::Unknown)
}

/// The tap injected for a matched chord: every target key pressed in
/// configured left-to-right order, then released in reverse order, emulating
/// a natural key-up sequence.
pub open spec fn tap_sequence(target: Seq<VirtualKey>) -> Seq<KeyEvent> {
    Seq::new(target.len(), |i: int| KeyEvent { key: target[i], action: KeyAction::Press }) + Seq::new(
        target.len(),
        |i: int| KeyEvent { key: target[target.len() - 1 - i], action: KeyAction::Release },
    )
}

/// The transition function of the hook engine, one intercepted event at a
/// time.
///
/// - Synthetic (self-injected) events and event codes the engine does not
///   interpret change nothing and pass through, so an injected chord can
///   never re-trigger matching.
/// - A genuine press of a key already down (auto-repeat) drives no
///   transition; it is withheld exactly when that key's press was withheld,
///   so a suppressed chord does not leak through auto-repeat.
/// - A genuine press of a new key joins the pressed sequence. An
///   unrecognized key is tracked as `Unknown` but never matches. For a real
///   key, the known pressed keys are looked up in the rule table: on an
///   exact match the event is suppressed and the target chord's tap is
///   injected; when the known keys are a proper subset of a registrable
///   origin the press is withheld (suppressed without injection), so that a
///   chord completed later is suppressed as a whole; otherwise the event
///   passes through.
/// - A genuine release of a key that is down removes it from the pressed
///   sequence and is suppressed exactly when that key's press was withheld.
pub open spec fn step_spec(
    table: Seq<(Seq<VirtualKey>, Seq<VirtualKey>)>,
    pressed: Seq<VirtualKey>,
    suppressed: Set<VirtualKey>,
    code: u32,
    action_code: u32,
    synthetic: bool,
) -> EngineStep {
    let key = key_of_code(code);
    let action = action_of_code(action_code);
    if synthetic || action == KeyAction::Unknown {
        EngineStep { pressed, suppressed, suppress: false, injections: Seq::empty() }
    } else if action == KeyAction::Press {
        if pressed.contains(key) {
            EngineStep {
                pressed,
                suppressed,
                suppress: suppressed.contains(key),
                injections: Seq::empty(),
            }
        } else {
            let new_pressed = pressed.push(key);
            if key == VirtualKey::Unknown {
                EngineStep {
                    pressed: new_pressed,
                    suppressed,
                    suppress: false,
                    injections: Seq::empty(),
                }
            } else {
                let known = known_keys(new_pressed);
                match lookup_spec(table, known) {
                    Some(target) => EngineStep {
                        pressed: new_pressed,
                        suppressed: suppressed.insert(key),
                        suppress: true,
                        injections: tap_sequence(target),
                    },
                    None => {
                        if chord_prefix(table, known) {
                            EngineStep {
                                pressed: new_pressed,
                                suppressed: suppressed.insert(key),
                                suppress: true,
                                injections: Seq::empty(),
                            }
                        } else {
                            EngineStep {
                                pressed: new_pressed,
                                suppressed,
                                suppress: false,
                                injections: Seq::empty(),
                            }
                        }
                    },
                }
            }
        }
    } else {
        if !pressed.contains(key) {
            EngineStep { pressed, suppressed, suppress: false, injections: Seq::empty() }
        } else {
            EngineStep {
                pressed: pressed.remove_value(key),
                suppressed: suppressed.remove(key),
                suppress: suppressed.contains(key),
                injections: Seq::empty(),
            }
        }
    }
}

/// Synthetic events are inert: whatever the engine state, a self-injected
/// event is never suppressed, injects nothing and leaves the state alone, so
/// no injection chain can feed back into the engine.
pub proof fn lemma_synthetic_inert(
    table: Seq<(Seq<VirtualKey>, Seq<VirtualKey>)>,
    pressed: Seq<VirtualKey>,
    suppressed: Set<VirtualKey>,
    code: u32,
    action_code: u32,
)
    ensures
        !step_spec(table, pressed, suppressed, code, action_code, true).suppress,
        step_spec(table, pressed, suppressed, code, action_code, true).injections
            == Seq::<KeyEvent>::empty(),
        step_spec(table, pressed, suppressed, code, action_code, true).pressed == pressed,
        step_spec(table, pressed, suppressed, code, action_code, true).suppressed == suppressed,
{
}

/// A genuine press that completes a registered origin is suppressed, and
/// what is injected is exactly the matched target's tap: its keys pressed
/// left to right, then released right to left.
pub proof fn lemma_match_suppresses_and_taps(
    table: Seq<(Seq<VirtualKey>, Seq<VirtualKey>)>,
    pressed: Seq<VirtualKey>,
    suppressed: Set<VirtualKey>,
    code: u32,
    action_code: u32,
)
    requires
        action_of_code(action_code) == KeyAction::Press,
        key_of_code(code) != VirtualKey::Unknown,
        !pressed.contains(key_of_code(code)),
        lookup_spec(table, known_keys(pressed.push(key_of_code(code)))) is Some,
    ensures
        step_spec(table, pressed, suppressed, code, action_code, false).suppress,
        step_spec(table, pressed, suppressed, code, action_code, false).injections
            == tap_sequence(
            lookup_spec(table, known_keys(pressed.push(key_of_code(code))))->Some_0,
        ),
{
}

/// An unrecognized key is tracked but never matched: it appears in the
/// pressed sequence (and so in the snapshot), yet it leaves the known keys
/// unchanged, so chords among the other pressed keys match exactly as they
/// would without it.
pub proof fn lemma_unknown_does_not_block(pressed: Seq<VirtualKey>)
    ensures
        known_keys(pressed.push(VirtualKey::Unknown)) == known_keys(pressed),
{
    crate::keyset::lemma_push_to_set(pressed, VirtualKey::Unknown);
    assert(known_keys(pressed.push(VirtualKey::Unknown)) =~= known_keys(pressed));
}

/// The hook-engine state machine: the rule table, the keys currently down in
/// press order (with unrecognized keys tracked as `Unknown`), and the keys
/// whose press was withheld from the OS, so that their release is withheld
/// too.
pub struct HookEngine {
    registry: ChordRegistry,
    pressed: VirtualKeySet,
    suppressed: VirtualKeySet,
}

impl HookEngine {
    /// The rule table the engine matches against; fixed at construction.
    pub closed spec fn table(&self) -> Seq<(Seq<VirtualKey>, Seq<VirtualKey>)> {
        self.registry@
    }

    /// The keys currently down, in press order.
    pub closed spec fn pressed_seq(&self) -> Seq<VirtualKey> {
        self.pressed@
    }

    /// The keys whose press was withheld from the OS.
    pub closed spec fn suppressed_set(&self) -> Set<VirtualKey> {
        self.suppressed@.to_set()
    }

    /// The engine's invariant: the rule table and both key collections are
    /// well-formed.
    pub closed spec fn wf(&self) -> bool {
        &&& self.registry.wf()
        &&& self.pressed@.no_duplicates()
        &&& self.suppressed@.no_duplicates()
    }

    /// A fresh engine over a built rule table: nothing pressed, nothing
    /// withheld.
    pub fn new(registry: ChordRegistry) -> (e: Self)
        requires
            registry.wf(),
        ensures
            e.wf(),
            e.table() == registry@,
            e.pressed_seq() == Seq::<VirtualKey>::empty(),
            e.suppressed_set() == Set::<VirtualKey>::empty(),
    {
        let e = HookEngine {
            registry,
            pressed: VirtualKeySet::new(),
            suppressed: VirtualKeySet::new(),
        };
        proof {
            assert(e.suppressed_set() =~= Set::<VirtualKey>::empty());
        }
        e
    }

    /// The snapshot the engine publishes: the pressed keys in press order,
    /// with the overlay visible whenever any key is down.
    pub fn snapshot(&self) -> (s: PressedState)
        requires
            self.wf(),
        ensures
            s.keys@ == self.pressed_seq(),
            s.should_show_ui == (self.pressed_seq().len() != 0),
            s.wf(),
    {
        let keys = self.pressed.to_vec();
        let should_show_ui = !self.pressed.is_empty();
        PressedState { keys, should_show_ui }
    }

    /// Processes one intercepted event, exactly as `step_spec` says: updates
    /// the pressed keys, publishes a whole new snapshot on every key-state
    /// transition, and returns what to do with the event. Synthetic events
    /// pass through untouched.
    pub fn process_event(
        &mut self,
        publisher: &PressedStatePublisher,
        code: u32,
        action_code: u32,
        synthetic: bool,
    ) -> (d: Decision)
        requires
            old(self).wf(),
        ensures
            final(self).wf(),
            final(self).table() == old(self).table(),
            ({
                let st = step_spec(
                    old(self).table(),
                    old(self).pressed_seq(),
                    old(self).suppressed_set(),
                    code,
                    action_code,
                    synthetic,
                );
                &&& final(self).pressed_seq() == st.pressed
                &&& final(self).suppressed_set() == st.suppressed
                &&& d.suppress == st.suppress
                &&& d.injections@ == st.injections
            }),
            synthetic ==> final(self).pressed_seq() == old(self).pressed_seq() && !d.suppress
                && d.injections@.len() == 0,
    {
        let action = action_from_native(action_code);
        if synthetic || action == KeyAction::Unknown {
            return Decision { suppress: false, injections: Vec::new() };
        }
        let key = from_native(code);
        if action == KeyAction::Press {
            if self.pressed.contains(key) {
                let repeat_withheld = self.suppressed.contains(key);
                return Decision { suppress: repeat_withheld, injections: Vec::new() };
            }
            self.pressed.insert(key);
            publisher.publish(self.snapshot());
            if key == VirtualKey::Unknown {
                return Decision { suppress: false, injections: Vec::new() };
            }
            let known = self.pressed.without_unknown();
            match self.registry.lookup(&known) {
                Some(target) => {
                    self.suppressed.insert(key);
                    let injections = build_tap(&target);
                    Decision { suppress: true, injections }
                },
                None => {
                    if self.registry.is_chord_prefix(&known) {
                        self.suppressed.insert(key);
                        Decision { suppress: true, injections: Vec::new() }
                    } else {
                        Decision { suppress: false, injections: Vec::new() }
                    }
                },
            }
        } else {
            if !self.pressed.contains(key) {
                return Decision { suppress: false, injections: Vec::new() };
            }
            let was_suppressed = self.suppressed.contains(key);
            self.pressed.remove(key);
            self.suppressed.remove(key);
            publisher.publish(self.snapshot());
            Decision { suppress: was_suppressed, injections: Vec::new() }
        }
    }
}

/// One key's capability, backed by the state the engine last observed for
/// it: no syscall is made on a query, so the hot path stays cheap.
pub struct EngineKey {
    key: VirtualKey,
    status: KeyStatus,
}

impl Key for EngineKey {
    closed spec fn key_spec(&self) -> VirtualKey {
        self.key
    }

    closed spec fn status_spec(&self) -> KeyStatus {
        self.status
    }

    fn is_pressed(&self) -> (r: bool) {
        self.status == KeyStatus::Pressed
    }

    fn is_released(&self) -> (r: bool) {
        !(self.status == KeyStatus::Pressed)
    }

    fn press(&self) -> (evs: Vec<KeyEvent>) {
        let mut evs: Vec<KeyEvent> = Vec::new();
        evs.push(KeyEvent { key: self.key, action: KeyAction::Press });
        evs.push(KeyEvent { key: self.key, action: KeyAction::Release });
        proof {
            assert(evs@ =~= seq![
                (KeyEvent { key: self.key, action: KeyAction::Press }),
                (KeyEvent { key: self.key, action: KeyAction::Release }),
            ]);
        }
        evs
    }
}

impl HookEngine {
    /// The capability for one key, reflecting its state at the time of the
    /// most recent processed event.
    pub fn key_state(&self, k: VirtualKey) -> (h: EngineKey)
        ensures
            h.key_spec() == k,
            h.status_spec() == (if self.pressed_seq().contains(k) {
                KeyStatus::Pressed
            } else {
                KeyStatus::Released
            }),
    {
        let status = if self.pressed.contains(k) {
            KeyStatus::Pressed
        } else {
            KeyStatus::Released
        };
        EngineKey { key: k, status }
    }
}

/// Builds the tap for a matched target chord: presses left to right, then
/// releases right to left.
fn build_tap(target: &VirtualKeySet) -> (evs: Vec<KeyEvent>)
    ensures
        evs@ == tap_sequence(target@),
{
    let n = target.len();
    let mut evs: Vec<KeyEvent> = Vec::new();
    let mut i: usize = 0;
    while i < n
        invariant
            n == target@.len(),
            i <= n,
            evs@.len() == i,
            forall|j: int|
                0 <= j < i ==> evs@[j] == (KeyEvent {
                    key: target@[j],
                    action: KeyAction::Press,
                }),
        decreases n - i,
    {
        evs.push(KeyEvent { key: target.get(i), action: KeyAction::Press });
        i += 1;
    }
    let mut r: usize = 0;
    while r < n
        invariant
            n == target@.len(),
            r <= n,
            evs@.len() == n + r,
            forall|j: int|
                0 <= j < n ==> evs@[j] == (KeyEvent {
                    key: target@[j],
                    action: KeyAction::Press,
                }),
            forall|j: int|
                0 <= j < r ==> #[trigger] evs@[n + j] == (KeyEvent {
                    key: target@[n - 1 - j],
                    action: KeyAction::Release,
                }),
        decreases n - r,
    {
        evs.push(KeyEvent { key: target.get(n - 1 - r), action: KeyAction::Release });
        r += 1;
    }
    proof {
        assert forall|idx: int| 0 <= idx < evs@.len() implies evs@[idx] == tap_sequence(
            target@,
        )[idx] by {
            if n <= idx {
                assert(evs@[n + (idx - n)] == (KeyEvent {
                    key: target@[n - 1 - (idx - n)],
                    action: KeyAction::Release,
                }));
            }
        }
        assert(evs@ =~= tap_sequence(target@));
    }
    evs
}

} // verus!
