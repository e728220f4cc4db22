use vstd::prelude::*;
use crate::keys::VirtualKey;
use crate::keyset::VirtualKeySet;

verus! {

/// One remap rule: when the pressed keys are exactly the origin chord, the
/// target chord is injected in its place.
pub struct ChordEntry {
    pub origin: VirtualKeySet,
    pub target: VirtualKeySet,
}

/// The table of remap rules, built once from configuration and read-only
/// afterwards. Rules are kept in registration order; a later rule for the
/// same origin overrides an earlier one ("last wins").
pub struct ChordRegistry {
    entries: Vec<ChordEntry>,
}

impl View for ChordRegistry {
    type V = Seq<(Seq<VirtualKey>, Seq<VirtualKey>)>;

    closed spec fn view(&self) -> Seq<(Seq<VirtualKey>, Seq<VirtualKey>)> {
        self.entries@.map_values(|e: ChordEntry| (e.origin@, e.target@))
    }
}

/// Whether a registered origin matches the pressed keys: the match is an
/// exact set equality (no subset or superset matching), and an origin that
/// holds `Unknown` can never match.
pub open spec fn entry_matches(origin: Seq<VirtualKey>, pressed: Set<VirtualKey>) -> bool {
    &&& !origin.contains(VirtualKey::Unknown)
    &&& origin.to_set() == pressed
}

/// What a lookup over a rule table yields for a pressed set: the target of
/// the latest registered rule whose origin matches, if any.
pub open spec fn lookup_spec(
    entries: Seq<(Seq<VirtualKey>, Seq<VirtualKey>)>,
    pressed: Set<VirtualKey>,
) -> Option<Seq<VirtualKey>>
    decreases entries.len(),
{
    if entries.len() == 0 {
        None
    } else if entry_matches(entries.last().0, pressed) {
        Some(entries.last().1)
    } else {
        lookup_spec(entries.drop_last(), pressed)
    }
}

/// Whether the pressed set is a proper subset of some registered origin that
/// could still match: the beginning of a chord the user may be completing.
pub open spec fn chord_prefix(
    entries: Seq<(Seq<VirtualKey>, Seq<VirtualKey>)>,
    pressed: Set<VirtualKey>,
) -> bool {
    exists|i: int|
        0 <= i < entries.len() && !(#[trigger] entries[i]).0.contains(VirtualKey::Unknown)
            && pressed.subset_of(entries[i].0.to_set()) && pressed != entries[i].0.to_set()
}

impl ChordRegistry {
    /// Every registered chord is well-formed (duplicate-free).
    pub open spec fn wf(&self) -> bool {
        forall|i: int|
            0 <= i < self@.len() ==> (#[trigger] self@[i]).0.no_duplicates()
                && self@[i].1.no_duplicates()
    }

    /// An empty table.
    pub fn new() -> (reg: Self)
        ensures
            reg@ == Seq::<(Seq<VirtualKey>, Seq<VirtualKey>)>::empty(),
            reg.wf(),
    {
        let reg = ChordRegistry { entries: Vec::new() };
        proof {
            assert(reg@ =~= Seq::<(Seq<VirtualKey>, Seq<VirtualKey>)>::empty());
        }
        reg
    }

    /// How many rules are registered.
    pub fn len(&self) -> (n: usize)
        ensures
            n == self@.len(),
    {
        self.entries.len()
    }

    /// Appends a rule. A rule registered later takes precedence over an
    /// earlier rule with the same origin.
    pub fn register(&mut self, origin: VirtualKeySet, target: VirtualKeySet)
        requires
            old(self).wf(),
            origin.wf(),
            target.wf(),
        ensures
            final(self).wf(),
            final(self)@ == old(self)@.push((origin@, target@)),
    {
        let ghost v0 = self@;
        self.entries.push(ChordEntry { origin, target });
        proof {
            assert(self@ =~= v0.push((origin@, target@)));
        }
    }

    /// Finds the target for the pressed keys: the latest registered rule
    /// whose origin is set-equal to `pressed` wins; an origin that holds
    /// `Unknown` never matches. `None` when no origin matches exactly.
    pub fn lookup(&self, pressed: &VirtualKeySet) -> (r: Option<VirtualKeySet>)
        requires
            self.wf(),
        ensures
            match r {
                Some(t) => t.wf() && lookup_spec(self@, pressed.key_set()) == Some(t@),
                None => lookup_spec(self@, pressed.key_set()) is None,
            },
    {
        let mut i: usize = self.entries.len();
        proof {
            assert(self@.take(i as int) =~= self@);
        }
        while i > 0
            invariant
                self.wf(),
                i <= self@.len(),
                lookup_spec(self@, pressed.key_set()) == lookup_spec(
                    self@.take(i as int),
                    pressed.key_set(),
                ),
            decreases i,
        {
            i -= 1;
            let e = &self.entries[i];
            proof {
                assert(self@[i as int] == (e.origin@, e.target@));
                assert(self@.take(i + 1 as int).last() == self@[i as int]);
                assert(self@.take(i + 1 as int).drop_last() =~= self@.take(i as int));
            }
            if !e.origin.contains(VirtualKey::Unknown) && e.origin.same_keys(pressed) {
                let t = e.target.clone();
                return Some(t);
            }
        }
        proof {
            assert(self@.take(0) =~= Seq::<(Seq<VirtualKey>, Seq<VirtualKey>)>::empty());
        }
        None
    }

    /// Whether the pressed keys are a proper subset of some origin that
    /// could still match: the engine withholds such presses so that the
    /// completed chord can be suppressed as a whole.
    pub fn is_chord_prefix(&self, pressed: &VirtualKeySet) -> (r: bool)
        ensures
            r == chord_prefix(self@, pressed.key_set()),
    {
        let mut i: usize = 0;
        while i < self.entries.len()
            invariant
                i <= self@.len(),
                forall|j: int|
                    0 <= j < i ==> !(!(#[trigger] self@[j]).0.contains(VirtualKey::Unknown)
                        && pressed.key_set().subset_of(self@[j].0.to_set()) && pressed.key_set()
                        != self@[j].0.to_set()),
            decreases self@.len() - i,
        {
            let e = &self.entries[i];
            proof {
                assert(self@[i as int] == (e.origin@, e.target@));
            }
            if !e.origin.contains(VirtualKey::Unknown) && pressed.is_subset_of(&e.origin)
                && !e.origin.is_subset_of(pressed) {
                proof {
                    assert(pressed.key_set() != e.origin.key_set());
                }
                return true;
            }
            proof {
                if pressed.key_set().subset_of(e.origin.key_set()) && pressed.key_set()
                    != e.origin.key_set() {
                    if !e.origin.key_set().subset_of(pressed.key_set()) {
                    } else {
                        assert(pressed.key_set() =~= e.origin.key_set());
                    }
                }
            }
            i += 1;
        }
        false
    }
}

/// The exact-match law: a lookup yields a target precisely when some
/// registered origin is set-equal to the pressed keys (and holds no
/// `Unknown`); a pressed set that only includes or only overlaps an origin
/// never matches.
pub proof fn lemma_lookup_exact(
    entries: Seq<(Seq<VirtualKey>, Seq<VirtualKey>)>,
    pressed: Set<VirtualKey>,
)
    ensures
        (lookup_spec(entries, pressed) is Some) <==> exists|i: int|
            0 <= i < entries.len() && entry_matches((#[trigger] entries[i]).0, pressed),
    decreases entries.len(),
{
    if entries.len() == 0 {
    } else if entry_matches(entries.last().0, pressed) {
        assert(entries[entries.len() - 1] == entries.last());
    } else {
        lemma_lookup_exact(entries.drop_last(), pressed);
        if lookup_spec(entries, pressed) is Some {
            let i = choose|i: int|
                0 <= i < entries.drop_last().len() && entry_matches(
                    (#[trigger] entries.drop_last()[i]).0,
                    pressed,
                );
            assert(entries[i] == entries.drop_last()[i]);
        }
        if exists|i: int|
            0 <= i < entries.len() && entry_matches((#[trigger] entries[i]).0, pressed) {
            let i = choose|i: int|
                0 <= i < entries.len() && entry_matches((#[trigger] entries[i]).0, pressed);
            if i < entries.len() - 1 {
                assert(entries.drop_last()[i] == entries[i]);
            }
        }
    }
}

/// The last-registration-wins law: after registering a rule for an origin
/// and then a second rule for the same origin, a lookup of a pressed set
/// that matches the origin yields the second target.
pub proof fn lemma_last_registration_wins(
    entries: Seq<(Seq<VirtualKey>, Seq<VirtualKey>)>,
    origin: Seq<VirtualKey>,
    first_target: Seq<VirtualKey>,
    second_target: Seq<VirtualKey>,
    pressed: Set<VirtualKey>,
)
    requires
        entry_matches(origin, pressed),
    ensures
        lookup_spec(
            entries.push((origin, first_target)).push((origin, second_target)),
            pressed,
        ) == Some(second_target),
{
    assert(entries.push((origin, first_target)).push((origin, second_target)).last() == (
    origin,
    second_target,
    ));
}

/// Builds the chord registry from the configured remap rules, registering
/// them in order, so that a later rule for the same origin wins.
pub fn init_key_mappings(rules: &Vec<(VirtualKeySet, VirtualKeySet)>) -> (reg: ChordRegistry)
    requires
        forall|i: int|
            0 <= i < rules@.len() ==> (#[trigger] rules@[i]).0.wf() && rules@[i].1.wf(),
    ensures
        reg.wf(),
        reg@ == rules@.map_values(|r: (VirtualKeySet, VirtualKeySet)| (r.0@, r.1@)),
{
    let mut reg = ChordRegistry::new();
    let mut i: usize = 0;
    while i < rules.len()
        invariant
            forall|j: int|
                0 <= j < rules@.len() ==> (#[trigger] rules@[j]).0.wf() && rules@[j].1.wf(),
            i <= rules@.len(),
            reg.wf(),
            reg@ == rules@.take(i as int).map_values(
                |r: (VirtualKeySet, VirtualKeySet)| (r.0@, r.1@),
            ),
        decreases rules@.len() - i,
    {
        let origin = rules[i].0.clone();
        let target = rules[i].1.clone();
        reg.register(origin, target);
        proof {
            assert(reg@ =~= rules@.take(i + 1 as int).map_values(
                |r: (VirtualKeySet, VirtualKeySet)| (r.0@, r.1@),
            ));
        }
        i += 1;
    }
    proof {
        assert(rules@.take(rules@.len() as int) =~= rules@);
    }
    reg
}

} // verus!
