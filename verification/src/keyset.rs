use vstd::prelude::*;
use crate::keys::VirtualKey;

verus! {

/// An ordered, duplicate-free collection of keys: a chord such as Ctrl+Shift+A.
///
/// The order is the press order (or the configured order), which a display
/// layer may render; matching against another chord is order-insensitive and
/// goes by `key_set()`. Well-formedness (`wf`) says that no key occurs twice.
pub struct VirtualKeySet {
    keys: Vec<VirtualKey>,
}

impl View for VirtualKeySet {
    type V = Seq<VirtualKey>;

    closed spec fn view(&self) -> Seq<VirtualKey> {
        self.keys@
    }
}

/// The order-preserving removal of duplicates: each key keeps its first
/// occurrence and later occurrences are dropped.
pub open spec fn dedup_first(s: Seq<VirtualKey>) -> Seq<VirtualKey>
    decreases s.len(),
{
    if s.len() == 0 {
        Seq::empty()
    } else {
        let rest = dedup_first(s.drop_last());
        if rest.contains(s.last()) {
            rest
        } else {
            rest.push(s.last())
        }
    }
}

/// `dedup_first` keeps exactly the keys of its argument, without duplicates.
pub proof fn lemma_dedup_first(s: Seq<VirtualKey>)
    ensures
        dedup_first(s).no_duplicates(),
        forall|k: VirtualKey| dedup_first(s).contains(k) <==> s.contains(k),
    decreases s.len(),
{
    if s.len() == 0 {
    } else {
        lemma_dedup_first(s.drop_last());
        let rest = dedup_first(s.drop_last());
        assert forall|k: VirtualKey| s.contains(k) implies dedup_first(s).contains(k) by {
            let i = choose|i: int| 0 <= i < s.len() && s[i] == k;
            if i < s.len() - 1 {
                assert(s.drop_last()[i] == k);
                assert(s.drop_last().contains(k));
                assert(rest.contains(k));
                if !rest.contains(s.last()) {
                    let j = choose|j: int| 0 <= j < rest.len() && rest[j] == k;
                    assert(rest.push(s.last())[j] == k);
                }
            } else {
                assert(k == s.last());
                if rest.contains(s.last()) {
                } else {
                    assert(rest.push(s.last())[rest.len() as int] == k);
                }
            }
        }
        assert forall|k: VirtualKey| dedup_first(s).contains(k) implies s.contains(k) by {
            let d = dedup_first(s);
            let j = choose|j: int| 0 <= j < d.len() && d[j] == k;
            if j < rest.len() && rest[j] == k {
                assert(rest.contains(k));
                assert(s.drop_last().contains(k));
                let i = choose|i: int| 0 <= i < s.drop_last().len() && s.drop_last()[i] == k;
                assert(s[i] == k);
                assert(s.contains(k));
            } else {
                assert(k == s.last());
                assert(s[s.len() - 1] == k);
                assert(s.contains(k));
            }
        }
    }
}

impl VirtualKeySet {
    /// No key occurs twice.
    pub open spec fn wf(&self) -> bool {
        self@.no_duplicates()
    }

    /// The chord as an unordered set; matching is order-insensitive.
    pub open spec fn key_set(&self) -> Set<VirtualKey> {
        self@.to_set()
    }

    /// The empty chord.
    pub fn new() -> (s: Self)
        ensures
            s@ == Seq::<VirtualKey>::empty(),
            s.wf(),
    {
        VirtualKeySet { keys: Vec::new() }
    }

    /// Builds a chord from a configured list of keys, keeping the given order
    /// and dropping repeated keys.
    pub fn from_keys(keys: &[VirtualKey]) -> (s: Self)
        ensures
            s@ == dedup_first(keys@),
            s.wf(),
            forall|k: VirtualKey| s@.contains(k) <==> keys@.contains(k),
    {
        proof {
            lemma_dedup_first(keys@);
        }
        let mut s = VirtualKeySet { keys: Vec::new() };
        let mut i: usize = 0;
        while i < keys.len()
            invariant
                i <= keys@.len(),
                s@ == dedup_first(keys@.take(i as int)),
                s.wf(),
            decreases keys@.len() - i,
        {
            proof {
                lemma_dedup_first(keys@.take(i as int));
                lemma_dedup_first(keys@.take(i + 1 as int));
                assert(keys@.take(i + 1 as int).drop_last() =~= keys@.take(i as int));
                assert(keys@.take(i + 1 as int).last() == keys@[i as int]);
            }
            let k = keys[i];
            if !s.contains(k) {
                s.keys.push(k);
            }
            i += 1;
        }
        proof {
            assert(keys@.take(keys@.len() as int) =~= keys@);
        }
        s
    }

    /// Whether `k` is one of the chord's keys.
    pub fn contains(&self, k: VirtualKey) -> (r: bool)
        ensures
            r == self@.contains(k),
    {
        let mut i: usize = 0;
        while i < self.keys.len()
            invariant
                i <= self@.len(),
                forall|j: int| 0 <= j < i ==> self@[j] != k,
            decreases self@.len() - i,
        {
            if self.keys[i] == k {
                return true;
            }
            i += 1;
        }
        false
    }

    /// Appends `k` unless it is already present, so press order is kept and
    /// no duplicate appears.
    pub fn insert(&mut self, k: VirtualKey)
        requires
            old(self).wf(),
        ensures
            final(self).wf(),
            old(self)@.contains(k) ==> final(self)@ == old(self)@,
            !old(self)@.contains(k) ==> final(self)@ == old(self)@.push(k),
            final(self).key_set() == old(self).key_set().insert(k),
    {
        if !self.contains(k) {
            self.keys.push(k);
            proof {
                lemma_push_to_set(old(self)@, k);
            }
        } else {
            proof {
                assert(self.key_set().contains(k));
                assert(self.key_set() =~= self.key_set().insert(k));
            }
        }
    }

    /// The same chord with the `Unknown` sentinel dropped: the keys that may
    /// participate in chord matching.
    pub fn without_unknown(&self) -> (r: VirtualKeySet)
        requires
            self.wf(),
        ensures
            r.wf(),
            r@ == self@.remove_value(VirtualKey::Unknown),
            r.key_set() == self.key_set().remove(VirtualKey::Unknown),
    {
        let mut r = self.clone();
        r.remove(VirtualKey::Unknown);
        r
    }

    /// The chord's keys as a plain vector, in press order.
    pub fn to_vec(&self) -> (r: Vec<VirtualKey>)
        ensures
            r@ == self@,
    {
        let copy = self.clone();
        let VirtualKeySet { keys } = copy;
        keys
    }

    /// Removes `k` if present; on a well-formed chord this drops its only
    /// occurrence and keeps the order of the rest.
    pub fn remove(&mut self, k: VirtualKey)
        requires
            old(self).wf(),
        ensures
            final(self).wf(),
            final(self)@ == old(self)@.remove_value(k),
            final(self).key_set() == old(self).key_set().remove(k),
    {
        let ghost s0 = self@;
        let mut i: usize = 0;
        while i < self.keys.len()
            invariant
                s0 == old(self)@,
                self@ == s0,
                i <= s0.len(),
                forall|j: int| 0 <= j < i ==> s0[j] != k,
                s0.no_duplicates(),
            decreases s0.len() - i,
        {
            if self.keys[i] == k {
                proof {
                    assert(s0[i as int] == k);
                    assert(s0.contains(k));
                    s0.index_of_first_ensures(k);
                    let idx = s0.index_of_first(k)->Some_0;
                    assert(s0[idx] == k);
                    if idx != i {
                        assert(false);
                    }
                }
                self.keys.remove(i);
                proof {
                    assert(self@ =~= s0.remove_value(k));
                    lemma_remove_no_duplicates(s0, i as int);
                    lemma_removed_key_set(s0, k, i as int);
                }
                return;
            }
            i += 1;
        }
        proof {
            assert(s0.index_of_first(k) is None) by {
                s0.index_of_first_ensures(k);
            }
            assert(self@ =~= s0.remove_value(k));
            assert(self.key_set() =~= s0.to_set().remove(k));
        }
    }

    /// How many keys the chord holds.
    pub fn len(&self) -> (n: usize)
        ensures
            n == self@.len(),
    {
        self.keys.len()
    }

    /// Whether the chord holds no key.
    pub fn is_empty(&self) -> (r: bool)
        ensures
            r == (self@.len() == 0),
    {
        self.keys.len() == 0
    }

    /// The key at position `i` in press order.
    pub fn get(&self, i: usize) -> (k: VirtualKey)
        requires
            i < self@.len(),
        ensures
            k == self@[i as int],
    {
        self.keys[i]
    }

    /// Whether every key of this chord also belongs to `other`.
    pub fn is_subset_of(&self, other: &VirtualKeySet) -> (r: bool)
        ensures
            r == self.key_set().subset_of(other.key_set()),
    {
        let mut i: usize = 0;
        while i < self.keys.len()
            invariant
                i <= self@.len(),
                forall|j: int| 0 <= j < i ==> other@.contains(#[trigger] self@[j]),
            decreases self@.len() - i,
        {
            let k = self.keys[i];
            if !other.contains(k) {
                proof {
                    assert(self@[i as int] == k);
                    assert(self@.contains(k));
                    assert(self.key_set().contains(k));
                    assert(!other.key_set().contains(k));
                }
                return false;
            }
            i += 1;
        }
        proof {
            assert forall|x: VirtualKey| self.key_set().contains(x) implies other.key_set()
                .contains(x) by {
                let j = choose|j: int| 0 <= j < self@.len() && self@[j] == x;
                assert(other@.contains(self@[j]));
            }
        }
        true
    }

    /// Order-insensitive chord equality: the two chords hold the same keys.
    pub fn same_keys(&self, other: &VirtualKeySet) -> (r: bool)
        ensures
            r == (self.key_set() == other.key_set()),
    {
        let r = self.is_subset_of(other) && other.is_subset_of(self);
        proof {
            if r {
                assert(self.key_set() =~= other.key_set());
            }
        }
        r
    }
}

impl Clone for VirtualKeySet {
    /// An element-wise copy: the clone holds the same keys in the same order.
    fn clone(&self) -> (r: Self)
        ensures
            r@ == self@,
    {
        let mut keys: Vec<VirtualKey> = Vec::new();
        let mut i: usize = 0;
        while i < self.keys.len()
            invariant
                i <= self@.len(),
                keys@ == self@.take(i as int),
            decreases self@.len() - i,
        {
            keys.push(self.keys[i]);
            proof {
                assert(keys@ =~= self@.take(i + 1 as int));
            }
            i += 1;
        }
        proof {
            assert(self@.take(self@.len() as int) =~= self@);
        }
        VirtualKeySet { keys }
    }
}

/// Appending an element to a sequence adds exactly that element to its set
/// of keys.
pub proof fn lemma_push_to_set(s: Seq<VirtualKey>, k: VirtualKey)
    ensures
        s.push(k).to_set() == s.to_set().insert(k),
{
    assert forall|x: VirtualKey| s.push(k).contains(x) implies s.to_set().insert(k).contains(
        x,
    ) by {
        let i = choose|i: int| 0 <= i < s.push(k).len() && s.push(k)[i] == x;
        if i < s.len() {
            assert(s[i] == x);
        }
    }
    assert forall|x: VirtualKey| s.to_set().insert(k).contains(x) implies s.push(k).contains(
        x,
    ) by {
        if x == k {
            assert(s.push(k)[s.len() as int] == x);
        } else {
            let i = choose|i: int| 0 <= i < s.len() && s[i] == x;
            assert(s.push(k)[i] == x);
        }
    }
    assert(s.push(k).to_set() =~= s.to_set().insert(k));
}

/// Removing an element of a duplicate-free sequence keeps it duplicate-free.
proof fn lemma_remove_no_duplicates(s: Seq<VirtualKey>, i: int)
    requires
        s.no_duplicates(),
        0 <= i < s.len(),
    ensures
        s.remove(i).no_duplicates(),
{
    assert forall|p: int, q: int|
        0 <= p < s.remove(i).len() && 0 <= q < s.remove(i).len() && p != q implies s.remove(i)[p]
        != s.remove(i)[q] by {
        let p0 = if p < i { p } else { p + 1 };
        let q0 = if q < i { q } else { q + 1 };
        assert(s.remove(i)[p] == s[p0]);
        assert(s.remove(i)[q] == s[q0]);
    }
}

/// Removing the only occurrence of `k` from a duplicate-free sequence removes
/// exactly `k` from its set of keys.
proof fn lemma_removed_key_set(s: Seq<VirtualKey>, k: VirtualKey, i: int)
    requires
        s.no_duplicates(),
        0 <= i < s.len(),
        s[i] == k,
    ensures
        s.remove(i).to_set() == s.to_set().remove(k),
{
    assert forall|x: VirtualKey| s.remove(i).contains(x) implies s.to_set().remove(k).contains(
        x,
    ) by {
        let p = choose|p: int| 0 <= p < s.remove(i).len() && s.remove(i)[p] == x;
        let p0 = if p < i { p } else { p + 1 };
        assert(s[p0] == x);
        assert(x != k);
    }
    assert forall|x: VirtualKey| s.to_set().remove(k).contains(x) implies s.remove(i).contains(
        x,
    ) by {
        let p = choose|p: int| 0 <= p < s.len() && s[p] == x;
        if p < i {
            assert(s.remove(i)[p] == x);
        } else {
            assert(p != i);
            assert(s.remove(i)[p - 1] == x);
        }
    }
    assert(s.remove(i).to_set() =~= s.to_set().remove(k));
}

} // verus!
