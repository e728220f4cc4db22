use vstd::prelude::*;
use vstd::rwlock::RwLock;
use vstd::rwlock::RwLockPredicate;
use crate::keys::VirtualKey;

verus! {

/// A point-in-time snapshot of the pressed keys, safe to hand to a display
/// consumer: the keys in press order, and whether the overlay should
/// currently be visible.
pub struct PressedState {
    pub keys: Vec<VirtualKey>,
    pub should_show_ui: bool,
}

impl PressedState {
    /// No key occurs twice in a snapshot.
    pub open spec fn wf(&self) -> bool {
        self.keys@.no_duplicates()
    }

    /// The snapshot published before any key event: no keys, overlay hidden.
    pub fn new() -> (s: Self)
        ensures
            s.keys@ == Seq::<VirtualKey>::empty(),
            !s.should_show_ui,
            s.wf(),
    {
        PressedState { keys: Vec::new(), should_show_ui: false }
    }
}

impl Clone for PressedState {
    /// An element-wise copy: the clone shows the same keys and the same
    /// visibility flag.
    fn clone(&self) -> (r: Self)
        ensures
            r.keys@ == self.keys@,
            r.should_show_ui == self.should_show_ui,
    {
        let mut keys: Vec<VirtualKey> = Vec::new();
        let mut i: usize = 0;
        while i < self.keys.len()
            invariant
                i <= self.keys@.len(),
                keys@ == self.keys@.take(i as int),
            decreases self.keys@.len() - i,
        {
            keys.push(self.keys[i]);
            proof {
                assert(keys@ =~= self.keys@.take(i + 1 as int));
            }
            i += 1;
        }
        proof {
            assert(self.keys@.take(self.keys@.len() as int) =~= self.keys@);
        }
        PressedState { keys, should_show_ui: self.should_show_ui }
    }
}

/// The condition every published snapshot satisfies while it sits in the
/// lock: it is well-formed.
pub struct SnapshotPred {}

impl RwLockPredicate<PressedState> for SnapshotPred {
    open spec fn inv(self, v: PressedState) -> bool {
        v.wf()
    }
}

/// The shared pressed-state cell: written only by the hook engine, read by
/// any number of concurrent observers.
///
/// A writer replaces the whole snapshot in one locked store and a reader
/// clones the whole snapshot under the same lock, so a reader never observes
/// a state that mixes two different hardware events: there is no operation
/// that mutates a published snapshot in place.
pub struct PressedStatePublisher {
    cell: RwLock<PressedState, SnapshotPred>,
}

impl PressedStatePublisher {
    #[verifier::type_invariant]
    spec fn type_inv(&self) -> bool {
        self.cell.pred() == (SnapshotPred {  })
    }

    /// Starts with the empty snapshot: no keys, overlay hidden.
    pub fn new() -> (p: Self)
    {
        let initial = PressedState::new();
        PressedStatePublisher { cell: RwLock::new(initial, Ghost(SnapshotPred {  })) }
    }

    /// Replaces the published snapshot in a single locked store.
    pub fn publish(&self, snapshot: PressedState)
        requires
            snapshot.wf(),
    {
        proof {
            use_type_invariant(self);
        }
        let (_previous, write_handle) = self.cell.acquire_write();
        write_handle.release_write(snapshot);
    }

    /// Returns a point-in-time clone of the published snapshot; the lock is
    /// released before the clone is handed out, so a reader never holds it
    /// while rendering.
    pub fn read(&self) -> (s: PressedState)
        ensures
            s.wf(),
    {
        proof {
            use_type_invariant(self);
        }
        let read_handle = self.cell.acquire_read();
        let snapshot = read_handle.borrow().clone();
        read_handle.release_read();
        snapshot
    }
}

} // verus!
