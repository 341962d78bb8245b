use vstd::prelude::*;
use crate::model::ErrorKind;

verus! {

/// A claim on one connection slot of a `Pool`, held for the span of one
/// store operation.
pub struct ConnHandle {
    slot: usize,
}

impl ConnHandle {
    /// The slot this handle claims.
    pub closed spec fn spec_slot(&self) -> usize {
        self.slot
    }

    /// The slot this handle claims.
    pub fn slot(&self) -> (r: usize)
        ensures
            r == self.spec_slot(),
    {
        self.slot
    }
}

/// A fixed-size set of reusable connection slots. Each slot is either free or
/// handed out to exactly one operation; the size never changes after
/// construction.
pub struct Pool {
    busy: Vec<bool>,
    reachable: bool,
}

impl Pool {
    /// Which slots are handed out, by slot index.
    pub closed spec fn busy(&self) -> Seq<bool> {
        self.busy@
    }

    /// Whether the backing store is currently considered reachable.
    pub closed spec fn spec_reachable(&self) -> bool {
        self.reachable
    }

    /// Whether some slot is free.
    pub open spec fn has_free(&self) -> bool {
        exists|i: int| 0 <= i < self.busy().len() && !#[trigger] self.busy()[i]
    }

    /// What `acquire` fails with on this pool, if it fails.
    pub open spec fn acquire_error(&self) -> Option<ErrorKind> {
        if !self.spec_reachable() {
            Some(ErrorKind::ConnectionError)
        } else if !self.has_free() {
            Some(ErrorKind::PoolExhausted)
        } else {
            None
        }
    }

    /// A pool of `size` free slots whose backing store is reachable.
    pub fn new(size: usize) -> (r: Pool)
        ensures
            r.busy() == Seq::new(size as nat, |i: int| false),
            r.spec_reachable(),
    {
        let mut busy: Vec<bool> = Vec::new();
        let mut i: usize = 0;
        while i < size
            invariant
                i <= size,
                busy@ == Seq::new(i as nat, |j: int| false),
            decreases size - i,
        {
            busy.push(false);
            i = i + 1;
            assert(busy@ =~= Seq::new(i as nat, |j: int| false));
        }
        Pool { busy, reachable: true }
    }

    /// The number of slots.
    pub fn size(&self) -> (r: usize)
        ensures
            r == self.busy().len(),
    {
        self.busy.len()
    }

    /// Whether the backing store is currently considered reachable.
    pub fn is_reachable(&self) -> (r: bool)
        ensures
            r == self.spec_reachable(),
    {
        self.reachable
    }

    /// Records whether the backing store can be reached; slots are unaffected.
    pub fn set_reachable(&mut self, reachable: bool)
        ensures
            final(self).busy() == old(self).busy(),
            final(self).spec_reachable() == reachable,
    {
        self.reachable = reachable;
    }

    /// Whether some slot is free.
    pub fn available(&self) -> (r: bool)
        ensures
            r == self.has_free(),
    {
        let mut i: usize = 0;
        while i < self.busy.len()
            invariant
                i <= self.busy@.len(),
                forall|j: int| 0 <= j < i ==> self.busy@[j],
            decreases self.busy@.len() - i,
        {
            if !self.busy[i] {
                assert(!self.busy()[i as int]);
                return true;
            }
            i = i + 1;
        }
        false
    }

    /// Hands out the lowest free slot. Fails with `ConnectionError` when the
    /// backing store is unreachable and with `PoolExhausted` when every slot
    /// is taken; a failed attempt changes nothing.
    pub fn acquire(&mut self) -> (r: Result<ConnHandle, ErrorKind>)
        ensures
            final(self).spec_reachable() == old(self).spec_reachable(),
            match r {
                Ok(h) => {
                    &&& old(self).acquire_error().is_none()
                    &&& h.spec_slot() < old(self).busy().len()
                    &&& !old(self).busy()[h.spec_slot() as int]
                    &&& forall|j: int| 0 <= j < h.spec_slot() ==> old(self).busy()[j]
                    &&& final(self).busy() == old(self).busy().update(h.spec_slot() as int, true)
                },
                Err(e) => {
                    &&& old(self).acquire_error() == Some(e)
                    &&& final(self).busy() == old(self).busy()
                },
            },
    {
        if !self.reachable {
            return Err(ErrorKind::ConnectionError);
        }
        let mut i: usize = 0;
        while i < self.busy.len()
            invariant
                i <= self.busy@.len(),
                self.reachable,
                self.busy@ == old(self).busy@,
                self.reachable == old(self).reachable,
                forall|j: int| 0 <= j < i ==> self.busy@[j],
            decreases self.busy@.len() - i,
        {
            if !self.busy[i] {
                assert(!self.busy()[i as int]);
                self.busy.set(i, true);
                return Ok(ConnHandle { slot: i });
            }
            i = i + 1;
        }
        Err(ErrorKind::PoolExhausted)
    }

    /// Returns a handle's slot to the pool, whatever became of the operation
    /// that held it. A handle whose slot this pool does not have changes
    /// nothing.
    pub fn release(&mut self, h: ConnHandle)
        ensures
            final(self).spec_reachable() == old(self).spec_reachable(),
            final(self).busy() == if h.spec_slot() < old(self).busy().len() {
                old(self).busy().update(h.spec_slot() as int, false)
            } else {
                old(self).busy()
            },
    {
        if h.slot < self.busy.len() {
            self.busy.set(h.slot, false);
        }
    }
}

/// Acquiring a slot and releasing it again leaves the pool as it was.
pub proof fn lemma_acquire_release(before: Seq<bool>, slot: int)
    requires
        0 <= slot < before.len(),
        !before[slot],
    ensures
        before.update(slot, true).update(slot, false) == before,
{
    assert(before.update(slot, true).update(slot, false) =~= before);
}

} // verus!
