//! A model of the kernel handle table, as far as the relay's resource
//! handling depends on it.
//!
//! A handle is an index into the table; an open slot holds the identity of
//! the underlying kernel object it refers to. Creating a resource allocates
//! a fresh object; duplicating a handle allocates a fresh handle to the
//! *same* object, so the two can be closed independently; closing a handle
//! empties exactly its own slot. Handle values are never reused, which keeps
//! the accounting simple and is all the relay's contracts need.
//!
//! The unverified binary holds real OS handles in place of these indices;
//! the pair logic in [`crate::pair`] is verified against this model.

use vstd::prelude::*;

verus! {

/// The table of handles: slot `h` holds `Some(object)` while handle `h` is
/// open and refers to kernel object `object`, and `None` once it is closed.
pub struct HandleTable {
    pub slots: Vec<Option<u64>>,
}

/// How many slots of the table are open.
pub open spec fn count_open(s: Seq<Option<u64>>) -> nat
    decreases s.len(),
{
    if s.len() == 0 {
        0
    } else {
        count_open(s.drop_last()) + if s.last() is Some {
            1nat
        } else {
            0nat
        }
    }
}

impl HandleTable {
    /// All slots, open and closed, in handle order.
    pub open spec fn handles(self) -> Seq<Option<u64>> {
        self.slots@
    }

    /// Whether handle `h` is open.
    pub open spec fn is_open_spec(self, h: int) -> bool {
        0 <= h < self.handles().len() && self.handles()[h] is Some
    }

    /// The kernel object an open handle refers to.
    pub open spec fn object_at(self, h: int) -> u64
        recommends
            self.is_open_spec(h),
    {
        match self.handles()[h] {
            Some(object) => object,
            None => 0,
        }
    }

    /// Objects are identified by the table length at their creation, so
    /// every object referred to is older than the youngest slot; a freshly
    /// created object therefore differs from every object already reachable.
    pub open spec fn wf(self) -> bool {
        forall|i: int|
            0 <= i < self.handles().len() ==> ((#[trigger] self.handles()[i]) matches Some(object)
                ==> (object as int) < self.handles().len())
    }

    /// An empty table, with nothing open.
    pub fn new() -> (t: HandleTable)
        ensures
            t.wf(),
            t.handles().len() == 0,
    {
        HandleTable { slots: Vec::new() }
    }

    /// The number of slots ever allocated.
    pub fn len(&self) -> (n: usize)
        ensures
            n == self.handles().len(),
    {
        self.slots.len()
    }

    /// Whether handle `h` is open.
    pub fn is_open(&self, h: usize) -> (b: bool)
        ensures
            b == self.is_open_spec(h as int),
    {
        if h < self.slots.len() {
            self.slots[h].is_some()
        } else {
            false
        }
    }

    /// The kernel object an open handle refers to.
    pub fn object_of(&self, h: usize) -> (object: u64)
        requires
            self.is_open_spec(h as int),
        ensures
            object == self.object_at(h as int),
    {
        match self.slots[h] {
            Some(object) => object,
            None => 0,
        }
    }

    /// Opens a fresh handle to a fresh kernel object (a newly opened file or
    /// a newly created completion-notification object). Existing slots are
    /// untouched.
    pub fn create(&mut self) -> (h: usize)
        requires
            old(self).wf(),
        ensures
            final(self).wf(),
            h == old(self).handles().len(),
            final(self).handles() == old(self).handles().push(
                Some(old(self).handles().len() as u64),
            ),
            final(self).is_open_spec(h as int),
    {
        let object: u64 = self.slots.len() as u64;
        self.slots.push(Some(object));
        self.slots.len() - 1
    }

    /// Opens a fresh handle to the *same* kernel object as `h`: OS-level
    /// handle duplication, not aliasing of the handle value. Existing slots,
    /// `h` itself included, are untouched.
    pub fn duplicate(&mut self, h: usize) -> (h2: usize)
        requires
            old(self).wf(),
            old(self).is_open_spec(h as int),
        ensures
            final(self).wf(),
            h2 == old(self).handles().len(),
            final(self).handles() == old(self).handles().push(Some(old(self).object_at(h as int))),
            final(self).is_open_spec(h2 as int),
            final(self).object_at(h2 as int) == old(self).object_at(h as int),
            final(self).is_open_spec(h as int),
            final(self).object_at(h as int) == old(self).object_at(h as int),
    {
        let object: u64 = self.object_of(h);
        self.slots.push(Some(object));
        self.slots.len() - 1
    }

    /// Closes handle `h`: exactly its own slot is emptied, every other slot
    /// — in particular any duplicate referring to the same object — is
    /// untouched.
    pub fn close(&mut self, h: usize)
        requires
            old(self).wf(),
            old(self).is_open_spec(h as int),
        ensures
            final(self).wf(),
            final(self).handles() == old(self).handles().update(h as int, None),
            !final(self).is_open_spec(h as int),
    {
        self.slots.set(h, None);
    }

    /// The number of open handles, for checking that a failed acquisition
    /// released everything it had acquired.
    pub fn open_count(&self) -> (n: usize)
        ensures
            n == count_open(self.handles()),
    {
        let mut n: usize = 0;
        let mut i: usize = 0;
        while i < self.slots.len()
            invariant
                i <= self.slots@.len(),
                n == count_open(self.slots@.take(i as int)),
                n <= i,
            decreases self.slots@.len() - i,
        {
            let open_here: bool = self.slots[i].is_some();
            proof {
                assert(self.slots@.take(i + 1).drop_last() =~= self.slots@.take(i as int));
                assert(self.slots@.take(i + 1).last() == self.slots@[i as int]);
            }
            if open_here {
                n = n + 1;
            }
            i = i + 1;
        }
        proof {
            assert(self.slots@.take(self.slots@.len() as int) =~= self.slots@);
        }
        n
    }
}

/// Duplicated handles are independently closable: if `h2` came from
/// duplicating `h`, then after closing `h` the duplicate `h2` is still open
/// and still refers to the object `h` referred to — and the other way
/// around. (`t1` is the table right after the duplication, `after_close_*`
/// the table after one of the two closes.)
pub proof fn lemma_duplicate_close_independent(
    t0: HandleTable,
    h: usize,
    t1: HandleTable,
    h2: usize,
    after_close_orig: HandleTable,
    after_close_dup: HandleTable,
)
    requires
        t0.wf(),
        t0.is_open_spec(h as int),
        h2 == t0.handles().len(),
        t1.handles() == t0.handles().push(Some(t0.object_at(h as int))),
        after_close_orig.handles() == t1.handles().update(h as int, None),
        after_close_dup.handles() == t1.handles().update(h2 as int, None),
    ensures
        after_close_orig.is_open_spec(h2 as int),
        after_close_orig.object_at(h2 as int) == t0.object_at(h as int),
        after_close_dup.is_open_spec(h as int),
        after_close_dup.object_at(h as int) == t0.object_at(h as int),
{
}

} // verus!
