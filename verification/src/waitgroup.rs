//! The counter of a wait group: how many references to the group are alive.

use vstd::prelude::*;

verus! {

/// The number of live references to a wait group. The group starts with the
/// single reference of its creator; each clone adds one and each drop takes
/// one away; a waiter goes on once every reference but its own is dropped.
pub struct WaitCount {
    count: usize,
}

impl WaitCount {
    /// The number of live references.
    pub closed spec fn references(self) -> nat {
        self.count as nat
    }

    /// The count of a new group.
    pub closed spec fn initial() -> WaitCount {
        WaitCount { count: 1 }
    }

    /// The count after one more reference is made.
    pub closed spec fn after_clone(self) -> WaitCount {
        WaitCount { count: (self.count + 1) as usize }
    }

    /// The count after one reference is dropped.
    pub closed spec fn after_drop(self) -> WaitCount {
        WaitCount { count: (self.count - 1) as usize }
    }

    /// Whether no reference but the waiter's own is alive.
    pub open spec fn is_settled_spec(self) -> bool {
        self.references() == 1
    }

    /// A group with the single reference of its creator.
    pub fn new() -> (w: Self)
        ensures
            w == WaitCount::initial(),
            w.references() == 1,
    {
        WaitCount { count: 1 }
    }

    /// Registers one more reference (a clone of the group).
    pub fn register(&mut self)
        requires
            old(self).references() < usize::MAX,
        ensures
            *final(self) == old(self).after_clone(),
            final(self).references() == old(self).references() + 1,
    {
        self.count = self.count + 1;
    }

    /// Drops one reference; says whether the waiters are now to be woken, which
    /// is when only one reference is left.
    pub fn release(&mut self) -> (wake: bool)
        requires
            old(self).references() > 0,
        ensures
            *final(self) == old(self).after_drop(),
            final(self).references() == old(self).references() - 1,
            wake == final(self).is_settled_spec(),
    {
        self.count = self.count - 1;
        self.count == 1
    }

    /// Whether a waiter can go on at once: no reference but its own is alive.
    pub fn is_settled(&self) -> (r: bool)
        ensures
            r == self.is_settled_spec(),
    {
        self.count == 1
    }

    /// The number of live references.
    pub fn count(&self) -> (n: usize)
        ensures
            n == self.references(),
    {
        self.count
    }
}

/// The number of handles alive after a run of clones (`true`) and drops
/// (`false`) that starts from a new group.
pub open spec fn live_handles(ops: Seq<bool>) -> int
    decreases ops.len(),
{
    if ops.len() == 0 {
        1
    } else {
        live_handles(ops.drop_last()) + if ops.last() { 1int } else { -1int }
    }
}

/// A run in which every clone happens below the counter's limit and every
/// drop drops a live handle.
pub open spec fn feasible(ops: Seq<bool>) -> bool {
    forall|i: int|
        0 <= i < ops.len() ==> if #[trigger] ops[i] {
            live_handles(ops.take(i)) < usize::MAX
        } else {
            live_handles(ops.take(i)) > 0
        }
}

/// The count after a run of clones (`true`) and drops (`false`), each made
/// through `register` or `release`, starting from a new group.
pub open spec fn count_after(ops: Seq<bool>) -> WaitCount
    decreases ops.len(),
{
    if ops.len() == 0 {
        WaitCount::initial()
    } else if ops.last() {
        count_after(ops.drop_last()).after_clone()
    } else {
        count_after(ops.drop_last()).after_drop()
    }
}

/// The count always equals the number of live handles: a new group counts one,
/// each clone adds one and each drop takes one away; so a drop wakes the
/// waiters exactly when it leaves a single handle alive.
pub proof fn law_count_is_live_handles(ops: Seq<bool>)
    requires
        feasible(ops),
    ensures
        count_after(ops).references() == live_handles(ops),
        count_after(ops).is_settled_spec() == (live_handles(ops) == 1),
    decreases ops.len(),
{
    if ops.len() > 0 {
        let prefix = ops.drop_last();
        assert forall|i: int| 0 <= i < prefix.len() implies if #[trigger] prefix[i] {
            live_handles(prefix.take(i)) < usize::MAX
        } else {
            live_handles(prefix.take(i)) > 0
        } by {
            assert(prefix.take(i) =~= ops.take(i));
            assert(prefix[i] == ops[i]);
        }
        law_count_is_live_handles(prefix);
        let last = ops.len() - 1;
        assert(ops.take(last) =~= prefix);
        assert(ops[last] == ops.last());
    }
}

/// A clone that is dropped again leaves the count as it was.
pub proof fn law_clone_then_drop(w: WaitCount)
    requires
        w.references() < usize::MAX,
    ensures
        w.after_clone().after_drop() == w,
{
}

} // verus!
