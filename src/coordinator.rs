//! The table of mutating operations in flight, at most one per pod name.
use vstd::prelude::*;
use crate::pod::LifecycleError;

verus! {

/// The kind of a mutating operation.
#[derive(Clone, Copy, Debug, PartialEq, Eq, Structural)]
pub enum OpKind {
    Create,
    Delete,
    Start,
    Stop,
}

/// A mutating operation in flight on the pod `name`, begun at `started_at`.
#[derive(Clone, Debug)]
pub struct PendingOperation {
    pub name: String,
    pub kind: OpKind,
    pub started_at: u64,
}

/// Some operation on `name` is in flight.
pub open spec fn is_pending(ops: Seq<PendingOperation>, name: Seq<char>) -> bool {
    exists|i: int| 0 <= i < ops.len() && ops[i].name@ == name
}

/// No two operations in flight share a pod name.
pub open spec fn names_unique(ops: Seq<PendingOperation>) -> bool {
    forall|i: int, j: int|
        0 <= i < ops.len() && 0 <= j < ops.len() && i != j ==> ops[i].name@ != ops[j].name@
}

/// `after` is `before` with the operation on `name` taken out, if there
/// was one, the others kept in order.
pub open spec fn cleared(before: Seq<PendingOperation>, after: Seq<PendingOperation>, name: Seq<char>) -> bool {
    if is_pending(before, name) {
        exists|i: int| 0 <= i < before.len() && before[i].name@ == name && after == before.remove(i)
    } else {
        after == before
    }
}

/// Taking out the operation on `name` keeps names unique, leaves nothing
/// on `name`, and keeps every other name's operation.
pub proof fn lemma_cleared(before: Seq<PendingOperation>, after: Seq<PendingOperation>, name: Seq<char>)
    requires
        names_unique(before),
        cleared(before, after, name),
    ensures
        names_unique(after),
        !is_pending(after, name),
        forall|n: Seq<char>| n != name ==> (is_pending(after, n) == is_pending(before, n)),
{
    if is_pending(before, name) {
        let i = choose|i: int| 0 <= i < before.len() && before[i].name@ == name && after == before.remove(i);
        assert forall|n: Seq<char>| n != name && is_pending(before, n) implies is_pending(after, n) by {
            let k = choose|k: int| 0 <= k < before.len() && before[k].name@ == n;
            if k < i {
                assert(after[k] == before[k]);
            } else {
                assert(k != i);
                assert(after[k - 1] == before[k]);
            }
        }
        assert forall|k: int| 0 <= k < after.len() implies after[k].name@ != name by {
            if k < i {
                assert(after[k] == before[k]);
            } else {
                assert(after[k] == before[k + 1]);
            }
        }
        assert forall|n: Seq<char>| n != name && is_pending(after, n) implies is_pending(before, n) by {
            let k = choose|k: int| 0 <= k < after.len() && after[k].name@ == n;
            if k < i {
                assert(after[k] == before[k]);
            } else {
                assert(after[k] == before[k + 1]);
            }
        }
        assert forall|a: int, b: int|
            0 <= a < after.len() && 0 <= b < after.len() && a != b implies after[a].name@ != after[b].name@ by {
            let a0 = if a < i { a } else { a + 1 };
            let b0 = if b < i { b } else { b + 1 };
            assert(after[a] == before[a0]);
            assert(after[b] == before[b0]);
        }
    }
}

/// The operations in flight.
pub struct Coordinator {
    pending: Vec<PendingOperation>,
}

impl View for Coordinator {
    type V = Seq<PendingOperation>;

    closed spec fn view(&self) -> Seq<PendingOperation> {
        self.pending@
    }
}

impl Coordinator {
    /// No two operations in flight share a pod name.
    pub open spec fn wf(&self) -> bool {
        names_unique(self@)
    }

    /// A coordinator with nothing in flight.
    pub fn new() -> (r: Coordinator)
        ensures
            r@.len() == 0,
            r.wf(),
    {
        Coordinator { pending: Vec::new() }
    }

    /// Whether an operation on `name` is in flight.
    pub fn is_pending(&self, name: &String) -> (r: bool)
        ensures
            r == is_pending(self@, name@),
    {
        let mut i: usize = 0;
        while i < self.pending.len()
            invariant
                i <= self.pending@.len(),
                forall|j: int| 0 <= j < i ==> self.pending@[j].name@ != name@,
            decreases self.pending.len() - i,
        {
            if self.pending[i].name == *name {
                return true;
            }
            i = i + 1;
        }
        false
    }

    /// Registers an operation of `kind` on `name` at time `now`; it is
    /// refused, and nothing changes, while another one on `name` is in
    /// flight.
    pub fn begin(&mut self, name: &String, kind: OpKind, now: u64) -> (r: Result<(), LifecycleError>)
        requires
            old(self).wf(),
        ensures
            final(self).wf(),
            r == if is_pending(old(self)@, name@) {
                Err::<(), LifecycleError>(LifecycleError::AlreadyInProgress)
            } else {
                Ok(())
            },
            final(self)@ == if is_pending(old(self)@, name@) {
                old(self)@
            } else {
                old(self)@.push(PendingOperation { name: *name, kind, started_at: now })
            },
            is_pending(final(self)@, name@),
    {
        if self.is_pending(name) {
            return Err(LifecycleError::AlreadyInProgress);
        }
        self.pending.push(PendingOperation { name: name.clone(), kind, started_at: now });
        assert(forall|j: int| 0 <= j < old(self)@.len() ==> self.pending@[j] == old(self)@[j]);
        assert(self.pending@[old(self)@.len() as int].name@ == name@);
        Ok(())
    }

    /// Takes out the operation on `name`, if one is in flight.
    pub fn finish(&mut self, name: &String)
        requires
            old(self).wf(),
        ensures
            final(self).wf(),
            cleared(old(self)@, final(self)@, name@),
            !is_pending(final(self)@, name@),
    {
        let mut i: usize = 0;
        while i < self.pending.len()
            invariant
                i <= self.pending@.len(),
                self.pending@ == old(self)@,
                names_unique(old(self)@),
                forall|j: int| 0 <= j < i ==> self.pending@[j].name@ != name@,
            decreases self.pending.len() - i,
        {
            if self.pending[i].name == *name {
                self.pending.remove(i);
                proof {
                    assert(is_pending(old(self)@, name@));
                    assert(self.pending@ == old(self)@.remove(i as int));
                    lemma_cleared(old(self)@, self.pending@, name@);
                }
                return;
            }
            i = i + 1;
        }
    }
}

} // verus!
