//! The single entry point for callers: reads go to the registry, mutating
//! operations go through the coordinator. The engine is driven by the
//! caller: a `begin_*` step that returns `Ok` asks the caller to make the
//! engine call, and the matching `finish_*` step takes its outcome.
use vstd::prelude::*;
use crate::pod::{LifecycleError, Pod, TransportError};
use crate::registry::{has_named, lemma_lookup_some, lookup, refreshed, Registry, Snapshot};
use crate::coordinator::{cleared, is_pending, lemma_cleared, names_unique, Coordinator, OpKind, PendingOperation};

verus! {

/// The whole state as a value: the registry's snapshot and the
/// operations in flight.
pub struct ManagerModel {
    pub registry: Snapshot,
    pub pending: Seq<PendingOperation>,
}

/// The state after `name` is registered for an operation of `kind` at `now`.
pub open spec fn with_pending(m: ManagerModel, name: String, kind: OpKind, now: u64) -> ManagerModel {
    ManagerModel {
        registry: m.registry,
        pending: m.pending.push(PendingOperation { name, kind, started_at: now }),
    }
}

/// Asking to create `name` at `now`: refused while an operation on `name`
/// is in flight, else registered.
pub open spec fn begin_create_step(m: ManagerModel, name: String, now: u64) -> (ManagerModel, Result<(), LifecycleError>) {
    if is_pending(m.pending, name@) {
        (m, Err(LifecycleError::AlreadyInProgress))
    } else {
        (with_pending(m, name, OpKind::Create, now), Ok(()))
    }
}

/// Asking to delete `name` at `now`: refused while an operation on `name`
/// is in flight, not found when the snapshot has no such pod, else
/// registered.
pub open spec fn begin_delete_step(m: ManagerModel, name: String, now: u64) -> (ManagerModel, Result<(), LifecycleError>) {
    if is_pending(m.pending, name@) {
        (m, Err(LifecycleError::AlreadyInProgress))
    } else if !has_named(m.registry.pods, name@) {
        (m, Err(LifecycleError::NotFound))
    } else {
        (with_pending(m, name, OpKind::Delete, now), Ok(()))
    }
}

/// What a create hands its caller for the engine's answer.
pub open spec fn create_outcome(created: Result<Pod, TransportError>) -> Result<Pod, LifecycleError> {
    match created {
        Ok(p) => Ok(p),
        Err(e) => Err(LifecycleError::Transport(e)),
    }
}

/// What a delete hands its caller for the engine's answer.
pub open spec fn delete_outcome(removed: Result<(), TransportError>) -> Result<(), LifecycleError> {
    match removed {
        Ok(()) => Ok(()),
        Err(e) => Err(LifecycleError::Transport(e)),
    }
}

/// The state once the operation on `name` has ended, whatever its outcome.
pub open spec fn finished(before: ManagerModel, after: ManagerModel, name: Seq<char>) -> bool {
    after.registry == before.registry && cleared(before.pending, after.pending, name)
}

/// Of two requests to create the same pod, the second is refused with
/// `AlreadyInProgress` and changes nothing; the first goes ahead, asking
/// for the one engine call, exactly when nothing on that name was in flight.
pub proof fn lemma_second_create_refused(m: ManagerModel, name: String, t1: u64, t2: u64)
    ensures
        ({
            let (m1, r1) = begin_create_step(m, name, t1);
            let (m2, r2) = begin_create_step(m1, name, t2);
            &&& r1 is Ok <==> !is_pending(m.pending, name@)
            &&& r2 == Err::<(), LifecycleError>(LifecycleError::AlreadyInProgress)
            &&& m2 == m1
        }),
{
    let (m1, r1) = begin_create_step(m, name, t1);
    if !is_pending(m.pending, name@) {
        let k = m.pending.len() as int;
        assert(m1.pending[k].name@ == name@);
        assert(is_pending(m1.pending, name@));
    }
}

/// A pod that was created and that the next good listing reports is found
/// by name after that listing, and nothing is left in flight on its name.
pub proof fn lemma_create_then_refresh_finds_pod(
    m: ManagerModel,
    name: String,
    t: u64,
    ended: ManagerModel,
    listing: Seq<Pod>,
    now: u64,
)
    requires
        names_unique(m.pending),
        !is_pending(m.pending, name@),
        finished(begin_create_step(m, name, t).0, ended, name@),
        has_named(listing, name@),
    ensures
        !is_pending(ended.pending, name@),
        lookup(refreshed(ended.registry, Ok(listing), now).pods, name@) is Some,
        lookup(refreshed(ended.registry, Ok(listing), now).pods, name@)->Some_0.name@ == name@,
{
    let m1 = begin_create_step(m, name, t).0;
    assert forall|i: int, j: int|
        0 <= i < m1.pending.len() && 0 <= j < m1.pending.len() && i != j implies m1.pending[i].name@
        != m1.pending[j].name@ by {
        if i < m.pending.len() && j < m.pending.len() {
        } else if i < m.pending.len() {
            assert(m1.pending[i] == m.pending[i]);
        } else {
            assert(m1.pending[j] == m.pending[j]);
        }
    }
    lemma_cleared(m1.pending, ended.pending, name@);
    lemma_lookup_some(listing, name@);
}

/// Deleting a pod that is neither known nor in flight is `NotFound`, asks
/// for no engine call and changes nothing, so asking again gives the same.
pub proof fn lemma_delete_missing_twice(m: ManagerModel, name: String, t1: u64, t2: u64)
    requires
        !has_named(m.registry.pods, name@),
        !is_pending(m.pending, name@),
    ensures
        begin_delete_step(m, name, t1) == (m, Err::<(), LifecycleError>(LifecycleError::NotFound)),
        begin_delete_step(begin_delete_step(m, name, t1).0, name, t2) == (
            m,
            Err::<(), LifecycleError>(LifecycleError::NotFound),
        ),
{
}

/// An operation that ended in a timeout reports `Transport(Timeout)` and
/// leaves its name free: the next create of that name goes ahead.
pub proof fn lemma_timeout_frees_name(m: ManagerModel, ended: ManagerModel, name: String, t: u64)
    requires
        names_unique(m.pending),
        finished(m, ended, name@),
    ensures
        create_outcome(Err(TransportError::Timeout)) == Err::<Pod, LifecycleError>(
            LifecycleError::Transport(TransportError::Timeout),
        ),
        begin_create_step(ended, name, t).1 == Ok::<(), LifecycleError>(()),
{
    lemma_cleared(m.pending, ended.pending, name@);
}

/// The registry and the coordinator of one engine.
pub struct PodManager {
    registry: Registry,
    coordinator: Coordinator,
}

impl View for PodManager {
    type V = ManagerModel;

    closed spec fn view(&self) -> ManagerModel {
        ManagerModel { registry: self.registry@, pending: self.coordinator@ }
    }
}

impl PodManager {
    /// No two operations in flight share a pod name.
    pub open spec fn wf(&self) -> bool {
        names_unique(self@.pending)
    }

    /// A manager that knows no pods and has nothing in flight.
    pub fn new() -> (r: PodManager)
        ensures
            r.wf(),
            r@.registry.pods.len() == 0,
            r@.registry.version == 0,
            r@.registry.fetched_at == 0,
            r@.pending.len() == 0,
    {
        PodManager { registry: Registry::new(), coordinator: Coordinator::new() }
    }

    /// Copies of the known pods, in the engine's order.
    pub fn list_pods(&self) -> (r: Vec<Pod>)
        ensures
            r@.len() == self@.registry.pods.len(),
            forall|i: int| 0 <= i < r@.len() ==> r@[i]@ == self@.registry.pods[i]@,
    {
        self.registry.all()
    }

    /// A copy of the known pod named `name`, if any.
    pub fn get_pod(&self, name: &String) -> (r: Option<Pod>)
        ensures
            r is Some <==> lookup(self@.registry.pods, name@) is Some,
            r matches Some(p) ==> p@ == lookup(self@.registry.pods, name@)->Some_0@,
    {
        self.registry.get(name)
    }

    /// Takes the outcome of a listing made at `now`: a good one replaces
    /// the snapshot and its version is returned; a failed one is handed
    /// back and the snapshot stays.
    pub fn refresh(&mut self, listing: Result<Vec<Pod>, TransportError>, now: u64) -> (r: Result<u64, TransportError>)
        requires
            old(self).wf(),
        ensures
            final(self).wf(),
            final(self)@.pending == old(self)@.pending,
            final(self)@.registry == refreshed(old(self)@.registry, match listing { Ok(v) => Ok(v@), Err(e) => Err(e) }, now),
            match listing {
                Ok(_) => r == Ok::<u64, TransportError>(final(self)@.registry.version),
                Err(e) => r == Err::<u64, TransportError>(e),
            },
    {
        self.registry.refresh(listing, now)
    }

    /// Whether an operation on `name` is in flight.
    pub fn is_pending(&self, name: &String) -> (r: bool)
        ensures
            r == is_pending(self@.pending, name@),
    {
        self.coordinator.is_pending(name)
    }

    /// First step of creating the pod `name` at `now`. On `Ok` the caller
    /// asks the engine to create it and hands the answer to
    /// `finish_create`.
    pub fn begin_create(&mut self, name: &String, now: u64) -> (r: Result<(), LifecycleError>)
        requires
            old(self).wf(),
        ensures
            final(self).wf(),
            (final(self)@, r) == begin_create_step(old(self)@, *name, now),
            r is Ok ==> is_pending(final(self)@.pending, name@),
    {
        self.coordinator.begin(name, OpKind::Create, now)
    }

    /// Last step of creating `name`: the engine's answer, or a timeout,
    /// ends the operation. On success the caller then refreshes.
    pub fn finish_create(&mut self, name: &String, created: Result<Pod, TransportError>) -> (r: Result<Pod, LifecycleError>)
        requires
            old(self).wf(),
        ensures
            final(self).wf(),
            finished(old(self)@, final(self)@, name@),
            r == create_outcome(created),
    {
        self.coordinator.finish(name);
        match created {
            Ok(p) => Ok(p),
            Err(e) => Err(LifecycleError::Transport(e)),
        }
    }

    /// First step of deleting the pod `name` at `now`. On `Ok` the caller
    /// asks the engine to remove it and hands the answer to
    /// `finish_delete`; on `NotFound` no engine call is due.
    pub fn begin_delete(&mut self, name: &String, now: u64) -> (r: Result<(), LifecycleError>)
        requires
            old(self).wf(),
        ensures
            final(self).wf(),
            (final(self)@, r) == begin_delete_step(old(self)@, *name, now),
            r is Ok ==> is_pending(final(self)@.pending, name@),
    {
        if self.coordinator.is_pending(name) {
            return Err(LifecycleError::AlreadyInProgress);
        }
        if !self.registry.contains(name) {
            return Err(LifecycleError::NotFound);
        }
        self.coordinator.begin(name, OpKind::Delete, now)
    }

    /// Last step of deleting `name`: the engine's answer, or a timeout,
    /// ends the operation. On success the caller then refreshes.
    pub fn finish_delete(&mut self, name: &String, removed: Result<(), TransportError>) -> (r: Result<(), LifecycleError>)
        requires
            old(self).wf(),
        ensures
            final(self).wf(),
            finished(old(self)@, final(self)@, name@),
            r == delete_outcome(removed),
    {
        self.coordinator.finish(name);
        match removed {
            Ok(()) => Ok(()),
            Err(e) => Err(LifecycleError::Transport(e)),
        }
    }

    /// How many good listings have been taken.
    pub fn version(&self) -> (r: u64)
        ensures
            r == self@.registry.version,
    {
        self.registry.version()
    }

    /// When the displayed snapshot was taken.
    pub fn fetched_at(&self) -> (r: u64)
        ensures
            r == self@.registry.fetched_at,
    {
        self.registry.fetched_at()
    }
}

} // verus!
