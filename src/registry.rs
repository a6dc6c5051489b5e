//! The cache of the last good listing of pods.
use vstd::prelude::*;
use crate::pod::{Pod, TransportError};

verus! {

/// `i` is the first position in `pods` of a pod named `name`.
pub open spec fn is_first_named(pods: Seq<Pod>, name: Seq<char>, i: int) -> bool {
    &&& 0 <= i < pods.len()
    &&& pods[i].name@ == name
    &&& forall|j: int| 0 <= j < i ==> pods[j].name@ != name
}

/// Some pod in `pods` is named `name`.
pub open spec fn has_named(pods: Seq<Pod>, name: Seq<char>) -> bool {
    exists|i: int| 0 <= i < pods.len() && pods[i].name@ == name
}

/// The first pod in `pods` named `name`, if any.
pub open spec fn lookup(pods: Seq<Pod>, name: Seq<char>) -> Option<Pod> {
    if exists|i: int| is_first_named(pods, name, i) {
        Some(pods[choose|i: int| is_first_named(pods, name, i)])
    } else {
        None
    }
}

/// A name that occurs in a listing has a first occurrence, and `lookup`
/// finds the pod there.
pub proof fn lemma_lookup_first(pods: Seq<Pod>, name: Seq<char>, i: int)
    requires
        is_first_named(pods, name, i),
    ensures
        lookup(pods, name) == Some(pods[i]),
{
    let k = choose|k: int| is_first_named(pods, name, k);
    assert(is_first_named(pods, name, k));
    if k < i {
        assert(pods[k].name@ != name);
    } else if i < k {
        assert(pods[i].name@ != name);
    }
}

/// Scanning from `i` towards a known occurrence at `w` meets a first one.
proof fn lemma_first_from(pods: Seq<Pod>, name: Seq<char>, w: int, i: int) -> (k: int)
    requires
        0 <= i <= w < pods.len(),
        pods[w].name@ == name,
        forall|j: int| 0 <= j < i ==> pods[j].name@ != name,
    ensures
        is_first_named(pods, name, k),
    decreases w - i,
{
    if pods[i].name@ == name {
        i
    } else {
        lemma_first_from(pods, name, w, i + 1)
    }
}

/// `lookup` finds a pod exactly when some pod carries the name.
pub proof fn lemma_lookup_some(pods: Seq<Pod>, name: Seq<char>)
    ensures
        lookup(pods, name) is Some <==> has_named(pods, name),
        lookup(pods, name) matches Some(p) ==> p.name@ == name,
{
    if has_named(pods, name) {
        let w = choose|w: int| 0 <= w < pods.len() && pods[w].name@ == name;
        let i = lemma_first_from(pods, name, w, 0);
        assert(is_first_named(pods, name, i));
        lemma_lookup_first(pods, name, i);
    }
    if lookup(pods, name) is Some {
        let k = choose|k: int| is_first_named(pods, name, k);
        assert(0 <= k < pods.len() && pods[k].name@ == name);
    }
}

/// The registry as a value: the pods of the last good listing in the
/// engine's order, the number of listings taken, and when the last one
/// was taken.
pub struct Snapshot {
    pub pods: Seq<Pod>,
    pub version: u64,
    pub fetched_at: u64,
}

/// The snapshot after a listing attempt at time `now`: a good listing
/// replaces the pods whole and counts one more version (the count stops
/// at its largest value); a failed one leaves everything as it was.
pub open spec fn refreshed(s: Snapshot, listing: Result<Seq<Pod>, TransportError>, now: u64) -> Snapshot {
    match listing {
        Ok(pods) => Snapshot {
            pods,
            version: if s.version < u64::MAX { (s.version + 1) as u64 } else { s.version },
            fetched_at: now,
        },
        Err(_) => s,
    }
}

/// The snapshot after a run of listing attempts, each with its outcome and
/// its time, taken in order.
pub open spec fn refreshed_all(s: Snapshot, attempts: Seq<(Result<Seq<Pod>, TransportError>, u64)>) -> Snapshot
    decreases attempts.len(),
{
    if attempts.len() == 0 {
        s
    } else {
        let last = attempts.last();
        refreshed(refreshed_all(s, attempts.drop_last()), last.0, last.1)
    }
}

/// A failed listing leaves the snapshot exactly as it was, after any run
/// of earlier attempts.
pub proof fn lemma_failed_refresh_keeps_snapshot(
    s: Snapshot,
    attempts: Seq<(Result<Seq<Pod>, TransportError>, u64)>,
    e: TransportError,
    now: u64,
)
    ensures
        refreshed_all(s, attempts.push((Err(e), now))) == refreshed_all(s, attempts),
{
    assert(attempts.push((Err(e), now)).drop_last() == attempts);
}

/// A run of attempts that all fail leaves the snapshot as it was.
pub proof fn lemma_failed_refreshes_keep_snapshot(s: Snapshot, attempts: Seq<(Result<Seq<Pod>, TransportError>, u64)>)
    requires
        forall|i: int| 0 <= i < attempts.len() ==> attempts[i].0 is Err,
    ensures
        refreshed_all(s, attempts) == s,
    decreases attempts.len(),
{
    if attempts.len() > 0 {
        lemma_failed_refreshes_keep_snapshot(s, attempts.drop_last());
    }
}

/// The last good listing of pods. Readers get copies; a listing replaces
/// the pods as a whole or not at all.
pub struct Registry {
    pods: Vec<Pod>,
    version: u64,
    fetched_at: u64,
}

impl View for Registry {
    type V = Snapshot;

    closed spec fn view(&self) -> Snapshot {
        Snapshot { pods: self.pods@, version: self.version, fetched_at: self.fetched_at }
    }
}

impl Registry {
    /// A registry that has taken no listing yet.
    pub fn new() -> (r: Registry)
        ensures
            r@.pods.len() == 0,
            r@.version == 0,
            r@.fetched_at == 0,
    {
        Registry { pods: Vec::new(), version: 0, fetched_at: 0 }
    }

    /// Takes the outcome of a listing made at time `now`. On success the
    /// pods are replaced whole and the new version is returned; on failure
    /// the error is handed back and the registry is unchanged.
    pub fn refresh(&mut self, listing: Result<Vec<Pod>, TransportError>, now: u64) -> (r: Result<u64, TransportError>)
        ensures
            final(self)@ == refreshed(old(self)@, match listing { Ok(v) => Ok(v@), Err(e) => Err(e) }, now),
            match listing {
                Ok(_) => r == Ok::<u64, TransportError>(final(self)@.version),
                Err(e) => r == Err::<u64, TransportError>(e),
            },
    {
        match listing {
            Ok(pods) => {
                self.pods = pods;
                if self.version < u64::MAX {
                    self.version = self.version + 1;
                }
                self.fetched_at = now;
                Ok(self.version)
            },
            Err(e) => Err(e),
        }
    }

    /// The pod named `name` in the current snapshot, as a copy.
    pub fn get(&self, name: &String) -> (r: Option<Pod>)
        ensures
            r is Some <==> lookup(self@.pods, name@) is Some,
            r matches Some(p) ==> p@ == lookup(self@.pods, name@)->Some_0@,
    {
        let mut i: usize = 0;
        while i < self.pods.len()
            invariant
                i <= self.pods@.len(),
                forall|j: int| 0 <= j < i ==> self.pods@[j].name@ != name@,
            decreases self.pods.len() - i,
        {
            if self.pods[i].name == *name {
                proof {
                    lemma_lookup_first(self.pods@, name@, i as int);
                }
                return Some(self.pods[i].copy());
            }
            i = i + 1;
        }
        proof {
            lemma_lookup_some(self.pods@, name@);
        }
        None
    }

    /// Whether the current snapshot holds a pod named `name`.
    pub fn contains(&self, name: &String) -> (r: bool)
        ensures
            r == has_named(self@.pods, name@),
    {
        let mut i: usize = 0;
        while i < self.pods.len()
            invariant
                i <= self.pods@.len(),
                forall|j: int| 0 <= j < i ==> self.pods@[j].name@ != name@,
            decreases self.pods.len() - i,
        {
            if self.pods[i].name == *name {
                return true;
            }
            i = i + 1;
        }
        false
    }

    /// A copy of the current pods, in the engine's order.
    pub fn all(&self) -> (r: Vec<Pod>)
        ensures
            r@.len() == self@.pods.len(),
            forall|i: int| 0 <= i < r@.len() ==> r@[i]@ == self@.pods[i]@,
    {
        let mut r: Vec<Pod> = Vec::new();
        let mut i: usize = 0;
        while i < self.pods.len()
            invariant
                i <= self.pods@.len(),
                r@.len() == i,
                forall|j: int| 0 <= j < i ==> r@[j]@ == self.pods@[j]@,
            decreases self.pods.len() - i,
        {
            r.push(self.pods[i].copy());
            i = i + 1;
        }
        r
    }

    /// How many good listings the registry has taken.
    pub fn version(&self) -> (r: u64)
        ensures
            r == self@.version,
    {
        self.version
    }

    /// When the current snapshot was taken; callers show it as the age of
    /// what they display.
    pub fn fetched_at(&self) -> (r: u64)
        ensures
            r == self@.fetched_at,
    {
        self.fetched_at
    }
}

} // verus!
