//! The data that the engine reports about pods, and the error taxonomy.
use vstd::prelude::*;

verus! {

/// Lifecycle state of a pod.
#[derive(Clone, Copy, Debug, PartialEq, Eq, Structural)]
pub enum PodStatus {
    Created,
    Running,
    Stopped,
    Degraded,
    Removing,
}

/// The status that an engine status word stands for: the five names of
/// the lifecycle, an exited pod counting as stopped; any other word
/// marks the pod as degraded.
pub open spec fn status_of(word: Seq<char>) -> PodStatus {
    if word == "Created"@ {
        PodStatus::Created
    } else if word == "Running"@ {
        PodStatus::Running
    } else if word == "Stopped"@ || word == "Exited"@ {
        PodStatus::Stopped
    } else if word == "Removing"@ {
        PodStatus::Removing
    } else {
        PodStatus::Degraded
    }
}

impl PodStatus {
    /// Reads an engine status word.
    pub fn from_engine(word: &String) -> (r: PodStatus)
        ensures
            r == status_of(word@),
    {
        proof {
            reveal_strlit("Created");
            reveal_strlit("Running");
            reveal_strlit("Stopped");
            reveal_strlit("Exited");
            reveal_strlit("Removing");
        }
        if *word == "Created".to_owned() {
            PodStatus::Created
        } else if *word == "Running".to_owned() {
            PodStatus::Running
        } else if *word == "Stopped".to_owned() || *word == "Exited".to_owned() {
            PodStatus::Stopped
        } else if *word == "Removing".to_owned() {
            PodStatus::Removing
        } else {
            PodStatus::Degraded
        }
    }
}

/// What the engine reports of one container of a pod.
#[derive(Clone, Debug, PartialEq, Eq)]
pub struct ContainerSummary {
    pub id: String,
    pub name: String,
    pub status: String,
}

impl ContainerSummary {
    /// A field-by-field copy.
    pub fn copy(&self) -> (r: ContainerSummary)
        ensures
            r == *self,
    {
        ContainerSummary { id: self.id.clone(), name: self.name.clone(), status: self.status.clone() }
    }
}

/// One label of a pod.
#[derive(Clone, Debug, PartialEq, Eq)]
pub struct Label {
    pub key: String,
    pub value: String,
}

/// A pod as listed by the engine.
#[derive(Clone, Debug)]
pub struct Pod {
    pub id: String,
    pub name: String,
    pub status: PodStatus,
    /// Creation time, in seconds since the epoch.
    pub created_at: u64,
    pub containers: Vec<ContainerSummary>,
    /// Labels in the engine's order, keys unique.
    pub labels: Vec<Label>,
    pub networks: Vec<String>,
    pub infra_id: Option<String>,
}

/// A pod with its sequences as mathematical values.
pub struct PodView {
    pub id: Seq<char>,
    pub name: Seq<char>,
    pub status: PodStatus,
    pub created_at: u64,
    pub containers: Seq<ContainerSummary>,
    pub labels: Seq<Label>,
    pub networks: Seq<String>,
    pub infra_id: Option<String>,
}

impl View for Pod {
    type V = PodView;

    open spec fn view(&self) -> PodView {
        PodView {
            id: self.id@,
            name: self.name@,
            status: self.status,
            created_at: self.created_at,
            containers: self.containers@,
            labels: self.labels@,
            networks: self.networks@,
            infra_id: self.infra_id,
        }
    }
}

fn copy_containers(v: &Vec<ContainerSummary>) -> (r: Vec<ContainerSummary>)
    ensures
        r@ == v@,
{
    let mut r: Vec<ContainerSummary> = Vec::new();
    let mut i: usize = 0;
    while i < v.len()
        invariant
            i <= v.len(),
            r@ == v@.subrange(0, i as int),
        decreases v.len() - i,
    {
        r.push(v[i].copy());
        i = i + 1;
        assert(r@ =~= v@.subrange(0, i as int));
    }
    assert(r@ =~= v@);
    r
}

fn copy_labels(v: &Vec<Label>) -> (r: Vec<Label>)
    ensures
        r@ == v@,
{
    let mut r: Vec<Label> = Vec::new();
    let mut i: usize = 0;
    while i < v.len()
        invariant
            i <= v.len(),
            r@ == v@.subrange(0, i as int),
        decreases v.len() - i,
    {
        r.push(Label { key: v[i].key.clone(), value: v[i].value.clone() });
        i = i + 1;
        assert(r@ =~= v@.subrange(0, i as int));
    }
    assert(r@ =~= v@);
    r
}

fn copy_strings(v: &Vec<String>) -> (r: Vec<String>)
    ensures
        r@ == v@,
{
    let mut r: Vec<String> = Vec::new();
    let mut i: usize = 0;
    while i < v.len()
        invariant
            i <= v.len(),
            r@ == v@.subrange(0, i as int),
        decreases v.len() - i,
    {
        r.push(v[i].clone());
        i = i + 1;
        assert(r@ =~= v@.subrange(0, i as int));
    }
    assert(r@ =~= v@);
    r
}

impl Pod {
    /// An independent copy with the same contents.
    pub fn copy(&self) -> (r: Pod)
        ensures
            r@ == self@,
    {
        let infra_id = match &self.infra_id {
            Some(s) => Some(s.clone()),
            None => None,
        };
        Pod {
            id: self.id.clone(),
            name: self.name.clone(),
            status: self.status,
            created_at: self.created_at,
            containers: copy_containers(&self.containers),
            labels: copy_labels(&self.labels),
            networks: copy_strings(&self.networks),
            infra_id,
        }
    }
}

/// A failure to talk to the engine.
#[derive(Clone, Copy, Debug, PartialEq, Eq, Structural)]
pub enum TransportError {
    SocketNotFound,
    ConnectionRefused,
    ConnectionReset,
    Timeout,
    MalformedResponse,
}

/// The errors of a lifecycle operation.
#[derive(Clone, Copy, Debug, PartialEq, Eq, Structural)]
pub enum LifecycleError {
    /// Another operation on the same pod name is in flight.
    AlreadyInProgress,
    /// No pod of that name is known and none is being created.
    NotFound,
    /// The engine could not be reached or answered badly.
    Transport(TransportError),
}

/// Process exit code of a command-line front-end for an error.
pub open spec fn exit_code_of(e: LifecycleError) -> u8 {
    match e {
        LifecycleError::Transport(_) => 1,
        LifecycleError::NotFound => 2,
        LifecycleError::AlreadyInProgress => 3,
    }
}

impl LifecycleError {
    /// The exit code that a command-line front-end reports for this error;
    /// success is 0.
    pub fn exit_code(&self) -> (r: u8)
        ensures
            r == exit_code_of(*self),
            r != 0,
    {
        match self {
            LifecycleError::Transport(_) => 1,
            LifecycleError::NotFound => 2,
            LifecycleError::AlreadyInProgress => 3,
        }
    }
}

} // verus!
