use mcpanel::manager::PodManager;
use mcpanel::pod::{ContainerSummary, Label, LifecycleError, Pod, PodStatus, TransportError};
use mcpanel::registry::Registry;

fn pod(name: &str, status: PodStatus) -> Pod {
    Pod {
        id: format!("id-{}", name),
        name: name.to_string(),
        status,
        created_at: 1_700_000_000,
        containers: vec![ContainerSummary {
            id: format!("c-{}", name),
            name: format!("{}-infra", name),
            status: "running".to_string(),
        }],
        labels: vec![Label { key: "app".to_string(), value: name.to_string() }],
        networks: vec!["podman".to_string()],
        infra_id: Some(format!("c-{}", name)),
    }
}

fn names(pods: &[Pod]) -> Vec<String> {
    pods.iter().map(|p| p.name.clone()).collect()
}

#[test]
fn list_keeps_engine_order() {
    let mut m = PodManager::new();
    let listing = vec![pod("a", PodStatus::Running), pod("b", PodStatus::Stopped)];
    assert_eq!(m.refresh(Ok(listing), 10), Ok(1));
    let pods = m.list_pods();
    assert_eq!(pods.len(), 2);
    assert_eq!(pods[0].name, "a");
    assert_eq!(pods[0].status, PodStatus::Running);
    assert_eq!(pods[1].name, "b");
    assert_eq!(pods[1].status, PodStatus::Stopped);
    assert_eq!(pods[0].labels, vec![Label { key: "app".to_string(), value: "a".to_string() }]);
    assert_eq!(pods[1].networks, vec!["podman".to_string()]);
    assert_eq!(pods[1].infra_id, Some("c-b".to_string()));
}

#[test]
fn unsorted_listing_is_not_sorted() {
    let mut m = PodManager::new();
    let listing = vec![pod("z", PodStatus::Created), pod("m", PodStatus::Degraded), pod("a", PodStatus::Removing)];
    m.refresh(Ok(listing), 1).unwrap();
    assert_eq!(names(&m.list_pods()), vec!["z", "m", "a"]);
}

#[test]
fn failed_refresh_keeps_snapshot() {
    let mut m = PodManager::new();
    m.refresh(Ok(vec![pod("a", PodStatus::Running)]), 10).unwrap();
    let before = m.list_pods();
    assert_eq!(m.refresh(Err(TransportError::ConnectionRefused), 20), Err(TransportError::ConnectionRefused));
    assert_eq!(m.refresh(Err(TransportError::Timeout), 30), Err(TransportError::Timeout));
    let after = m.list_pods();
    assert_eq!(names(&before), names(&after));
    assert_eq!(after[0].id, "id-a");
    assert_eq!(m.version(), 1);
    assert_eq!(m.fetched_at(), 10);
}

#[test]
fn good_refresh_replaces_whole_snapshot() {
    let mut m = PodManager::new();
    m.refresh(Ok(vec![pod("a", PodStatus::Running), pod("b", PodStatus::Running)]), 10).unwrap();
    assert_eq!(m.refresh(Ok(vec![pod("c", PodStatus::Created)]), 15), Ok(2));
    assert_eq!(names(&m.list_pods()), vec!["c"]);
    assert!(m.get_pod(&"a".to_string()).is_none());
    assert_eq!(m.fetched_at(), 15);
}

#[test]
fn empty_listing_empties_registry() {
    let mut m = PodManager::new();
    m.refresh(Ok(vec![pod("a", PodStatus::Running)]), 1).unwrap();
    m.refresh(Ok(vec![]), 2).unwrap();
    assert!(m.list_pods().is_empty());
    assert_eq!(m.version(), 2);
}

#[test]
fn second_concurrent_create_is_refused() {
    let mut m = PodManager::new();
    let name = "web".to_string();
    assert_eq!(m.begin_create(&name, 1), Ok(()));
    assert_eq!(m.begin_create(&name, 2), Err(LifecycleError::AlreadyInProgress));
    assert!(m.is_pending(&name));
    let other = "db".to_string();
    assert_eq!(m.begin_create(&other, 2), Ok(()));
}

#[test]
fn create_then_refresh_finds_pod() {
    let mut m = PodManager::new();
    let name = "x".to_string();
    assert_eq!(m.begin_create(&name, 1), Ok(()));
    let created = m.finish_create(&name, Ok(pod("x", PodStatus::Created))).unwrap();
    assert_eq!(created.name, "x");
    assert!(!m.is_pending(&name));
    m.refresh(Ok(vec![pod("other", PodStatus::Running), pod("x", PodStatus::Created)]), 5).unwrap();
    let found = m.get_pod(&name).unwrap();
    assert_eq!(found.name, "x");
    assert_eq!(found.id, "id-x");
}

#[test]
fn delete_missing_twice_is_not_found() {
    let mut m = PodManager::new();
    m.refresh(Ok(vec![pod("a", PodStatus::Running)]), 1).unwrap();
    let name = "missing".to_string();
    assert_eq!(m.begin_delete(&name, 2), Err(LifecycleError::NotFound));
    assert!(!m.is_pending(&name));
    assert_eq!(m.begin_delete(&name, 3), Err(LifecycleError::NotFound));
    assert!(!m.is_pending(&name));
}

#[test]
fn delete_during_create_is_refused() {
    let mut m = PodManager::new();
    let name = "x".to_string();
    m.begin_create(&name, 1).unwrap();
    assert_eq!(m.begin_delete(&name, 2), Err(LifecycleError::AlreadyInProgress));
}

#[test]
fn delete_known_pod() {
    let mut m = PodManager::new();
    m.refresh(Ok(vec![pod("a", PodStatus::Running)]), 1).unwrap();
    let name = "a".to_string();
    assert_eq!(m.begin_delete(&name, 2), Ok(()));
    assert_eq!(m.begin_delete(&name, 3), Err(LifecycleError::AlreadyInProgress));
    assert_eq!(m.finish_delete(&name, Ok(())), Ok(()));
    assert!(!m.is_pending(&name));
    m.refresh(Ok(vec![]), 4).unwrap();
    assert_eq!(m.begin_delete(&name, 5), Err(LifecycleError::NotFound));
}

#[test]
fn failed_delete_reports_transport_and_frees_name() {
    let mut m = PodManager::new();
    m.refresh(Ok(vec![pod("a", PodStatus::Running)]), 1).unwrap();
    let name = "a".to_string();
    m.begin_delete(&name, 2).unwrap();
    assert_eq!(
        m.finish_delete(&name, Err(TransportError::ConnectionReset)),
        Err(LifecycleError::Transport(TransportError::ConnectionReset))
    );
    assert_eq!(m.begin_delete(&name, 3), Ok(()));
}

#[test]
fn create_timeout_clears_pending() {
    let mut m = PodManager::new();
    let name = "slow".to_string();
    assert_eq!(m.begin_create(&name, 1), Ok(()));
    let r = m.finish_create(&name, Err(TransportError::Timeout));
    assert_eq!(r.unwrap_err(), LifecycleError::Transport(TransportError::Timeout));
    assert!(!m.is_pending(&name));
    assert_eq!(m.begin_create(&name, 2), Ok(()));
}

#[test]
fn get_returns_first_of_name() {
    let mut r = Registry::new();
    let mut second = pod("a", PodStatus::Stopped);
    second.id = "id-second".to_string();
    r.refresh(Ok(vec![pod("b", PodStatus::Running), pod("a", PodStatus::Running), second]), 3).unwrap();
    let got = r.get(&"a".to_string()).unwrap();
    assert_eq!(got.id, "id-a");
    assert!(r.contains(&"b".to_string()));
    assert!(!r.contains(&"c".to_string()));
    assert_eq!(r.all().len(), 3);
}

#[test]
fn registry_starts_empty() {
    let r = Registry::new();
    assert_eq!(r.version(), 0);
    assert_eq!(r.fetched_at(), 0);
    assert!(r.all().is_empty());
    assert!(r.get(&"a".to_string()).is_none());
}

#[test]
fn copy_is_independent() {
    let p = pod("a", PodStatus::Running);
    let mut c = p.copy();
    assert_eq!(c.containers, p.containers);
    assert_eq!(c.labels, p.labels);
    c.name.push('!');
    assert_eq!(p.name, "a");
}

#[test]
fn status_words() {
    assert_eq!(PodStatus::from_engine(&"Created".to_string()), PodStatus::Created);
    assert_eq!(PodStatus::from_engine(&"Running".to_string()), PodStatus::Running);
    assert_eq!(PodStatus::from_engine(&"Stopped".to_string()), PodStatus::Stopped);
    assert_eq!(PodStatus::from_engine(&"Exited".to_string()), PodStatus::Stopped);
    assert_eq!(PodStatus::from_engine(&"Removing".to_string()), PodStatus::Removing);
    assert_eq!(PodStatus::from_engine(&"Degraded".to_string()), PodStatus::Degraded);
    assert_eq!(PodStatus::from_engine(&"Paused".to_string()), PodStatus::Degraded);
    assert_eq!(PodStatus::from_engine(&"".to_string()), PodStatus::Degraded);
}

#[test]
fn exit_codes() {
    assert_eq!(LifecycleError::Transport(TransportError::SocketNotFound).exit_code(), 1);
    assert_eq!(LifecycleError::Transport(TransportError::MalformedResponse).exit_code(), 1);
    assert_eq!(LifecycleError::NotFound.exit_code(), 2);
    assert_eq!(LifecycleError::AlreadyInProgress.exit_code(), 3);
}
