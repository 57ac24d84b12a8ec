use teleport_collectd::backend::Backend;
use teleport_collectd::errors::TeleportError;
use teleport_collectd::path::Path;
use teleport_collectd::registry::Registry;

fn s(x: &str) -> String {
    x.to_string()
}

fn connected_backend() -> Backend {
    let mut backend = Backend::new();
    backend
        .init("teleport-collectd-test")
        .expect("the engine should start");
    backend
}

#[test]
fn resolve_or_create_is_idempotent() {
    let backend = connected_backend();
    let mut reg = Registry::new();
    let p = Path::from_segments(vec![s("h"), s("cpu")]);
    let first = reg.resolve_or_create(&backend, &p).unwrap();
    let second = reg.resolve_or_create(&backend, &p).unwrap();
    assert_eq!(first.id, second.id);
    assert_eq!(reg.endpoint_count(), 1);
}

#[test]
fn many_sequential_callers_observe_one_endpoint() {
    let backend = connected_backend();
    let mut reg = Registry::new();
    let p = Path::from_segments(vec![s("h"), s("cpu")]);
    let mut ids = Vec::new();
    for _ in 0..10 {
        ids.push(reg.resolve_or_create(&backend, &p).unwrap().id);
    }
    assert!(ids.iter().all(|&i| i == ids[0]));
    assert_eq!(reg.endpoint_count(), 1);
}

#[test]
fn resolve_finds_only_attached_paths() {
    let backend = connected_backend();
    let mut reg = Registry::new();
    let p = Path::from_segments(vec![s("h"), s("cpu")]);
    let q = Path::from_segments(vec![s("h"), s("mem")]);
    assert!(reg.resolve(&p).unwrap().is_none());
    let created = reg.resolve_or_create(&backend, &p).unwrap();
    let found = reg.resolve(&p).unwrap().expect("p is attached now");
    assert_eq!(found.id, created.id);
    assert!(found.path().equals(&p));
    assert!(reg.resolve(&q).unwrap().is_none());
}

#[test]
fn distinct_paths_get_distinct_endpoints() {
    let backend = connected_backend();
    let mut reg = Registry::new();
    let p = Path::from_segments(vec![s("h"), s("cpu")]);
    let q = Path::from_segments(vec![s("h"), s("mem")]);
    let ep = reg.resolve_or_create(&backend, &p).unwrap();
    let eq = reg.resolve_or_create(&backend, &q).unwrap();
    assert_ne!(ep.id, eq.id);
    assert_eq!(reg.endpoint_count(), 2);
}

#[test]
fn fresh_endpoint_is_inactive_until_activated() {
    let backend = connected_backend();
    let mut reg = Registry::new();
    let p = Path::from_segments(vec![s("h"), s("cpu")]);
    let e = reg.resolve_or_create(&backend, &p).unwrap();
    assert!(!reg.is_active(e.id).unwrap());
    assert_eq!(reg.set_active(&p, true).unwrap(), true);
    assert!(reg.is_active(e.id).unwrap());
    assert_eq!(reg.set_active(&p, false).unwrap(), true);
    assert!(!reg.is_active(e.id).unwrap());
}

#[test]
fn set_active_reports_unknown_paths() {
    let mut reg = Registry::new();
    let p = Path::from_segments(vec![s("h"), s("cpu")]);
    assert_eq!(reg.set_active(&p, true).unwrap(), false);
}

#[test]
fn poisoned_registry_propagates_the_failure() {
    let backend = connected_backend();
    let mut reg = Registry::new();
    reg.poison();
    let p = Path::from_segments(vec![s("h"), s("cpu")]);
    assert_eq!(
        reg.resolve_or_create(&backend, &p).unwrap_err(),
        TeleportError::LockPoisoned
    );
    assert_eq!(reg.resolve(&p).unwrap_err(), TeleportError::LockPoisoned);
    assert_eq!(
        reg.set_active(&p, true).unwrap_err(),
        TeleportError::LockPoisoned
    );
    // nothing was created along the way
    assert_eq!(reg.endpoint_count(), 0);
}

#[test]
fn creation_without_connection_is_refused() {
    let backend = Backend::new();
    let mut reg = Registry::new();
    let p = Path::from_segments(vec![s("h"), s("cpu")]);
    assert_eq!(
        reg.resolve_or_create(&backend, &p).unwrap_err(),
        TeleportError::BackendUnavailable
    );
    assert_eq!(reg.endpoint_count(), 0);
    // resolution of an attached path still works without a connection
    assert!(reg.resolve(&p).unwrap().is_none());
}

#[test]
fn error_descriptions() {
    assert_eq!(
        TeleportError::LockPoisoned.describe(),
        "registry lock poisoned"
    );
    assert_eq!(
        TeleportError::BackendUnavailable.describe(),
        "backend connection unavailable"
    );
}

#[test]
fn backend_lifecycle() {
    let mut backend = Backend::new();
    assert!(!backend.is_connected());
    backend.init("teleport-collectd-test").unwrap();
    assert!(backend.is_connected());
    backend.shutdown();
    assert!(!backend.is_connected());
    let mut reg = Registry::new();
    let p = Path::from_segments(vec![s("h"), s("cpu")]);
    assert_eq!(
        reg.resolve_or_create(&backend, &p).unwrap_err(),
        TeleportError::BackendUnavailable
    );
}

#[test]
fn activation_survives_resolution() {
    let backend = connected_backend();
    let mut reg = Registry::new();
    let p = Path::from_segments(vec![s("h"), s("cpu")]);
    let e = reg.resolve_or_create(&backend, &p).unwrap();
    reg.set_active(&p, true).unwrap();
    let again = reg.resolve(&p).unwrap().expect("attached");
    assert_eq!(again.id, e.id);
    assert!(reg.is_active(again.id).unwrap());
}
