use teleport_collectd::backend::Backend;
use teleport_collectd::errors::{TeleportError, WriteOutcome};
use teleport_collectd::levels::{all_levels, level_name, Level};
use teleport_collectd::path::{build_basic, Path};
use teleport_collectd::plugin::{
    capabilities, plugin_name, NamedValue, Report, TeleportPlugin,
};

fn s(x: &str) -> String {
    x.to_string()
}

fn connected_backend() -> Backend {
    let mut backend = Backend::new();
    backend
        .init("teleport-collectd-test")
        .expect("the engine should start");
    backend
}

fn cpu_report(names: &[&str]) -> Report {
    Report {
        host: s("h"),
        source: s("cpu"),
        source_instance: None,
        metric_type: s("cpu"),
        type_instance: None,
        timestamp: s("1700000000"),
        values: names
            .iter()
            .map(|n| NamedValue { name: s(n), value: s("1") })
            .collect(),
    }
}

#[test]
fn multi_value_fan_out_creates_one_endpoint_per_name() {
    let backend = connected_backend();
    let mut plugin = TeleportPlugin::new(&backend).unwrap();
    let report = cpu_report(&["user", "system", "idle"]);
    plugin.write_values(&backend, &report).unwrap();
    assert_eq!(plugin.endpoint_count(), 3);
    let basic = build_basic(&s("h"), &s("cpu"), &None, &s("cpu"), &None);
    for name in ["user", "system", "idle"] {
        let p = basic.child(&s(name));
        assert!(plugin.resolve(&p).unwrap().is_some());
    }
    // the basic path itself gets no endpoint for a multi-valued report
    assert!(plugin.resolve(&basic).unwrap().is_none());
}

#[test]
fn duplicate_value_names_share_one_endpoint() {
    let backend = connected_backend();
    let mut plugin = TeleportPlugin::new(&backend).unwrap();
    let report = cpu_report(&["user", "user"]);
    plugin.write_values(&backend, &report).unwrap();
    assert_eq!(plugin.endpoint_count(), 1);
}

#[test]
fn single_value_report_uses_the_basic_path() {
    let backend = connected_backend();
    let mut plugin = TeleportPlugin::new(&backend).unwrap();
    let report = cpu_report(&["value"]);
    plugin.write_values(&backend, &report).unwrap();
    assert_eq!(plugin.endpoint_count(), 1);
    let basic = build_basic(&s("h"), &s("cpu"), &None, &s("cpu"), &None);
    assert!(plugin.resolve(&basic).unwrap().is_some());
    assert!(plugin.resolve(&basic.child(&s("value"))).unwrap().is_none());
}

#[test]
fn end_to_end_batch_reused_on_second_delivery() {
    let backend = connected_backend();
    let mut plugin = TeleportPlugin::new(&backend).unwrap();
    let report = Report {
        host: s("h1"),
        source: s("disk"),
        source_instance: Some(s("sda")),
        metric_type: s("disk_octets"),
        type_instance: None,
        timestamp: s("1700000000"),
        values: vec![
            NamedValue { name: s("read"), value: s("10") },
            NamedValue { name: s("write"), value: s("20") },
        ],
    };
    plugin.write_values(&backend, &report).unwrap();
    assert_eq!(plugin.endpoint_count(), 2);
    let read_path = Path::from_segments(vec![
        s("h1"),
        s("disk"),
        s("sda"),
        s("disk_octets"),
        s("read"),
    ]);
    let write_path = Path::from_segments(vec![
        s("h1"),
        s("disk"),
        s("sda"),
        s("disk_octets"),
        s("write"),
    ]);
    let read_ep = plugin.resolve(&read_path).unwrap().expect("read endpoint");
    let write_ep = plugin.resolve(&write_path).unwrap().expect("write endpoint");
    assert_ne!(read_ep.id, write_ep.id);
    // an identical second batch creates nothing new
    plugin.write_values(&backend, &report).unwrap();
    assert_eq!(plugin.endpoint_count(), 2);
    let again = plugin.resolve(&read_path).unwrap().expect("still there");
    assert_eq!(again.id, read_ep.id);
}

#[test]
fn inactive_endpoint_is_silent_and_write_succeeds() {
    let backend = connected_backend();
    let mut plugin = TeleportPlugin::new(&backend).unwrap();
    let p = Path::from_segments(vec![s("h"), s("cpu")]);
    let first = plugin.write_value(&backend, &p, "0", "1").unwrap();
    assert_eq!(first, WriteOutcome::Created);
    let second = plugin.write_value(&backend, &p, "0", "2").unwrap();
    assert_eq!(second, WriteOutcome::Inactive);
    assert_eq!(plugin.set_path_active(&p, true).unwrap(), true);
    let third = plugin.write_value(&backend, &p, "0", "3").unwrap();
    assert_eq!(third, WriteOutcome::Logged);
    assert_eq!(plugin.endpoint_count(), 1);
}

#[test]
fn poisoned_registry_aborts_the_batch() {
    let backend = connected_backend();
    let mut plugin = TeleportPlugin::new(&backend).unwrap();
    plugin.poison();
    assert!(plugin.is_poisoned());
    let report = cpu_report(&["user", "system"]);
    assert_eq!(
        plugin.write_values(&backend, &report).unwrap_err(),
        TeleportError::LockPoisoned
    );
    assert_eq!(plugin.endpoint_count(), 0);
}

#[test]
fn batch_without_connection_reports_one_error() {
    let backend = connected_backend();
    let mut plugin = TeleportPlugin::new(&backend).unwrap();
    let mut gone = Backend::new();
    gone.shutdown();
    let report = cpu_report(&["user", "system"]);
    assert_eq!(
        plugin.write_values(&gone, &report).unwrap_err(),
        TeleportError::BackendUnavailable
    );
    assert_eq!(plugin.endpoint_count(), 0);
    // once the endpoints exist, the batch succeeds even without a connection
    plugin.write_values(&backend, &report).unwrap();
    plugin.write_values(&gone, &report).unwrap();
    assert_eq!(plugin.endpoint_count(), 2);
}

#[test]
fn level_log_respects_activity() {
    let backend = connected_backend();
    let mut plugin = TeleportPlugin::new(&backend).unwrap();
    assert_eq!(plugin.log(Level::Info, "hello"), WriteOutcome::Inactive);
    plugin.set_level_active(Level::Info, true);
    assert_eq!(plugin.log(Level::Info, "hello"), WriteOutcome::Logged);
    // other levels are untouched
    assert_eq!(plugin.log(Level::Error, "boom"), WriteOutcome::Inactive);
    plugin.set_level_active(Level::Info, false);
    assert_eq!(plugin.log(Level::Info, "bye"), WriteOutcome::Inactive);
}

#[test]
fn plugin_creation_needs_a_connection() {
    let backend = Backend::new();
    match TeleportPlugin::new(&backend) {
        Err(TeleportError::BackendUnavailable) => {},
        _ => panic!("creation before init must be refused"),
    }
}

#[test]
fn level_names_and_order() {
    let levels = all_levels();
    assert_eq!(
        levels,
        vec![
            Level::Error,
            Level::Warning,
            Level::Notice,
            Level::Info,
            Level::Debug
        ]
    );
    let names: Vec<&str> = levels.iter().map(|l| level_name(*l)).collect();
    assert_eq!(names, vec!["error", "warning", "notice", "info", "debug"]);
}

#[test]
fn declared_capabilities() {
    let c = capabilities();
    assert!(c.write);
    assert!(c.log);
    assert_eq!(plugin_name(), "teleport-collectd");
}

#[test]
fn activation_is_per_endpoint() {
    let backend = connected_backend();
    let mut plugin = TeleportPlugin::new(&backend).unwrap();
    let report = cpu_report(&["user", "system"]);
    plugin.write_values(&backend, &report).unwrap();
    let basic = build_basic(&s("h"), &s("cpu"), &None, &s("cpu"), &None);
    let user = basic.child(&s("user"));
    let system = basic.child(&s("system"));
    assert_eq!(plugin.set_path_active(&user, true).unwrap(), true);
    assert_eq!(
        plugin.write_value(&backend, &user, "0", "1").unwrap(),
        WriteOutcome::Logged
    );
    assert_eq!(
        plugin.write_value(&backend, &system, "0", "1").unwrap(),
        WriteOutcome::Inactive
    );
}

#[test]
fn reports_with_different_metadata_accumulate() {
    let backend = connected_backend();
    let mut plugin = TeleportPlugin::new(&backend).unwrap();
    let mut a = cpu_report(&["value"]);
    let mut b = cpu_report(&["value"]);
    a.host = s("h1");
    b.host = s("h2");
    plugin.write_values(&backend, &a).unwrap();
    plugin.write_values(&backend, &b).unwrap();
    assert_eq!(plugin.endpoint_count(), 2);
    plugin.write_values(&backend, &a).unwrap();
    assert_eq!(plugin.endpoint_count(), 2);
}
