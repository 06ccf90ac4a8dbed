use mcp_supervisor::errors::McpError;
use mcp_supervisor::registry::{RunningServiceEnum, ServiceRegistry};

#[test]
fn register_lookup_remove_roundtrip() {
    let mut reg = ServiceRegistry::new();
    assert!(reg.is_empty());
    assert!(matches!(
        reg.register("search".to_string(), RunningServiceEnum::NoInit(1)),
        Ok(())
    ));
    assert!(!reg.is_empty());
    assert!(reg.contains(&"search".to_string()));
    let h = reg.lookup(&"search".to_string());
    assert!(matches!(h, Ok(RunningServiceEnum::NoInit(1))));
    let removed = reg.remove(&"search".to_string());
    assert_eq!(removed, Some(RunningServiceEnum::NoInit(1)));
    assert!(matches!(
        reg.lookup(&"search".to_string()),
        Err(McpError::NotFound)
    ));
}

#[test]
fn register_duplicate_fails_and_preserves_entry() {
    let mut reg = ServiceRegistry::new();
    reg.register("search".to_string(), RunningServiceEnum::NoInit(1))
        .unwrap();
    let dup = reg.register("search".to_string(), RunningServiceEnum::WithInit(2));
    assert!(matches!(dup, Err(McpError::AlreadyRunning)));
    let h = reg.lookup(&"search".to_string()).unwrap();
    assert_eq!(h, RunningServiceEnum::NoInit(1));
}

#[test]
fn remove_is_idempotent() {
    let mut reg = ServiceRegistry::new();
    assert_eq!(reg.remove(&"ghost".to_string()), None);
    reg.register("a".to_string(), RunningServiceEnum::NoInit(3))
        .unwrap();
    assert_eq!(
        reg.remove(&"a".to_string()),
        Some(RunningServiceEnum::NoInit(3))
    );
    assert_eq!(reg.remove(&"a".to_string()), None);
}

#[test]
fn sequence_of_ops_has_per_name_net_effect() {
    let mut reg = ServiceRegistry::new();
    reg.register("a".to_string(), RunningServiceEnum::NoInit(1))
        .unwrap();
    reg.register("b".to_string(), RunningServiceEnum::WithInit(2))
        .unwrap();
    reg.remove(&"a".to_string());
    reg.register("c".to_string(), RunningServiceEnum::NoInit(3))
        .unwrap();
    reg.register("a".to_string(), RunningServiceEnum::WithInit(4))
        .unwrap();
    reg.remove(&"b".to_string());

    let mut names = reg.list_names();
    names.sort();
    assert_eq!(names, vec!["a".to_string(), "c".to_string()]);
    assert_eq!(
        reg.lookup(&"a".to_string()).unwrap(),
        RunningServiceEnum::WithInit(4)
    );
    assert_eq!(
        reg.lookup(&"c".to_string()).unwrap(),
        RunningServiceEnum::NoInit(3)
    );
}

#[test]
fn list_names_snapshots_every_entry_once() {
    let mut reg = ServiceRegistry::new();
    reg.register("x".to_string(), RunningServiceEnum::NoInit(1))
        .unwrap();
    reg.register("y".to_string(), RunningServiceEnum::NoInit(2))
        .unwrap();
    let mut names = reg.list_names();
    names.sort();
    assert_eq!(names, vec!["x".to_string(), "y".to_string()]);
}

#[test]
fn entries_snapshot_pairs_names_with_handles() {
    let mut reg = ServiceRegistry::new();
    reg.register("x".to_string(), RunningServiceEnum::NoInit(1))
        .unwrap();
    reg.register("y".to_string(), RunningServiceEnum::WithInit(2))
        .unwrap();
    let mut entries = reg.entries();
    entries.sort_by(|a, b| a.0.cmp(&b.0));
    assert_eq!(
        entries,
        vec![
            ("x".to_string(), RunningServiceEnum::NoInit(1)),
            ("y".to_string(), RunningServiceEnum::WithInit(2)),
        ]
    );
}

#[test]
fn connection_is_variant_independent() {
    assert_eq!(RunningServiceEnum::NoInit(5).connection(), 5);
    assert_eq!(RunningServiceEnum::WithInit(7).connection(), 7);
}
