use mcp_supervisor::errors::McpError;
use mcp_supervisor::registry::RunningServiceEnum;
use mcp_supervisor::supervisor::AppState;

fn populated_state() -> AppState {
    let mut st = AppState::new();
    st.register_service("search".to_string(), RunningServiceEnum::NoInit(1), 11)
        .unwrap();
    st.register_service("index".to_string(), RunningServiceEnum::WithInit(2), 12)
        .unwrap();
    st.set_process_id(&"search".to_string(), 4242).unwrap();
    st.begin_tool_call(&"search".to_string(), "inflight".to_string())
        .unwrap();
    st.background_cleanup_handle = Some(99);
    st
}

#[test]
fn first_shutdown_hands_out_everything_to_tear_down() {
    let mut st = populated_state();
    let plan = st.shutdown();
    assert!(plan.performed);

    let mut monitors = plan.monitors_to_stop.clone();
    monitors.sort_by(|a, b| a.0.cmp(&b.0));
    assert_eq!(
        monitors,
        vec![("index".to_string(), 12), ("search".to_string(), 11)]
    );
    assert_eq!(plan.cleanup_to_stop, Some(99));
    assert_eq!(plan.calls_to_cancel, vec!["inflight".to_string()]);

    let mut services = plan.services_to_close.clone();
    services.sort_by(|a, b| a.0.cmp(&b.0));
    assert_eq!(
        services,
        vec![
            ("index".to_string(), RunningServiceEnum::WithInit(2)),
            ("search".to_string(), RunningServiceEnum::NoInit(1)),
        ]
    );
    assert_eq!(
        plan.pids_to_terminate,
        vec![("search".to_string(), 4242)]
    );
}

#[test]
fn shutdown_is_idempotent_and_tears_down_once() {
    let mut st = populated_state();
    let first = st.shutdown();
    assert!(first.performed);
    for _ in 0..3 {
        let again = st.shutdown();
        assert!(!again.performed);
        assert!(again.monitors_to_stop.is_empty());
        assert!(again.cleanup_to_stop.is_none());
        assert!(again.calls_to_cancel.is_empty());
        assert!(again.services_to_close.is_empty());
        assert!(again.pids_to_terminate.is_empty());
    }
}

#[test]
fn after_shutdown_every_table_is_empty_and_new_work_is_refused() {
    let mut st = populated_state();
    st.shutdown();

    assert!(st.mcp_servers.is_empty());
    assert!(st.tool_call_cancellations.is_empty());
    assert_eq!(st.mcp_server_pids.get(&"search".to_string()), None);
    assert_eq!(st.mcp_monitoring_tasks.get(&"search".to_string()), None);
    assert!(st.mcp_servers.list_names().is_empty());

    assert!(matches!(
        st.register_service("late".to_string(), RunningServiceEnum::NoInit(9), 13),
        Err(McpError::ShutdownInProgress)
    ));
    assert!(matches!(
        st.begin_tool_call(&"search".to_string(), "late-call".to_string()),
        Err(McpError::ShutdownInProgress)
    ));
    assert!(matches!(
        st.set_process_id(&"search".to_string(), 1),
        Err(McpError::ShutdownInProgress)
    ));
}

#[test]
fn shutdown_of_a_fresh_state_still_flips_the_flag() {
    let mut st = AppState::new();
    let plan = st.shutdown();
    assert!(plan.performed);
    assert!(plan.monitors_to_stop.is_empty());
    assert!(plan.cleanup_to_stop.is_none());
    assert!(st.mcp_shutdown_in_progress);
    let again = st.shutdown();
    assert!(!again.performed);
}
