use mcp_supervisor::errors::McpError;
use mcp_supervisor::registry::RunningServiceEnum;
use mcp_supervisor::supervisor::{AppState, CallOutcome};

fn state_with_search() -> AppState {
    let mut st = AppState::new();
    st.register_service("search".to_string(), RunningServiceEnum::NoInit(1), 11)
        .unwrap();
    st
}

#[test]
fn cancelled_call_is_observed_and_entry_leaves() {
    let mut st = state_with_search();
    let begun = st.begin_tool_call(&"search".to_string(), "call-1".to_string());
    assert!(matches!(begun, Ok(RunningServiceEnum::NoInit(1))));
    assert!(matches!(st.cancel_tool_call(&"call-1".to_string()), Ok(())));
    let fin = st.finish_tool_call(
        &"search".to_string(),
        &"call-1".to_string(),
        CallOutcome::Completed("late result".to_string()),
    );
    assert!(matches!(fin, Err(McpError::Cancelled)));
    assert!(!st.tool_call_cancellations.contains(&"call-1".to_string()));
}

#[test]
fn registry_entry_survives_a_cancelled_call() {
    let mut st = state_with_search();
    st.begin_tool_call(&"search".to_string(), "call-1".to_string())
        .unwrap();
    st.cancel_tool_call(&"call-1".to_string()).unwrap();
    let fin = st.finish_tool_call(
        &"search".to_string(),
        &"call-1".to_string(),
        CallOutcome::Completed("discarded".to_string()),
    );
    assert!(matches!(fin, Err(McpError::Cancelled)));

    let begun = st.begin_tool_call(&"search".to_string(), "call-2".to_string());
    assert!(matches!(begun, Ok(RunningServiceEnum::NoInit(1))));
    let fin = st.finish_tool_call(
        &"search".to_string(),
        &"call-2".to_string(),
        CallOutcome::Completed("answer".to_string()),
    );
    assert_eq!(fin.unwrap(), "answer".to_string());
}

#[test]
fn cancelling_an_absent_call_fails_without_side_effect() {
    let mut st = state_with_search();
    assert!(matches!(
        st.cancel_tool_call(&"never-started".to_string()),
        Err(McpError::NotFound)
    ));

    st.begin_tool_call(&"search".to_string(), "done".to_string())
        .unwrap();
    let fin = st.finish_tool_call(
        &"search".to_string(),
        &"done".to_string(),
        CallOutcome::Completed("ok".to_string()),
    );
    assert_eq!(fin.unwrap(), "ok".to_string());
    assert!(matches!(
        st.cancel_tool_call(&"done".to_string()),
        Err(McpError::NotFound)
    ));
}

#[test]
fn firing_a_cancellation_twice_is_a_noop() {
    let mut st = state_with_search();
    st.begin_tool_call(&"search".to_string(), "c".to_string())
        .unwrap();
    assert!(matches!(st.cancel_tool_call(&"c".to_string()), Ok(())));
    assert!(matches!(st.cancel_tool_call(&"c".to_string()), Ok(())));
    let fin = st.finish_tool_call(
        &"search".to_string(),
        &"c".to_string(),
        CallOutcome::Completed("x".to_string()),
    );
    assert!(matches!(fin, Err(McpError::Cancelled)));
}

#[test]
fn remote_failure_is_tagged_with_service_name() {
    let mut st = state_with_search();
    st.begin_tool_call(&"search".to_string(), "c".to_string())
        .unwrap();
    let fin = st.finish_tool_call(
        &"search".to_string(),
        &"c".to_string(),
        CallOutcome::Failed("boom".to_string()),
    );
    match fin {
        Err(McpError::ServiceError { service, message }) => {
            assert_eq!(service, "search".to_string());
            assert_eq!(message, "boom".to_string());
        }
        other => panic!("expected a tagged service error, got {:?}", other),
    }
}

#[test]
fn begin_rejects_unknown_service_and_duplicate_call_id() {
    let mut st = state_with_search();
    assert!(matches!(
        st.begin_tool_call(&"missing".to_string(), "c".to_string()),
        Err(McpError::NotFound)
    ));
    st.begin_tool_call(&"search".to_string(), "c".to_string())
        .unwrap();
    assert!(matches!(
        st.begin_tool_call(&"search".to_string(), "c".to_string()),
        Err(McpError::AlreadyRunning)
    ));
}

#[test]
fn monitor_detected_death_evicts_the_service() {
    let mut st = state_with_search();
    st.set_process_id(&"search".to_string(), 4242).unwrap();
    let dead = st.service_died(&"search".to_string());
    assert_eq!(dead, Some(RunningServiceEnum::NoInit(1)));
    assert!(matches!(
        st.mcp_servers.lookup(&"search".to_string()),
        Err(McpError::NotFound)
    ));
    assert!(st.mcp_servers.is_empty());
    assert_eq!(st.service_died(&"search".to_string()), None);
}

#[test]
fn death_of_one_service_leaves_the_others_alone() {
    let mut st = state_with_search();
    st.register_service("index".to_string(), RunningServiceEnum::WithInit(2), 12)
        .unwrap();
    st.service_died(&"search".to_string());
    assert_eq!(
        st.mcp_servers.lookup(&"index".to_string()).unwrap(),
        RunningServiceEnum::WithInit(2)
    );
}

#[test]
fn plain_dispatch_looks_up_and_tags_failures() {
    let mut st = state_with_search();
    let h = st.lookup_service(&"search".to_string()).unwrap();
    assert_eq!(h, RunningServiceEnum::NoInit(1));
    assert!(matches!(
        st.lookup_service(&"missing".to_string()),
        Err(McpError::NotFound)
    ));
    assert_eq!(
        CallOutcome::Completed("tools".to_string())
            .into_result(&"search".to_string())
            .unwrap(),
        "tools".to_string()
    );
    match CallOutcome::Failed("down".to_string()).into_result(&"search".to_string()) {
        Err(McpError::ServiceError { service, message }) => {
            assert_eq!(service, "search".to_string());
            assert_eq!(message, "down".to_string());
        }
        other => panic!("expected a tagged service error, got {:?}", other),
    }
    st.shutdown();
    assert!(matches!(
        st.lookup_service(&"search".to_string()),
        Err(McpError::ShutdownInProgress)
    ));
}

#[test]
fn set_process_id_requires_a_registered_service() {
    let mut st = AppState::new();
    assert!(matches!(
        st.set_process_id(&"nobody".to_string(), 1),
        Err(McpError::NotFound)
    ));
}

#[test]
fn status_snapshot_is_refreshed_and_evicted() {
    let mut st = state_with_search();
    st.update_active_service("search".to_string(), "healthy".to_string());
    assert_eq!(
        st.mcp_active_servers.get(&"search".to_string()),
        Some(&"healthy".to_string())
    );
    st.service_died(&"search".to_string());
    assert_eq!(st.mcp_active_servers.get(&"search".to_string()), None);
}

#[test]
fn sweep_drops_only_the_expired_entries() {
    let mut st = state_with_search();
    st.begin_tool_call(&"search".to_string(), "stale".to_string())
        .unwrap();
    st.begin_tool_call(&"search".to_string(), "fresh".to_string())
        .unwrap();
    st.sweep_expired_calls(&vec!["stale".to_string(), "unknown".to_string()]);
    assert!(!st.tool_call_cancellations.contains(&"stale".to_string()));
    assert!(st.tool_call_cancellations.contains(&"fresh".to_string()));
    assert!(matches!(st.cancel_tool_call(&"fresh".to_string()), Ok(())));
    assert!(matches!(
        st.cancel_tool_call(&"stale".to_string()),
        Err(McpError::NotFound)
    ));
}
