use mcp_supervisor::config::{AxFabricServiceConfig, ProviderConfig};
use mcp_supervisor::supervisor::AppState;

#[test]
fn service_config_defaults_to_local_ports() {
    let cfg = AxFabricServiceConfig::default();
    assert_eq!(cfg.api_service_url, "http://127.0.0.1:8000".to_string());
    assert_eq!(cfg.retrieval_service_url, "http://127.0.0.1:8001".to_string());
    assert_eq!(cfg.agents_service_url, "http://127.0.0.1:8002".to_string());
    assert_eq!(cfg.akidb_url, "http://127.0.0.1:8003".to_string());
}

#[test]
fn provider_config_defaults_to_empty() {
    let cfg = ProviderConfig::default();
    assert_eq!(cfg.provider, String::new());
    assert!(cfg.api_key.is_none());
    assert!(cfg.base_url.is_none());
    assert!(cfg.custom_headers.is_empty());
    assert!(cfg.models.is_empty());
}

#[test]
fn fresh_state_starts_idle_with_default_urls() {
    let st = AppState::new();
    assert!(!st.mcp_shutdown_in_progress);
    assert!(st.app_token.is_none());
    assert!(st.server_handle.is_none());
    assert!(st.background_cleanup_handle.is_none());
    assert!(st.mcp_servers.is_empty());
    assert!(st.tool_call_cancellations.is_empty());
    assert_eq!(
        st.ax_fabric_service_config.api_service_url,
        "http://127.0.0.1:8000".to_string()
    );
}

#[test]
fn provider_configs_are_stored_per_provider() {
    let mut st = AppState::new();
    let mut cfg = ProviderConfig::default();
    cfg.provider = "acme".to_string();
    cfg.models = vec!["acme-large".to_string()];
    st.provider_configs.set_value("acme".to_string(), cfg);
    let stored = st.provider_configs.get(&"acme".to_string()).unwrap();
    assert_eq!(stored.provider, "acme".to_string());
    assert_eq!(stored.models, vec!["acme-large".to_string()]);
    assert!(st.provider_configs.get(&"other".to_string()).is_none());
}
