use vstd::prelude::*;

verus! {

/// One custom HTTP header attached to a provider configuration.
#[derive(Debug, Clone)]
pub struct ProviderCustomHeader {
    pub header: String,
    pub value: String,
}

/// Configuration for one remote model provider.
#[derive(Debug, Clone)]
pub struct ProviderConfig {
    pub provider: String,
    pub api_key: Option<String>,
    pub base_url: Option<String>,
    pub custom_headers: Vec<ProviderCustomHeader>,
    pub models: Vec<String>,
}

impl Default for ProviderConfig {
    fn default() -> (r: Self)
        ensures
            r.provider@ == Seq::<char>::empty(),
            r.api_key is None,
            r.base_url is None,
            r.custom_headers@ == Seq::<ProviderCustomHeader>::empty(),
            r.models@ == Seq::<String>::empty(),
    {
        ProviderConfig {
            provider: String::new(),
            api_key: None,
            base_url: None,
            custom_headers: Vec::new(),
            models: Vec::new(),
        }
    }
}

/// URLs for the four backend services.
/// Defaults point to localhost with per-service ports.
#[derive(Debug, Clone)]
pub struct AxFabricServiceConfig {
    /// API service: OpenAI-compatible model inference proxy.
    pub api_service_url: String,
    /// Retrieval service: document ingestion, embedding, semantic search.
    pub retrieval_service_url: String,
    /// Agents service: AI agent orchestration.
    pub agents_service_url: String,
    /// AkiDB: vector database REST API.
    pub akidb_url: String,
}

impl Default for AxFabricServiceConfig {
    fn default() -> (r: Self)
        ensures
            r.api_service_url@ == "http://127.0.0.1:8000"@,
            r.retrieval_service_url@ == "http://127.0.0.1:8001"@,
            r.agents_service_url@ == "http://127.0.0.1:8002"@,
            r.akidb_url@ == "http://127.0.0.1:8003"@,
    {
        AxFabricServiceConfig {
            api_service_url: "http://127.0.0.1:8000".to_owned(),
            retrieval_service_url: "http://127.0.0.1:8001".to_owned(),
            agents_service_url: "http://127.0.0.1:8002".to_owned(),
            akidb_url: "http://127.0.0.1:8003".to_owned(),
        }
    }
}

} // verus!
