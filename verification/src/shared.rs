//! The types exchanged between the backend and the user interface, and the
//! default application configuration.

use vstd::prelude::*;
use crate::json::JsonValue;

verus! {

broadcast use vstd::string::group_string_axioms;

/// A file of a SharePoint library as the interface shows it.
#[derive(Debug, Clone)]
pub struct SharePointFile {
    pub name: String,
    pub url: String,
    pub size: u64,
    pub last_modified: String,
    pub content_type: String,
}

/// A Dataverse record as the interface shows it: its fields in order.
#[derive(Debug)]
pub struct DataverseRecord {
    pub id: String,
    pub logical_name: String,
    pub fields: Vec<(String, JsonValue)>,
}

/// Who wrote a chat message.
#[derive(Debug, Clone, Copy, PartialEq, Eq, Structural)]
pub enum MessageRole {
    User,
    Assistant,
    System,
}

/// A chat message with its id and time.
#[derive(Debug, Clone)]
pub struct ChatMessage {
    pub id: String,
    pub role: MessageRole,
    pub content: String,
    pub timestamp: u64,
}

/// Whether the MCP server runs, on which port, and for how long.
#[derive(Debug, Clone, Copy, PartialEq, Eq, Structural)]
pub struct ServerStatus {
    pub running: bool,
    pub port: u16,
    pub uptime_seconds: Option<u64>,
}

/// Which services are signed in.
#[derive(Debug, Clone, Copy, PartialEq, Eq, Structural)]
pub struct AuthStatus {
    pub sharepoint_authenticated: bool,
    pub dataverse_authenticated: bool,
    pub claude_authenticated: bool,
}

/// A search request: the query, how many results, and which sources.
#[derive(Debug, Clone)]
pub struct SearchRequest {
    pub query: String,
    pub top_k: Option<usize>,
    pub sources: Option<Vec<String>>,
}

/// A sign-in request for a service.
#[derive(Debug, Clone)]
pub struct AuthRequest {
    pub service: String,
    pub tenant_id: Option<String>,
    pub client_id: Option<String>,
}

/// The application configuration.
#[derive(Debug, Clone)]
pub struct AppConfig {
    pub mcp_server_port: u16,
    pub max_chunk_size: usize,
    pub embedding_model: String,
    pub vector_db_path: String,
    pub sharepoint_site_url: Option<String>,
    pub dataverse_base_url: Option<String>,
}

impl Default for AppConfig {
    /// Port 3721, chunks of up to 1000, the mock embedding model, the vector
    /// store under `data/vectors.db`, and no SharePoint or Dataverse URL.
    fn default() -> (c: AppConfig)
        ensures
            c.mcp_server_port == 3721,
            c.max_chunk_size == 1000,
            c.embedding_model@ == "mock"@,
            c.vector_db_path@ == "data/vectors.db"@,
            c.sharepoint_site_url is None,
            c.dataverse_base_url is None,
    {
        AppConfig {
            mcp_server_port: 3721,
            max_chunk_size: 1000,
            embedding_model: String::from_str("mock"),
            vector_db_path: String::from_str("data/vectors.db"),
            sharepoint_site_url: None,
            dataverse_base_url: None,
        }
    }
}

} // verus!
