use mcp_desktop::json::{member, JsonValue};
use mcp_desktop::mcp::{api_access_allowed, audit_status, search_results, tools_call, tools_list};
use mcp_desktop::permissions::{PermissionLevel, UserRole};
use mcp_desktop::shared::{AppConfig, MessageRole, ServerStatus};

#[test]
fn tools_listing() {
    let list = tools_list();
    let names: Vec<&str> = list
        .get("tools")
        .and_then(|t| t.as_array())
        .unwrap()
        .iter()
        .map(|n| n.as_str().unwrap())
        .collect();
    assert_eq!(names, vec!["search", "echo", "search_documents", "fetch_sharepoint_files", "query_dataverse"]);
}

#[test]
fn api_access_by_role() {
    assert!(!api_access_allowed(UserRole::Viewer, "/tools/call"));
    assert!(api_access_allowed(UserRole::Viewer, "/tools/list"));
    assert!(api_access_allowed(UserRole::Analyst, "/tools/call"));
    assert!(api_access_allowed(UserRole::Admin, "/tools/call"));
    assert_eq!(audit_status(true), "success");
    assert_eq!(audit_status(false), "failed");
}

#[test]
fn tool_calls_through_the_server() {
    let args = JsonValue::Object(vec![member("x", JsonValue::Bool(true))]);
    let r = tools_call("nope", &args, PermissionLevel::ReadOnly);
    assert_eq!(r.get("error").and_then(|e| e.as_str()), Some("Tool not found"));
    let e = tools_call("echo", &args, PermissionLevel::ReadOnly);
    assert!(matches!(e.get("echo").and_then(|v| v.get("x")), Some(JsonValue::Bool(true))));
    assert_eq!(search_results(), vec!["Mock search result".to_string()]);
}

#[test]
fn default_configuration() {
    let c = AppConfig::default();
    assert_eq!(c.mcp_server_port, 3721);
    assert_eq!(c.max_chunk_size, 1000);
    assert_eq!(c.embedding_model, "mock");
    assert_eq!(c.vector_db_path, "data/vectors.db");
    assert!(c.sharepoint_site_url.is_none() && c.dataverse_base_url.is_none());
    let s = ServerStatus { running: true, port: 3721, uptime_seconds: None };
    assert_eq!(s, ServerStatus { running: true, port: 3721, uptime_seconds: None });
    assert_ne!(MessageRole::User, MessageRole::System);
}
