use mcp_desktop::commands::{
    chat_reply, claude_key_saved_message, database_missing_message, discovery_started_message,
    fetch_sharepoint_files, get_server_status, history_messages, parse_dataverse_records,
    parse_search_hits, parse_sharepoint_files, query_dataverse, search_documents,
    semantic_results_if_any, MCP_SERVER_PORT,
};
use mcp_desktop::json::{member, JsonNumber, JsonValue};
use mcp_desktop::permissions::PermissionLevel;
use mcp_desktop::tools::{call_tool, find_tool, get_tools, ToolKind};

fn text(s: &str) -> JsonValue {
    JsonValue::String(s.to_string())
}

fn obj(ms: Vec<(&str, JsonValue)>) -> JsonValue {
    JsonValue::Object(ms.into_iter().map(|(k, v)| member(k, v)).collect())
}

fn get_text<'a>(v: &'a JsonValue, key: &str) -> Option<&'a str> {
    v.get(key).and_then(|x| x.as_str())
}

#[test]
fn tool_table_has_five_read_only_tools() {
    let tools = get_tools();
    let names: Vec<&str> = tools.iter().map(|t| t.name.as_str()).collect();
    assert_eq!(names, vec!["echo", "search", "search_documents", "fetch_sharepoint_files", "query_dataverse"]);
    assert!(tools.iter().all(|t| t.required_permission == PermissionLevel::ReadOnly));
    assert!(matches!(find_tool(&tools, "query_dataverse").map(|t| t.kind), Some(ToolKind::QueryDataverse)));
    assert!(find_tool(&tools, "Echo").is_none());
}

#[test]
fn call_tool_echo_and_search() {
    let args = obj(vec![("query", text("budget"))]);
    let echoed = call_tool("echo", &args, PermissionLevel::ReadOnly);
    assert_eq!(echoed.get("echo").and_then(|v| get_text(v, "query")), Some("budget"));
    let found = call_tool("search", &args, PermissionLevel::ReadOnly);
    let results = found.get("results").and_then(|r| r.as_array()).unwrap();
    assert_eq!(results.len(), 1);
    assert_eq!(results[0].as_str(), Some("Found docs for: budget"));
    let none = call_tool("search", &obj(vec![]), PermissionLevel::ReadWrite);
    assert_eq!(none.get("results").and_then(|r| r.as_array()).unwrap()[0].as_str(), Some("Found docs for: "));
}

#[test]
fn call_tool_unknown_name() {
    let r = call_tool("delete_everything", &obj(vec![]), PermissionLevel::ReadWrite);
    assert_eq!(get_text(&r, "error"), Some("Tool not found"));
}

#[test]
fn call_tool_query_dataverse_defaults_and_filter() {
    let r = call_tool("query_dataverse", &obj(vec![]), PermissionLevel::ReadOnly);
    assert_eq!(get_text(&r, "table"), Some("accounts"));
    assert!(r.get("filter").is_none());
    let r2 = call_tool(
        "query_dataverse",
        &obj(vec![("table_name", text("contacts")), ("filter", text("name eq 'x'"))]),
        PermissionLevel::ReadOnly,
    );
    assert_eq!(get_text(&r2, "table"), Some("contacts"));
    assert_eq!(get_text(&r2, "filter"), Some("name eq 'x'"));
}

#[test]
fn search_documents_command_reads_the_sample_hit() {
    let hits = search_documents("quarterly plan", Some(3)).unwrap();
    assert_eq!(hits.len(), 1);
    assert_eq!(hits[0].content, "Sample document content related to the query");
    assert_eq!(hits[0].source, "sample.pdf");
    assert!(matches!(&hits[0].similarity, JsonNumber::Float(t) if t == "0.85"));
}

#[test]
fn fetch_sharepoint_files_command() {
    let files = fetch_sharepoint_files("Shared Documents").unwrap();
    assert_eq!(files.len(), 1);
    assert_eq!(files[0].name, "document1.docx");
    assert_eq!(files[0].url, "/sites/test/Shared Documents/document1.docx");
    assert_eq!(files[0].size, 1024000);
    assert_eq!(files[0].last_modified, "2024-01-15T10:30:00Z");
}

#[test]
fn query_dataverse_command() {
    let records = query_dataverse("accounts", Some("revenue gt 100".to_string())).unwrap();
    assert_eq!(records.len(), 1);
    assert_eq!(records[0].id, "12345");
    assert_eq!(get_text(&records[0].fields, "name"), Some("Sample Account"));
}

#[test]
fn parse_results_errors_and_skips() {
    assert_eq!(parse_search_hits(&obj(vec![])).err(), Some("No results in response".to_string()));
    assert_eq!(
        parse_search_hits(&obj(vec![("results", text("x"))])).err(),
        Some("Invalid results format".to_string())
    );
    let mixed = obj(vec![(
        "results",
        JsonValue::Array(vec![
            obj(vec![("content", text("a")), ("source", text("s")), ("similarity", JsonValue::Number(JsonNumber::PosInt(1)))]),
            obj(vec![("content", text("b")), ("source", text("s")), ("similarity", text("high"))]),
        ]),
    )]);
    let hits = parse_search_hits(&mixed).unwrap();
    assert_eq!(hits.len(), 1);
    assert_eq!(hits[0].content, "a");
    assert_eq!(parse_sharepoint_files(&obj(vec![])).err(), Some("No files in response".to_string()));
    let files = obj(vec![(
        "files",
        JsonValue::Array(vec![obj(vec![("name", text("n")), ("url", text("u")), ("size", JsonValue::Number(JsonNumber::NegInt(-1))), ("last_modified", text("m"))])]),
    )]);
    assert!(parse_sharepoint_files(&files).unwrap().is_empty());
    assert_eq!(
        parse_dataverse_records(&obj(vec![("records", JsonValue::Null)])).err(),
        Some("Invalid records format".to_string())
    );
}

#[test]
fn server_status_and_messages() {
    let s = get_server_status();
    assert!(s.running);
    assert_eq!(s.port, 3721);
    assert_eq!(MCP_SERVER_PORT, 3721);
    assert_eq!(discovery_started_message("sharepoint", "https://x"), "Discovery started for sharepoint at https://x");
    assert_eq!(get_text(&chat_reply("hi"), "reply"), Some("hi"));
    assert_eq!(claude_key_saved_message(), "API key saved");
    assert_eq!(database_missing_message(), "Database not initialized");
}

#[test]
fn history_rows_become_messages() {
    let rows = vec![("user".to_string(), "hello".to_string()), ("assistant".to_string(), "hi".to_string())];
    let msgs = history_messages(&rows);
    assert_eq!(msgs.len(), 2);
    assert_eq!(msgs[0].role, "user");
    assert_eq!(msgs[1].content, "hi");
}

#[test]
fn semantic_results_fall_back_when_empty() {
    assert!(semantic_results_if_any(None).is_none());
    assert!(semantic_results_if_any(Some(vec![])).is_none());
    assert_eq!(semantic_results_if_any(Some(vec![text("a")])).map(|v| v.len()), Some(1));
}
