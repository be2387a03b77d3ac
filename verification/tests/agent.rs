use mcp_desktop::agent::{
    embedding_body, embedding_url, groq_body, groq_url, read_groq_reply, system_prompt_for, Agent,
    AgentStep, GroqReply, GroqRequest, Message,
};
use mcp_desktop::json::{member, JsonNumber, JsonValue};

fn text(s: &str) -> JsonValue {
    JsonValue::String(s.to_string())
}

fn obj(ms: Vec<(&str, JsonValue)>) -> JsonValue {
    JsonValue::Object(ms.into_iter().map(|(k, v)| member(k, v)).collect())
}

fn get_text<'a>(v: &'a JsonValue, key: &str) -> Option<&'a str> {
    v.get(key).and_then(|x| x.as_str())
}

fn user_content(req: &GroqRequest) -> &str {
    assert_eq!(req.messages.len(), 1);
    assert_eq!(get_text(&req.messages[0], "role"), Some("user"));
    get_text(&req.messages[0], "content").unwrap()
}

#[test]
fn system_prompt_lists_each_tool() {
    let p = Agent::new().get_system_prompt();
    assert!(p.starts_with("You are an Elite AI Agent for the MCP Desktop Workspace.\n            YOUR GOAL:"));
    assert!(p.contains(
        "CAPABILITIES:\n            - echo: Execute this tool for specialized tasks.\n- search: Execute this tool for specialized tasks.\n"
    ));
    assert!(p.contains("- query_dataverse: Execute this tool for specialized tasks.\n\n            \n            GUIDELINES:"));
    assert!(p.ends_with("through your tools."));
    let custom = system_prompt_for(&vec!["x".to_string()]);
    assert!(custom.contains("CAPABILITIES:\n            - x: Execute this tool for specialized tasks.\n\n"));
}

#[test]
fn chat_maps_roles_to_user_or_assistant() {
    let history = vec![
        Message { role: "user".into(), content: "hi".into() },
        Message { role: "assistant".into(), content: "hello".into() },
        Message { role: "system".into(), content: "note".into() },
    ];
    let req = Agent::new().chat_with_streaming(&history);
    assert_eq!(req.temperature_tenths, 5);
    assert_eq!(req.system, Agent::new().get_system_prompt());
    let roles: Vec<&str> = req.messages.iter().map(|m| get_text(m, "role").unwrap()).collect();
    assert_eq!(roles, vec!["user", "assistant", "assistant"]);
    assert_eq!(get_text(&req.messages[2], "content"), Some("note"));
}

#[test]
fn showcase_items_get_canned_analyses() {
    let a = Agent::new();
    match a.analyze_item("Employee_Handbook_2026.pdf", "s", "{}", "quick") {
        AgentStep::Reply(t) => assert!(t.starts_with("This core enterprise asset")),
        other => panic!("unexpected {:?}", other),
    }
    match a.analyze_item("Nexus_Architecture_V2.pdf", "s", "{}", "deep") {
        AgentStep::Reply(t) => {
            assert!(t.starts_with("**DEEP NEURAL ANALYSIS REPORT**\n\n### 1. Executive Summary\nAnalysis of 'Nexus_Architecture_V2.pdf' reveals"));
        },
        other => panic!("unexpected {:?}", other),
    }
    match a.analyze_item("Active_Accounts_Master", "s", "{}", "other") {
        AgentStep::Reply(t) => assert_eq!(t, "High-quality enterprise data node. No issues detected."),
        other => panic!("unexpected {:?}", other),
    }
}

#[test]
fn other_items_are_sent_with_the_mode_prompt() {
    let a = Agent::new();
    match a.analyze_item("Q3.xlsx", "Forecasts", "Object {}", "quick") {
        AgentStep::Ask(req) => {
            assert_eq!(req.system, "You are a highly structured Enterprise Intelligence Agent.");
            assert_eq!(req.temperature_tenths, 2);
            assert_eq!(
                user_content(&req),
                "You are an Elite Enterprise AI. Perform a QUICK CONDENSATION of this item:\n                TITLE: Q3.xlsx\n                SUMMARY: Forecasts\n                METADATA: Object {}\n                \n                GOAL: Provide exactly 2 powerful sentences explaining the bottom-line value of this item."
            );
        },
        other => panic!("unexpected {:?}", other),
    }
    match a.analyze_item("Q3.xlsx", "Forecasts", "m", "summary") {
        AgentStep::Ask(req) => assert_eq!(user_content(&req), "Provide a general analysis of this enterprise data."),
        other => panic!("unexpected {:?}", other),
    }
}

#[test]
fn rag_query_without_chunks_answers_at_once() {
    match Agent::new().process_rag_query("q", &vec![], &vec![]) {
        AgentStep::Reply(t) => assert!(t.starts_with("No relevant content was found in the knowledge base")),
        other => panic!("unexpected {:?}", other),
    }
}

#[test]
fn rag_query_builds_the_context_blocks() {
    let chunks = vec![
        obj(vec![
            ("doc_title", text("Handbook")),
            ("content", text("Leave is 25 days.")),
            ("chunk_index", JsonValue::Number(JsonNumber::PosInt(2))),
        ]),
        obj(vec![("content", JsonValue::Null)]),
    ];
    let relevance = vec!["87".to_string(), "0".to_string()];
    match Agent::new().process_rag_query("How much leave?", &chunks, &relevance) {
        AgentStep::Ask(req) => {
            assert_eq!(req.temperature_tenths, 2);
            assert_eq!(user_content(&req), "How much leave?");
            assert!(req.system.contains(
                "RETRIEVED CONTEXT (ranked by relevance):\n\n[Source: Handbook | Chunk: 3 | Relevance: 87%]\nLeave is 25 days.\n\n[Source: Unknown | Chunk: 1 | Relevance: 0%]\n\n\n\nINSTRUCTIONS:"
            ));
        },
        other => panic!("unexpected {:?}", other),
    }
}

#[test]
fn full_context_numbers_documents_from_one() {
    let data = vec![
        ("T1".to_string(), "SharePoint".to_string(), "S1".to_string(), "{}".to_string()),
        ("T2".to_string(), "Dataverse".to_string(), "S2".to_string(), "{\"a\":1}".to_string()),
    ];
    let req = Agent::new().ask_with_full_context("question", &data);
    assert_eq!(req.temperature_tenths, 3);
    assert_eq!(
        req.system,
        "You are Nexus AI, an elite enterprise intelligence assistant. You have access to the following knowledge base:\n\n--- Document 1 ---\nTitle: T1\nSource: SharePoint\nSummary: S1\nMetadata: {}\n\n--- Document 2 ---\nTitle: T2\nSource: Dataverse\nSummary: S2\nMetadata: {\"a\":1}\n\n\nINSTRUCTIONS:\n1. Answer using ONLY the knowledge base above.\n2. Cite sources by name: [Source: Document Name]\n3. If data is insufficient, say so clearly.\n4. Use markdown formatting."
    );
}

#[test]
fn groq_body_puts_the_system_message_first() {
    let req = Agent::new().ask_with_full_context("q", &vec![]);
    let body = groq_body(req);
    assert_eq!(get_text(&body, "model"), Some("llama-3.3-70b-versatile"));
    assert!(matches!(body.get("max_tokens"), Some(JsonValue::Number(JsonNumber::PosInt(2048)))));
    let msgs = body.get("messages").and_then(|m| m.as_array()).unwrap();
    assert_eq!(msgs.len(), 2);
    assert_eq!(get_text(&msgs[0], "role"), Some("system"));
    assert_eq!(get_text(&msgs[1], "content"), Some("q"));
    assert_eq!(groq_url(), "https://api.groq.com/openai/v1/chat/completions");
}

#[test]
fn groq_replies() {
    let ok = obj(vec![(
        "choices",
        JsonValue::Array(vec![obj(vec![("message", obj(vec![("content", text("answer"))]))])]),
    )]);
    assert!(matches!(read_groq_reply(&ok), GroqReply::Content(c) if c == "answer"));
    let err = obj(vec![("error", obj(vec![("message", text("rate limited"))]))]);
    assert!(matches!(read_groq_reply(&err), GroqReply::Failed(m) if m == "Groq Error: rate limited"));
    let err2 = obj(vec![("error", text("boom"))]);
    assert!(matches!(read_groq_reply(&err2), GroqReply::Failed(m) if m == "Groq Error: Unknown error"));
    let empty = obj(vec![("choices", JsonValue::Array(vec![]))]);
    assert!(matches!(read_groq_reply(&empty), GroqReply::Invalid));
}

#[test]
fn embedding_request_parts() {
    assert_eq!(
        embedding_url("KEY"),
        "https://generativelanguage.googleapis.com/v1beta/models/gemini-embedding-001:embedContent?key=KEY"
    );
    let body = embedding_body("hello");
    assert_eq!(get_text(&body, "model"), Some("models/gemini-embedding-001"));
    let parts = body.get("content").and_then(|c| c.get("parts")).and_then(|p| p.as_array()).unwrap();
    assert_eq!(get_text(&parts[0], "text"), Some("hello"));
}
