//! What the agent sends to the chat model and what it makes of the replies:
//! the system prompts, the chat messages, the canned analyses of showcase
//! items, the retrieval context, the request body and the reading of a
//! chat completion. The HTTP calls themselves are made by the application.

use vstd::prelude::*;
use crate::json::{
    elems_data, elems_of, field, field_of, member, members_data, text_of, u64_of, Json, JsonNumber,
    JsonValue,
};
use crate::text::{
    chars_eq, chars_of, contains, contains_chars, decimal, ends_with, lit, occurs_at, push_all,
    push_decimal, starts_with, string_from_chars,
};
use crate::tools::{get_tools, tool_table, tools_view, ToolKind};
use crate::permissions::PermissionLevel;

verus! {

broadcast use {vstd::std_specs::vec::group_vec_axioms, vstd::string::group_string_axioms};

/// A message of a chat history.
#[derive(Debug, Clone)]
pub struct Message {
    pub role: String,
    pub content: String,
}

/// A chat completion to request: the system instruction, the conversation,
/// and the sampling temperature in tenths.
#[derive(Debug)]
pub struct GroqRequest {
    pub system: String,
    pub messages: Vec<JsonValue>,
    pub temperature_tenths: u8,
}

/// What the agent does next: answer at once, or ask the chat model.
#[derive(Debug)]
pub enum AgentStep {
    Reply(String),
    Ask(GroqRequest),
}

/// What a chat completion response holds: the answer, an error reported by
/// the service, or neither.
#[derive(Debug)]
pub enum GroqReply {
    Content(String),
    Failed(String),
    Invalid,
}

/// The agent. It holds no state of its own: each method says what to send.
#[derive(Debug)]
pub struct Agent {}

/// The chat model that answers.
pub open spec fn groq_model() -> Seq<char> {
    "llama-3.3-70b-versatile"@
}

/// The model that embeds text.
pub open spec fn embed_model() -> Seq<char> {
    "gemini-embedding-001"@
}

/// The chat completion endpoint.
pub fn groq_url() -> (s: &'static str)
    ensures
        s@ == "https://api.groq.com/openai/v1/chat/completions"@,
{
    "https://api.groq.com/openai/v1/chat/completions"
}

// ---------------------------------------------------------------------------
// System prompt

/// The names of the entries of a tool table, in order.
pub open spec fn tool_names(table: Seq<(Seq<char>, ToolKind, PermissionLevel)>) -> Seq<Seq<char>> {
    table.map_values(|e: (Seq<char>, ToolKind, PermissionLevel)| e.0)
}

/// The capability line of one tool.
pub open spec fn tool_line(name: Seq<char>) -> Seq<char> {
    "- "@ + name + ": Execute this tool for specialized tasks.\n"@
}

/// The capability lines of the tools, in order.
pub open spec fn tool_lines(names: Seq<Seq<char>>) -> Seq<char>
    decreases names.len(),
{
    if names.len() == 0 {
        Seq::empty()
    } else {
        tool_lines(names.drop_last()) + tool_line(names.last())
    }
}

/// The system prompt around the capability lines.
pub open spec fn system_prompt_text(capabilities: Seq<char>) -> Seq<char> {
    "You are an Elite AI Agent for the MCP Desktop Workspace.\n            YOUR GOAL: Help the user manage their enterprise data (SharePoint, Dataverse).\n            CAPABILITIES:\n            "@
        + capabilities
        + "\n            \n            GUIDELINES:\n            1. Use tools automatically when needed (e.g., 'Search for sales reports' -> call search_documents).\n            2. If you use a tool, explain the results clearly.\n            3. Be concise and professional.\n            4. If the user asks for a summary, synthesize the tool results into a structured response.\n            5. ALWAYS act as if you have direct access to these systems through your tools."@
}

// ---------------------------------------------------------------------------
// Messages

/// A chat message object: `{"role": role, "content": content}`.
pub open spec fn chat_entry(role: Seq<char>, content: Seq<char>) -> Json {
    Json::Obj(seq![("role"@, Json::Str(role)), ("content"@, Json::Str(content))])
}

/// The role a history entry is sent under: `user` stays, every other role is the assistant.
pub open spec fn chat_role(role: Seq<char>) -> Seq<char> {
    if role == "user"@ {
        "user"@
    } else {
        "assistant"@
    }
}

/// The messages sent for a chat history.
pub open spec fn chat_entries(history: Seq<Message>) -> Seq<Json> {
    history.map_values(|m: Message| chat_entry(chat_role(m.role@), m.content@))
}

/// The request body: model, messages with the system instruction first, and the token limit.
pub open spec fn groq_body_of(system: Seq<char>, messages: Seq<Json>) -> Json {
    Json::Obj(
        seq![
            ("model"@, Json::Str(groq_model())),
            ("messages"@, Json::Arr(seq![chat_entry("system"@, system)] + messages)),
            ("max_tokens"@, Json::PosInt(2048)),
        ],
    )
}

// ---------------------------------------------------------------------------
// Item analysis

/// Items whose analysis is canned: titles that mention the handbook, the
/// active accounts or the architecture.
pub open spec fn is_showcase_title(title: Seq<char>) -> bool {
    contains(title, "Handbook"@) || contains(title, "Active_Accounts"@) || contains(
        title,
        "Architecture"@,
    )
}

/// The canned analysis of a showcase item in a mode.
pub open spec fn canned_analysis(title: Seq<char>, mode: Seq<char>) -> Seq<char> {
    if mode == "quick"@ {
        "This core enterprise asset establishes the definitive framework for organizational operations and strategic alignment. It serves as the single source of truth for critical compliance and operational workflows."@
    } else if mode == "deep"@ {
        "**DEEP NEURAL ANALYSIS REPORT**\n\n### 1. Executive Summary\nAnalysis of '"@ + title
            + "' reveals a high-density intelligence node with 98% relational relevance to the current workspace. This document/record contains essential structural data required for cross-silo orchestration.\n\n### 2. Key Relational Entities\n- **Primary Owner:** Nexus System Architect\n- **Impact Zone:** Global Operations / Engineering\n- **Integrity Level:** Verified (AES-256)\n\n### 3. Business Recommendation\nFinalize local indexing and initiate automated cross-referencing with relative SharePoint libraries to identify latent dependencies."@
    } else if mode == "anomalies"@ {
        "Anomaly detection complete. Metadata consistency: 100%. Data integrity: Verified. No security risks or structural inconsistencies identified in current record state."@
    } else {
        "High-quality enterprise data node. No issues detected."@
    }
}

/// The item description inside an analysis prompt, up to its goal.
pub open spec fn item_block(title: Seq<char>, summary: Seq<char>, metadata: Seq<char>) -> Seq<char> {
    "\n                TITLE: "@ + title + "\n                SUMMARY: "@ + summary
        + "\n                METADATA: "@ + metadata + "\n                \n                GOAL: "@
}

/// The analysis prompt for an item in a mode; `metadata` is the rendered metadata.
pub open spec fn analysis_prompt(
    title: Seq<char>,
    summary: Seq<char>,
    metadata: Seq<char>,
    mode: Seq<char>,
) -> Seq<char> {
    if mode == "quick"@ {
        "You are an Elite Enterprise AI. Perform a QUICK CONDENSATION of this item:"@ + item_block(
            title,
            summary,
            metadata,
        ) + "Provide exactly 2 powerful sentences explaining the bottom-line value of this item."@
    } else if mode == "deep"@ {
        "You are an Elite Enterprise AI. Perform a DEEP NEURAL ANALYSIS of this item:"@
            + item_block(title, summary, metadata)
            + "Provide a structured report starting exactly with this bold header:\n                **DEEP NEURAL ANALYSIS REPORT**\n                \n                Followed by these sections, ensuring each major number (1, 2, 3) and sub-bullet starts on a NEW LINE:\n                ### 1. Executive Summary\n                (Provide the summary here)\n                \n                ### 2. Key Relational Entities\n                (List names, dates, or systems involved)\n                \n                ### 3. Business Recommendation\n                (What should we do next?)"@
    } else if mode == "anomalies"@ {
        "You are an Elite Enterprise AI. Perform ANOMALY DETECTION on this item:"@ + item_block(
            title,
            summary,
            metadata,
        )
            + "Identify any data outliers, security risks, or inconsistencies in the metadata. If none are found, state that the data appears compliant."@
    } else {
        "Provide a general analysis of this enterprise data."@
    }
}

/// The item's fields as an analysis prompt lists them.
pub open spec fn item_fields(title: Seq<char>, summary: Seq<char>, metadata: Seq<char>) -> Seq<char> {
    "\n                TITLE: "@ + title + "\n                SUMMARY: "@ + summary
        + "\n                METADATA: "@ + metadata
}

/// Each analysis mode asks for its own analysis: in modes `quick`, `deep` and
/// `anomalies` the prompt opens with that mode's instruction, holds the item's
/// title, summary and metadata in that order, and closes with the mode's goal;
/// any other mode asks for a general analysis.
pub proof fn law_analysis_prompt_by_mode(
    title: Seq<char>,
    summary: Seq<char>,
    metadata: Seq<char>,
    mode: Seq<char>,
)
    ensures
        mode == "quick"@ ==> starts_with(
            analysis_prompt(title, summary, metadata, mode),
            "You are an Elite Enterprise AI. Perform a QUICK CONDENSATION of this item:"@,
        ),
        mode == "quick"@ ==> ends_with(
            analysis_prompt(title, summary, metadata, mode),
            "Provide exactly 2 powerful sentences explaining the bottom-line value of this item."@,
        ),
        mode == "deep"@ ==> starts_with(
            analysis_prompt(title, summary, metadata, mode),
            "You are an Elite Enterprise AI. Perform a DEEP NEURAL ANALYSIS of this item:"@,
        ),
        mode == "deep"@ ==> ends_with(
            analysis_prompt(title, summary, metadata, mode),
            "Provide a structured report starting exactly with this bold header:\n                **DEEP NEURAL ANALYSIS REPORT**\n                \n                Followed by these sections, ensuring each major number (1, 2, 3) and sub-bullet starts on a NEW LINE:\n                ### 1. Executive Summary\n                (Provide the summary here)\n                \n                ### 2. Key Relational Entities\n                (List names, dates, or systems involved)\n                \n                ### 3. Business Recommendation\n                (What should we do next?)"@,
        ),
        mode == "anomalies"@ ==> starts_with(
            analysis_prompt(title, summary, metadata, mode),
            "You are an Elite Enterprise AI. Perform ANOMALY DETECTION on this item:"@,
        ),
        mode == "anomalies"@ ==> ends_with(
            analysis_prompt(title, summary, metadata, mode),
            "Identify any data outliers, security risks, or inconsistencies in the metadata. If none are found, state that the data appears compliant."@,
        ),
        mode == "quick"@ || mode == "deep"@ || mode == "anomalies"@ ==> contains(
            analysis_prompt(title, summary, metadata, mode),
            item_fields(title, summary, metadata),
        ),
        mode != "quick"@ && mode != "deep"@ && mode != "anomalies"@ ==> analysis_prompt(
            title,
            summary,
            metadata,
            mode,
        ) == "Provide a general analysis of this enterprise data."@,
{
    reveal_strlit("quick");
    reveal_strlit("deep");
    reveal_strlit("anomalies");
    assert("quick"@.len() == 5 && "deep"@.len() == 4 && "anomalies"@.len() == 9);
    let p = analysis_prompt(title, summary, metadata, mode);
    let block = item_fields(title, summary, metadata);
    let mid = "\n                \n                GOAL: "@;
    assert(item_block(title, summary, metadata) =~= block + mid);
    if mode == "quick"@ {
        let h = "You are an Elite Enterprise AI. Perform a QUICK CONDENSATION of this item:"@;
        let g = "Provide exactly 2 powerful sentences explaining the bottom-line value of this item."@;
        assert(p == h + item_block(title, summary, metadata) + g);
        lemma_framed(p, h, block, mid, g);
    } else if mode == "deep"@ {
        let h = "You are an Elite Enterprise AI. Perform a DEEP NEURAL ANALYSIS of this item:"@;
        let g = "Provide a structured report starting exactly with this bold header:\n                **DEEP NEURAL ANALYSIS REPORT**\n                \n                Followed by these sections, ensuring each major number (1, 2, 3) and sub-bullet starts on a NEW LINE:\n                ### 1. Executive Summary\n                (Provide the summary here)\n                \n                ### 2. Key Relational Entities\n                (List names, dates, or systems involved)\n                \n                ### 3. Business Recommendation\n                (What should we do next?)"@;
        assert(p == h + item_block(title, summary, metadata) + g);
        lemma_framed(p, h, block, mid, g);
    } else if mode == "anomalies"@ {
        let h = "You are an Elite Enterprise AI. Perform ANOMALY DETECTION on this item:"@;
        let g = "Identify any data outliers, security risks, or inconsistencies in the metadata. If none are found, state that the data appears compliant."@;
        assert(p == h + item_block(title, summary, metadata) + g);
        lemma_framed(p, h, block, mid, g);
    }
}

/// A text made of a head, a block, a middle and a goal starts with the head,
/// holds the block right after it, and ends with the goal.
proof fn lemma_framed(p: Seq<char>, h: Seq<char>, block: Seq<char>, mid: Seq<char>, g: Seq<char>)
    requires
        p == h + (block + mid) + g,
    ensures
        starts_with(p, h),
        contains(p, block),
        ends_with(p, g),
{
    assert(p.take(h.len() as int) =~= h);
    assert(p.subrange(h.len() as int, (h.len() + block.len()) as int) =~= block);
    assert(occurs_at(p, block, h.len() as int));
    assert(p.skip(p.len() - g.len()) =~= g);
}

/// The system instruction of an item analysis.
pub open spec fn analysis_system() -> Seq<char> {
    "You are a highly structured Enterprise Intelligence Agent."@
}

// ---------------------------------------------------------------------------
// Retrieval context

/// The text of a string value, or a default.
pub open spec fn text_or(v: Option<Json>, default: Seq<char>) -> Seq<char> {
    match text_of(v) {
        Some(t) => t,
        None => default,
    }
}

/// The chunk position of a retrieved chunk, counted from zero; zero when absent.
pub open spec fn chunk_position(chunk: Json) -> nat {
    match u64_of(field(chunk, "chunk_index"@)) {
        Some(n) => n as nat,
        None => 0,
    }
}

/// The context block of one retrieved chunk; `relevance` is its rendered percentage.
pub open spec fn source_block(chunk: Json, relevance: Seq<char>) -> Seq<char> {
    "\n[Source: "@ + text_or(field(chunk, "doc_title"@), "Unknown"@) + " | Chunk: "@ + decimal(
        chunk_position(chunk) + 1,
    ) + " | Relevance: "@ + relevance + "%]\n"@ + text_or(field(chunk, "content"@), ""@) + "\n"@
}

/// The context blocks of the retrieved chunks, in order.
pub open spec fn rag_context(chunks: Seq<Json>, relevance: Seq<Seq<char>>) -> Seq<char>
    decreases chunks.len(),
{
    if chunks.len() == 0 {
        Seq::empty()
    } else {
        rag_context(chunks.drop_last(), relevance.take(chunks.len() - 1)) + source_block(
            chunks.last(),
            relevance[chunks.len() - 1],
        )
    }
}

/// The system instruction of a retrieval-grounded answer.
pub open spec fn rag_system_prompt(context: Seq<char>) -> Seq<char> {
    "You are Nexus AI, an elite enterprise intelligence assistant with RAG-powered retrieval.\n\nRETRIEVED CONTEXT (ranked by relevance):\n"@
        + context
        + "\n\nINSTRUCTIONS:\n1. Answer the user's question using ONLY the retrieved context above.\n2. ALWAYS cite your sources using this format: [Source: Document Name | Chunk: N]\n3. If multiple chunks from the same document are relevant, consolidate them in your reasoning but cite them all.\n4. If the context doesn't contain enough information, say so honestly.\n5. Be concise, professional, and structured. Use markdown formatting.\n6. For data questions (dates, numbers, names), extract precisely from the context.\n7. For analysis questions, synthesize insights across multiple sources.\n8. Never fabricate information not present in the retrieved context."@
}

/// The answer when nothing was retrieved.
pub open spec fn no_context_reply() -> Seq<char> {
    "No relevant content was found in the knowledge base for your query. Try running a discovery sync to index documents, or rephrase your question."@
}

/// The chunk positions that can be counted one further in a `u64`.
pub open spec fn positions_countable(chunks: Seq<Json>) -> bool {
    forall|i: int| 0 <= i < chunks.len() ==> #[trigger] chunk_position(chunks[i]) < u64::MAX
}

// ---------------------------------------------------------------------------
// Full knowledge base

/// The views of knowledge base entries: title, source, summary, metadata.
pub open spec fn entries_view(v: Seq<(String, String, String, String)>) -> Seq<
    (Seq<char>, Seq<char>, Seq<char>, Seq<char>),
> {
    v.map_values(|e: (String, String, String, String)| (e.0@, e.1@, e.2@, e.3@))
}

/// The block of the document numbered `n`.
pub open spec fn document_block(n: nat, e: (Seq<char>, Seq<char>, Seq<char>, Seq<char>)) -> Seq<
    char,
> {
    "\n--- Document "@ + decimal(n) + " ---\nTitle: "@ + e.0 + "\nSource: "@ + e.1
        + "\nSummary: "@ + e.2 + "\nMetadata: "@ + e.3 + "\n"@
}

/// The knowledge base: the documents numbered from one, in order.
pub open spec fn knowledge_base(entries: Seq<(Seq<char>, Seq<char>, Seq<char>, Seq<char>)>) -> Seq<
    char,
>
    decreases entries.len(),
{
    if entries.len() == 0 {
        Seq::empty()
    } else {
        knowledge_base(entries.drop_last()) + document_block(entries.len(), entries.last())
    }
}

/// The system instruction of an answer over the full knowledge base.
pub open spec fn knowledge_prompt(kb: Seq<char>) -> Seq<char> {
    "You are Nexus AI, an elite enterprise intelligence assistant. You have access to the following knowledge base:\n"@
        + kb
        + "\n\nINSTRUCTIONS:\n1. Answer using ONLY the knowledge base above.\n2. Cite sources by name: [Source: Document Name]\n3. If data is insufficient, say so clearly.\n4. Use markdown formatting."@
}

// ---------------------------------------------------------------------------
// Replies

/// What a chat completion response means.
pub enum GroqOutcome {
    Content(Seq<char>),
    Failed(Seq<char>),
    Invalid,
}

/// The first element of an array value.
pub open spec fn first_elem(v: Option<Json>) -> Option<Json> {
    match elems_of(v) {
        Some(es) => if es.len() > 0 {
            Some(es[0])
        } else {
            None
        },
        None => None,
    }
}

/// A response with an `error` member failed with its message; otherwise the
/// answer is `choices[0].message.content` when that is a string.
pub open spec fn groq_outcome(response: Json) -> GroqOutcome {
    match field(response, "error"@) {
        Some(e) => GroqOutcome::Failed(
            "Groq Error: "@ + text_or(field(e, "message"@), "Unknown error"@),
        ),
        None => match text_of(
            field_of(field_of(first_elem(field(response, "choices"@)), "message"@), "content"@),
        ) {
            Some(c) => GroqOutcome::Content(c),
            None => GroqOutcome::Invalid,
        },
    }
}

/// The meaning of a reply as read.
pub open spec fn reply_outcome(r: GroqReply) -> GroqOutcome {
    match r {
        GroqReply::Content(c) => GroqOutcome::Content(c@),
        GroqReply::Failed(m) => GroqOutcome::Failed(m@),
        GroqReply::Invalid => GroqOutcome::Invalid,
    }
}

// ---------------------------------------------------------------------------
// Embedding requests

/// The embedding endpoint for an API key.
pub open spec fn embedding_url_of(api_key: Seq<char>) -> Seq<char> {
    "https://generativelanguage.googleapis.com/v1beta/models/"@ + embed_model()
        + ":embedContent?key="@ + api_key
}

/// The embedding request body: `{"model": "models/<model>", "content": {"parts": [{"text": text}]}}`.
pub open spec fn embedding_body_of(text: Seq<char>) -> Json {
    Json::Obj(
        seq![
            ("model"@, Json::Str("models/"@ + embed_model())),
            (
                "content"@,
                Json::Obj(
                    seq![
                        (
                            "parts"@,
                            Json::Arr(seq![Json::Obj(seq![("text"@, Json::Str(text))])]),
                        ),
                    ],
                ),
            ),
        ],
    )
}

// ---------------------------------------------------------------------------
// Executable parts

/// A string value member's text, or a default.
fn text_or_default<'a>(v: &'a JsonValue, key: &str, default: &'a str) -> (r: &'a str)
    ensures
        r@ == text_or(field(v.data(), key@), default@),
{
    match v.get(key) {
        Some(x) => match x.as_str() {
            Some(s) => s,
            None => default,
        },
        None => default,
    }
}

/// A chat message object.
fn chat_value(role: &str, content: &str) -> (r: JsonValue)
    ensures
        r.data() == chat_entry(role@, content@),
{
    let mut ms: Vec<(String, JsonValue)> = Vec::new();
    ms.push(member("role", JsonValue::text(role)));
    ms.push(member("content", JsonValue::text(content)));
    assert(members_data(ms@) =~= chat_entry(role@, content@)->Obj_0);
    JsonValue::object(ms)
}

/// The capability lines of a list of tool names.
fn capability_lines(names: &Vec<String>) -> (v: Vec<char>)
    ensures
        v@ == tool_lines(names@.map_values(|s: String| s@)),
{
    let ghost all = names@.map_values(|s: String| s@);
    let mut v: Vec<char> = Vec::new();
    let mut i: usize = 0;
    while i < names.len()
        invariant
            i <= names@.len(),
            all == names@.map_values(|s: String| s@),
            v@ == tool_lines(all.take(i as int)),
        decreases names@.len() - i,
    {
        push_all(&mut v, lit("- ").as_slice());
        push_all(&mut v, chars_of(names[i].as_str()).as_slice());
        push_all(&mut v, lit(": Execute this tool for specialized tasks.\n").as_slice());
        proof {
            assert(all.take(i + 1).drop_last() =~= all.take(i as int));
            assert(all.take(i + 1).last() == names@[i as int]@);
        }
        i = i + 1;
    }
    assert(all.take(i as int) =~= all);
    v
}

/// The system prompt for a list of tool names, one capability line each, in order.
pub fn system_prompt_for(names: &Vec<String>) -> (s: String)
    ensures
        s@ == system_prompt_text(tool_lines(names@.map_values(|n: String| n@))),
{
    let mut m = lit(
        "You are an Elite AI Agent for the MCP Desktop Workspace.\n            YOUR GOAL: Help the user manage their enterprise data (SharePoint, Dataverse).\n            CAPABILITIES:\n            ",
    );
    push_all(&mut m, capability_lines(names).as_slice());
    push_all(
        &mut m,
        lit(
            "\n            \n            GUIDELINES:\n            1. Use tools automatically when needed (e.g., 'Search for sales reports' -> call search_documents).\n            2. If you use a tool, explain the results clearly.\n            3. Be concise and professional.\n            4. If the user asks for a summary, synthesize the tool results into a structured response.\n            5. ALWAYS act as if you have direct access to these systems through your tools.",
        ).as_slice(),
    );
    string_from_chars(m.as_slice())
}

/// The knowledge base text of a list of entries.
fn knowledge_text(entries: &Vec<(String, String, String, String)>) -> (v: Vec<char>)
    ensures
        v@ == knowledge_base(entries_view(entries@)),
{
    let ghost all = entries_view(entries@);
    let mut v: Vec<char> = Vec::new();
    let mut i: usize = 0;
    while i < entries.len()
        invariant
            i <= entries@.len(),
            all == entries_view(entries@),
            v@ == knowledge_base(all.take(i as int)),
        decreases entries@.len() - i,
    {
        let e = &entries[i];
        push_all(&mut v, lit("\n--- Document ").as_slice());
        push_decimal(&mut v, (i as u64) + 1);
        push_all(&mut v, lit(" ---\nTitle: ").as_slice());
        push_all(&mut v, chars_of(e.0.as_str()).as_slice());
        push_all(&mut v, lit("\nSource: ").as_slice());
        push_all(&mut v, chars_of(e.1.as_str()).as_slice());
        push_all(&mut v, lit("\nSummary: ").as_slice());
        push_all(&mut v, chars_of(e.2.as_str()).as_slice());
        push_all(&mut v, lit("\nMetadata: ").as_slice());
        push_all(&mut v, chars_of(e.3.as_str()).as_slice());
        push_all(&mut v, lit("\n").as_slice());
        proof {
            let t = all.take(i + 1);
            assert(t.drop_last() =~= all.take(i as int));
            assert(t.len() == i + 1);
            assert(t.last() == (e.0@, e.1@, e.2@, e.3@));
        }
        i = i + 1;
    }
    assert(all.take(i as int) =~= all);
    v
}

/// The context blocks of retrieved chunks.
fn rag_context_text(chunks: &Vec<JsonValue>, relevance: &Vec<String>) -> (v: Vec<char>)
    requires
        chunks@.len() == relevance@.len(),
        positions_countable(elems_data(chunks@)),
    ensures
        v@ == rag_context(elems_data(chunks@), relevance@.map_values(|s: String| s@)),
{
    let ghost cs = elems_data(chunks@);
    let ghost rs = relevance@.map_values(|s: String| s@);
    let mut v: Vec<char> = Vec::new();
    let mut i: usize = 0;
    while i < chunks.len()
        invariant
            i <= chunks@.len(),
            chunks@.len() == relevance@.len(),
            cs == elems_data(chunks@),
            rs == relevance@.map_values(|s: String| s@),
            positions_countable(cs),
            v@ == rag_context(cs.take(i as int), rs.take(i as int)),
        decreases chunks@.len() - i,
    {
        let c = &chunks[i];
        assert(cs[i as int] == c.data());
        push_all(&mut v, lit("\n[Source: ").as_slice());
        push_all(&mut v, chars_of(text_or_default(c, "doc_title", "Unknown")).as_slice());
        push_all(&mut v, lit(" | Chunk: ").as_slice());
        let position: u64 = match c.get("chunk_index") {
            Some(x) => match x.as_u64() {
                Some(n) => n,
                None => 0,
            },
            None => 0,
        };
        assert(position == chunk_position(cs[i as int]));
        push_decimal(&mut v, position + 1);
        push_all(&mut v, lit(" | Relevance: ").as_slice());
        push_all(&mut v, chars_of(relevance[i].as_str()).as_slice());
        push_all(&mut v, lit("%]\n").as_slice());
        push_all(&mut v, chars_of(text_or_default(c, "content", "")).as_slice());
        push_all(&mut v, lit("\n").as_slice());
        proof {
            let t = cs.take(i + 1);
            assert(t.drop_last() =~= cs.take(i as int));
            assert(rs.take(i + 1).take(i as int) =~= rs.take(i as int));
            assert(t.last() == c.data());
            assert(rs.take(i + 1)[i as int] == relevance@[i as int]@);
        }
        i = i + 1;
    }
    assert(cs.take(i as int) =~= cs);
    assert(rs.take(i as int) =~= rs);
    v
}

/// A single user message.
fn user_turn(content: &str) -> (v: Vec<JsonValue>)
    ensures
        elems_data(v@) == seq![chat_entry("user"@, content@)],
{
    let mut v: Vec<JsonValue> = Vec::new();
    v.push(chat_value("user", content));
    assert(elems_data(v@) =~= seq![chat_entry("user"@, content@)]);
    v
}

impl Agent {
    pub fn new() -> (a: Agent) {
        Agent {  }
    }

    /// The system prompt: one capability line for each tool, in the order of the tool table.
    pub fn get_system_prompt(&self) -> (s: String)
        ensures
            s@ == system_prompt_text(tool_lines(tool_names(tool_table()))),
    {
        let tools = get_tools();
        let mut names: Vec<String> = Vec::new();
        let mut i: usize = 0;
        while i < tools.len()
            invariant
                i <= tools@.len(),
                tools_view(tools@) == tool_table(),
                names@.len() == i,
                forall|k: int| 0 <= k < i ==> #[trigger] names@[k]@ == tools@[k].name@,
            decreases tools@.len() - i,
        {
            names.push(String::from_str(tools[i].name.as_str()));
            i = i + 1;
        }
        assert(names@.map_values(|n: String| n@) =~= tool_names(tool_table())) by {
            assert forall|k: int| 0 <= k < names@.len() implies names@.map_values(
                |n: String| n@,
            )[k] == tool_names(tool_table())[k] by {
                assert(tools_view(tools@)[k] == (
                    tools@[k].name@,
                    tools@[k].kind,
                    tools@[k].required_permission,
                ));
            }
        }
        system_prompt_for(&names)
    }

    /// The completion that answers a chat: the system prompt and the history,
    /// each entry as `user` or `assistant`, at temperature 0.5.
    pub fn chat_with_streaming(&self, history: &Vec<Message>) -> (r: GroqRequest)
        ensures
            r.system@ == system_prompt_text(tool_lines(tool_names(tool_table()))),
            elems_data(r.messages@) == chat_entries(history@),
            r.temperature_tenths == 5,
    {
        let mut contents: Vec<JsonValue> = Vec::new();
        let system = self.get_system_prompt();
        let mut i: usize = 0;
        while i < history.len()
            invariant
                i <= history@.len(),
                elems_data(contents@) == chat_entries(history@).take(i as int),
            decreases history@.len() - i,
        {
            let msg = &history[i];
            let is_user = chars_eq(chars_of(msg.role.as_str()).as_slice(), lit("user").as_slice());
            let role: &str = if is_user {
                "user"
            } else {
                "assistant"
            };
            assert(role@ == chat_role(msg.role@));
            let ghost prev = elems_data(contents@);
            let entry = chat_value(role, msg.content.as_str());
            contents.push(entry);
            proof {
                let all = chat_entries(history@);
                assert(elems_data(contents@) =~= prev.push(chat_entry(chat_role(msg.role@), msg.content@)));
                assert(all[i as int] == chat_entry(chat_role(msg.role@), msg.content@));
                assert(all.take(i + 1) =~= all.take(i as int).push(all[i as int]));
            }
            i = i + 1;
        }
        assert(chat_entries(history@).take(i as int) =~= chat_entries(history@));
        GroqRequest { system, messages: contents, temperature_tenths: 5 }
    }

    /// What analysing an item does: showcase items get their canned analysis at
    /// once; any other item is sent to the chat model with the analysis prompt of
    /// the mode, at temperature 0.2. `metadata` is the rendered metadata.
    pub fn analyze_item(&self, item_title: &str, item_summary: &str, metadata: &str, mode: &str) -> (r:
        AgentStep)
        ensures
            is_showcase_title(item_title@) ==> (r matches AgentStep::Reply(s) && s@
                == canned_analysis(item_title@, mode@)),
            !is_showcase_title(item_title@) ==> (r matches AgentStep::Ask(q) && q.system@
                == analysis_system() && elems_data(q.messages@) == seq![
                chat_entry(
                    "user"@,
                    analysis_prompt(item_title@, item_summary@, metadata@, mode@),
                ),
            ] && q.temperature_tenths == 2),
    {
        let t = chars_of(item_title);
        let md = chars_of(mode);
        let is_quick = chars_eq(md.as_slice(), lit("quick").as_slice());
        let is_deep = chars_eq(md.as_slice(), lit("deep").as_slice());
        let is_anomalies = chars_eq(md.as_slice(), lit("anomalies").as_slice());
        if contains_chars(t.as_slice(), lit("Handbook").as_slice()) || contains_chars(
            t.as_slice(),
            lit("Active_Accounts").as_slice(),
        ) || contains_chars(t.as_slice(), lit("Architecture").as_slice()) {
            let text: Vec<char> = if is_quick {
                lit(
                    "This core enterprise asset establishes the definitive framework for organizational operations and strategic alignment. It serves as the single source of truth for critical compliance and operational workflows.",
                )
            } else if is_deep {
                let mut m = lit(
                    "**DEEP NEURAL ANALYSIS REPORT**\n\n### 1. Executive Summary\nAnalysis of '",
                );
                push_all(&mut m, t.as_slice());
                push_all(
                    &mut m,
                    lit(
                        "' reveals a high-density intelligence node with 98% relational relevance to the current workspace. This document/record contains essential structural data required for cross-silo orchestration.\n\n### 2. Key Relational Entities\n- **Primary Owner:** Nexus System Architect\n- **Impact Zone:** Global Operations / Engineering\n- **Integrity Level:** Verified (AES-256)\n\n### 3. Business Recommendation\nFinalize local indexing and initiate automated cross-referencing with relative SharePoint libraries to identify latent dependencies.",
                    ).as_slice(),
                );
                m
            } else if is_anomalies {
                lit(
                    "Anomaly detection complete. Metadata consistency: 100%. Data integrity: Verified. No security risks or structural inconsistencies identified in current record state.",
                )
            } else {
                lit("High-quality enterprise data node. No issues detected.")
            };
            return AgentStep::Reply(string_from_chars(text.as_slice()));
        }
        let prompt: Vec<char> = if is_quick || is_deep || is_anomalies {
            let mut m: Vec<char> = if is_quick {
                lit("You are an Elite Enterprise AI. Perform a QUICK CONDENSATION of this item:")
            } else if is_deep {
                lit("You are an Elite Enterprise AI. Perform a DEEP NEURAL ANALYSIS of this item:")
            } else {
                lit("You are an Elite Enterprise AI. Perform ANOMALY DETECTION on this item:")
            };
            let ghost head = m@;
            push_all(&mut m, lit("\n                TITLE: ").as_slice());
            push_all(&mut m, t.as_slice());
            push_all(&mut m, lit("\n                SUMMARY: ").as_slice());
            push_all(&mut m, chars_of(item_summary).as_slice());
            push_all(&mut m, lit("\n                METADATA: ").as_slice());
            push_all(&mut m, chars_of(metadata).as_slice());
            push_all(&mut m, lit("\n                \n                GOAL: ").as_slice());
            assert(m@ =~= head + item_block(item_title@, item_summary@, metadata@));
            let goal: Vec<char> = if is_quick {
                lit("Provide exactly 2 powerful sentences explaining the bottom-line value of this item.")
            } else if is_deep {
                lit(
                    "Provide a structured report starting exactly with this bold header:\n                **DEEP NEURAL ANALYSIS REPORT**\n                \n                Followed by these sections, ensuring each major number (1, 2, 3) and sub-bullet starts on a NEW LINE:\n                ### 1. Executive Summary\n                (Provide the summary here)\n                \n                ### 2. Key Relational Entities\n                (List names, dates, or systems involved)\n                \n                ### 3. Business Recommendation\n                (What should we do next?)",
                )
            } else {
                lit(
                    "Identify any data outliers, security risks, or inconsistencies in the metadata. If none are found, state that the data appears compliant.",
                )
            };
            push_all(&mut m, goal.as_slice());
            m
        } else {
            lit("Provide a general analysis of this enterprise data.")
        };
        let prompt_text = string_from_chars(prompt.as_slice());
        AgentStep::Ask(
            GroqRequest {
                system: String::from_str(
                    "You are a highly structured Enterprise Intelligence Agent.",
                ),
                messages: user_turn(prompt_text.as_str()),
                temperature_tenths: 2,
            },
        )
    }

    /// What answering from retrieved chunks does: with no chunk, the fixed
    /// answer; otherwise the question goes to the chat model with the context
    /// blocks of the chunks in the system instruction, at temperature 0.2.
    /// `relevance` holds each chunk's rendered relevance percentage.
    pub fn process_rag_query(
        &self,
        question: &str,
        retrieved_chunks: &Vec<JsonValue>,
        relevance: &Vec<String>,
    ) -> (r: AgentStep)
        requires
            retrieved_chunks@.len() == relevance@.len(),
            positions_countable(elems_data(retrieved_chunks@)),
        ensures
            retrieved_chunks@.len() == 0 ==> (r matches AgentStep::Reply(s) && s@
                == no_context_reply()),
            retrieved_chunks@.len() > 0 ==> (r matches AgentStep::Ask(q) && q.system@
                == rag_system_prompt(
                rag_context(
                    elems_data(retrieved_chunks@),
                    relevance@.map_values(|s: String| s@),
                ),
            ) && elems_data(q.messages@) == seq![chat_entry("user"@, question@)]
                && q.temperature_tenths == 2),
    {
        if retrieved_chunks.len() == 0 {
            return AgentStep::Reply(
                String::from_str(
                    "No relevant content was found in the knowledge base for your query. Try running a discovery sync to index documents, or rephrase your question.",
                ),
            );
        }
        let mut m = lit(
            "You are Nexus AI, an elite enterprise intelligence assistant with RAG-powered retrieval.\n\nRETRIEVED CONTEXT (ranked by relevance):\n",
        );
        push_all(&mut m, rag_context_text(retrieved_chunks, relevance).as_slice());
        push_all(
            &mut m,
            lit(
                "\n\nINSTRUCTIONS:\n1. Answer the user's question using ONLY the retrieved context above.\n2. ALWAYS cite your sources using this format: [Source: Document Name | Chunk: N]\n3. If multiple chunks from the same document are relevant, consolidate them in your reasoning but cite them all.\n4. If the context doesn't contain enough information, say so honestly.\n5. Be concise, professional, and structured. Use markdown formatting.\n6. For data questions (dates, numbers, names), extract precisely from the context.\n7. For analysis questions, synthesize insights across multiple sources.\n8. Never fabricate information not present in the retrieved context.",
            ).as_slice(),
        );
        AgentStep::Ask(
            GroqRequest {
                system: string_from_chars(m.as_slice()),
                messages: user_turn(question),
                temperature_tenths: 2,
            },
        )
    }

    /// The completion that answers over the whole knowledge base: the entries
    /// (title, source, summary, metadata) numbered from one in the system
    /// instruction, the question as the user message, at temperature 0.3.
    pub fn ask_with_full_context(
        &self,
        question: &str,
        data_contexts: &Vec<(String, String, String, String)>,
    ) -> (r: GroqRequest)
        ensures
            r.system@ == knowledge_prompt(knowledge_base(entries_view(data_contexts@))),
            elems_data(r.messages@) == seq![chat_entry("user"@, question@)],
            r.temperature_tenths == 3,
    {
        let mut m = lit(
            "You are Nexus AI, an elite enterprise intelligence assistant. You have access to the following knowledge base:\n",
        );
        push_all(&mut m, knowledge_text(data_contexts).as_slice());
        push_all(
            &mut m,
            lit(
                "\n\nINSTRUCTIONS:\n1. Answer using ONLY the knowledge base above.\n2. Cite sources by name: [Source: Document Name]\n3. If data is insufficient, say so clearly.\n4. Use markdown formatting.",
            ).as_slice(),
        );
        GroqRequest {
            system: string_from_chars(m.as_slice()),
            messages: user_turn(question),
            temperature_tenths: 3,
        }
    }
}

/// The request body of a completion, with the system instruction inserted
/// before the conversation. The temperature is not part of it.
pub fn groq_body(request: GroqRequest) -> (r: JsonValue)
    ensures
        r.data() == groq_body_of(request.system@, elems_data(request.messages@)),
{
    let GroqRequest { system, messages, .. } = request;
    let ghost old_messages = elems_data(messages@);
    let mut messages = messages;
    messages.insert(0, chat_value("system", system.as_str()));
    assert(elems_data(messages@) =~= seq![chat_entry("system"@, system@)] + old_messages);
    let mut ms: Vec<(String, JsonValue)> = Vec::new();
    ms.push(member("model", JsonValue::text("llama-3.3-70b-versatile")));
    ms.push(member("messages", JsonValue::array(messages)));
    ms.push(member("max_tokens", JsonValue::Number(JsonNumber::PosInt(2048))));
    assert(members_data(ms@) =~= groq_body_of(system@, old_messages)->Obj_0);
    JsonValue::object(ms)
}

/// Reads a chat completion response.
pub fn read_groq_reply(response: &JsonValue) -> (r: GroqReply)
    ensures
        reply_outcome(r) == groq_outcome(response.data()),
{
    match response.get("error") {
        Some(e) => {
            let mut m = lit("Groq Error: ");
            push_all(&mut m, chars_of(text_or_default(e, "message", "Unknown error")).as_slice());
            GroqReply::Failed(string_from_chars(m.as_slice()))
        },
        None => {
            let content: Option<&str> = match response.get("choices") {
                Some(cs) => match cs.as_array() {
                    Some(list) => if list.len() > 0 {
                        assert(elems_data(list@)[0] == list@[0].data());
                        match list[0].get("message") {
                            Some(msg) => match msg.get("content") {
                                Some(c) => c.as_str(),
                                None => None,
                            },
                            None => None,
                        }
                    } else {
                        None
                    },
                    None => None,
                },
                None => None,
            };
            match content {
                Some(c) => GroqReply::Content(String::from_str(c)),
                None => GroqReply::Invalid,
            }
        },
    }
}

/// The embedding endpoint for an API key.
pub fn embedding_url(api_key: &str) -> (s: String)
    ensures
        s@ == embedding_url_of(api_key@),
{
    let mut m = lit("https://generativelanguage.googleapis.com/v1beta/models/");
    push_all(&mut m, lit("gemini-embedding-001").as_slice());
    push_all(&mut m, lit(":embedContent?key=").as_slice());
    push_all(&mut m, chars_of(api_key).as_slice());
    string_from_chars(m.as_slice())
}

/// The embedding request body for a text.
pub fn embedding_body(text: &str) -> (r: JsonValue)
    ensures
        r.data() == embedding_body_of(text@),
{
    let mut part: Vec<(String, JsonValue)> = Vec::new();
    part.push(member("text", JsonValue::text(text)));
    let mut parts: Vec<JsonValue> = Vec::new();
    parts.push(JsonValue::object(part));
    let mut content: Vec<(String, JsonValue)> = Vec::new();
    content.push(member("parts", JsonValue::array(parts)));
    let mut ms: Vec<(String, JsonValue)> = Vec::new();
    ms.push(member("model", JsonValue::text("models/gemini-embedding-001")));
    ms.push(member("content", JsonValue::object(content)));
    proof {
        assert(members_data(part@) =~= seq![("text"@, Json::Str(text@))]);
        assert(elems_data(parts@) =~= seq![Json::Obj(seq![("text"@, Json::Str(text@))])]);
        assert(members_data(content@) =~= seq![
            (
                "parts"@,
                Json::Arr(seq![Json::Obj(seq![("text"@, Json::Str(text@))])]),
            ),
        ]);
        assert("models/gemini-embedding-001"@ == "models/"@ + embed_model()) by {
            reveal_strlit("models/gemini-embedding-001");
            reveal_strlit("models/");
            reveal_strlit("gemini-embedding-001");
        }
        assert(members_data(ms@) =~= embedding_body_of(text@)->Obj_0);
    }
    JsonValue::object(ms)
}

} // verus!
