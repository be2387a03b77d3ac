//! The tools that the server and the commands offer, their permission
//! requirements, and what each returns for its arguments.

use vstd::prelude::*;
use crate::json::{field, member, members_data, elems_data, text_of, u64_of, Json, JsonNumber, JsonValue};
use crate::permissions::{permits, PermissionLevel};
use crate::text::{chars_eq, chars_of, lit, push_all, string_from_chars};

verus! {

broadcast use vstd::string::group_string_axioms;

/// Which tool a table entry runs.
#[derive(Debug, Clone, Copy, PartialEq, Eq, Structural)]
pub enum ToolKind {
    Echo,
    Search,
    SearchDocuments,
    FetchSharePointFiles,
    QueryDataverse,
}

/// A tool: its name, what it runs, and the permission level it needs.
pub struct Tool {
    pub name: String,
    pub kind: ToolKind,
    pub required_permission: PermissionLevel,
}

/// The tool table, in order: name, kind, permission needed.
pub open spec fn tool_table() -> Seq<(Seq<char>, ToolKind, PermissionLevel)> {
    seq![
        ("echo"@, ToolKind::Echo, PermissionLevel::ReadOnly),
        ("search"@, ToolKind::Search, PermissionLevel::ReadOnly),
        ("search_documents"@, ToolKind::SearchDocuments, PermissionLevel::ReadOnly),
        ("fetch_sharepoint_files"@, ToolKind::FetchSharePointFiles, PermissionLevel::ReadOnly),
        ("query_dataverse"@, ToolKind::QueryDataverse, PermissionLevel::ReadOnly),
    ]
}

/// Views tools as table entries.
pub open spec fn tools_view(ts: Seq<Tool>) -> Seq<(Seq<char>, ToolKind, PermissionLevel)> {
    ts.map_values(|t: Tool| (t.name@, t.kind, t.required_permission))
}

fn tool(name: &str, kind: ToolKind) -> (t: Tool)
    ensures
        t.name@ == name@,
        t.kind == kind,
        t.required_permission == PermissionLevel::ReadOnly,
{
    Tool { name: String::from_str(name), kind, required_permission: PermissionLevel::ReadOnly }
}

/// All tools, each under its own name.
pub fn get_tools() -> (r: Vec<Tool>)
    ensures
        tools_view(r@) == tool_table(),
{
    let mut r: Vec<Tool> = Vec::new();
    r.push(tool("echo", ToolKind::Echo));
    r.push(tool("search", ToolKind::Search));
    r.push(tool("search_documents", ToolKind::SearchDocuments));
    r.push(tool("fetch_sharepoint_files", ToolKind::FetchSharePointFiles));
    r.push(tool("query_dataverse", ToolKind::QueryDataverse));
    assert(tools_view(r@) =~= tool_table());
    r
}

/// The index of the first entry named `name`.
pub open spec fn tool_index(table: Seq<(Seq<char>, ToolKind, PermissionLevel)>, name: Seq<char>, from: int) -> Option<int>
    decreases table.len() - from,
{
    if from < 0 || from >= table.len() {
        None
    } else if table[from].0 == name {
        Some(from)
    } else {
        tool_index(table, name, from + 1)
    }
}

/// Finds the tool of the given name (the table's first entry of that name).
pub fn find_tool<'a>(tools: &'a Vec<Tool>, name: &str) -> (r: Option<&'a Tool>)
    ensures
        r matches Some(t) ==> tool_index(tools_view(tools@), name@, 0) matches Some(i) && tools@[i] == *t,
        r is None ==> tool_index(tools_view(tools@), name@, 0) is None,
{
    let wanted = chars_of(name);
    let mut i: usize = 0;
    while i < tools.len()
        invariant
            i <= tools@.len(),
            wanted@ == name@,
            tool_index(tools_view(tools@), name@, 0) == tool_index(tools_view(tools@), name@, i as int),
        decreases tools@.len() - i,
    {
        assert(tools_view(tools@)[i as int].0 == tools@[i as int].name@);
        if chars_eq(chars_of(tools[i].name.as_str()).as_slice(), wanted.as_slice()) {
            return Some(&tools[i]);
        }
        i = i + 1;
    }
    None
}

/// The text of the `query` argument, or nothing.
pub open spec fn query_arg(args: Json) -> Seq<char> {
    match text_of(field(args, "query"@)) {
        Some(q) => q,
        None => Seq::empty(),
    }
}

/// The `top_k` argument (5 where absent), as a machine word.
pub open spec fn top_k_arg(args: Json) -> u64 {
    (match u64_of(field(args, "top_k"@)) {
        Some(n) => n,
        None => 5,
    }) as usize as u64
}

/// The `library_name` argument, or "Documents".
pub open spec fn library_arg(args: Json) -> Seq<char> {
    match text_of(field(args, "library_name"@)) {
        Some(l) => l,
        None => "Documents"@,
    }
}

/// The `table_name` argument, or "accounts".
pub open spec fn table_arg(args: Json) -> Seq<char> {
    match text_of(field(args, "table_name"@)) {
        Some(t) => t,
        None => "accounts"@,
    }
}

/// What the echo tool returns: the arguments under `echo`.
pub open spec fn echo_output(args: Json) -> Json {
    Json::Obj(seq![("echo"@, args)])
}

/// What the search tool returns.
pub open spec fn search_output(args: Json) -> Json {
    Json::Obj(seq![("results"@, Json::Arr(seq![Json::Str("Found docs for: "@ + query_arg(args))]))])
}

/// The sample hit that document search returns.
pub open spec fn sample_hit() -> Json {
    Json::Obj(
        seq![
            ("content"@, Json::Str("Sample document content related to the query"@)),
            ("source"@, Json::Str("sample.pdf"@)),
            ("similarity"@, Json::Float("0.85"@)),
        ],
    )
}

/// What document search returns.
pub open spec fn search_documents_output(args: Json) -> Json {
    Json::Obj(
        seq![
            ("query"@, Json::Str(query_arg(args))),
            ("results"@, Json::Arr(seq![sample_hit()])),
            ("top_k"@, Json::PosInt(top_k_arg(args))),
        ],
    )
}

/// The sample file that the SharePoint listing returns.
pub open spec fn sample_file() -> Json {
    Json::Obj(
        seq![
            ("name"@, Json::Str("document1.docx"@)),
            ("url"@, Json::Str("/sites/test/Shared Documents/document1.docx"@)),
            ("size"@, Json::PosInt(1024000)),
            ("last_modified"@, Json::Str("2024-01-15T10:30:00Z"@)),
        ],
    )
}

/// What the SharePoint listing returns.
pub open spec fn fetch_files_output(args: Json) -> Json {
    Json::Obj(
        seq![("library"@, Json::Str(library_arg(args))), ("files"@, Json::Arr(seq![sample_file()]))],
    )
}

/// The sample record that the Dataverse query returns.
pub open spec fn sample_record() -> Json {
    Json::Obj(
        seq![
            ("id"@, Json::Str("12345"@)),
            ("name"@, Json::Str("Sample Account"@)),
            ("type"@, Json::Str("Customer"@)),
        ],
    )
}

/// What the Dataverse query returns: the table and records, and the filter
/// when one was given as text.
pub open spec fn query_dataverse_output(args: Json) -> Json {
    let base = seq![("table"@, Json::Str(table_arg(args))), ("records"@, Json::Arr(seq![sample_record()]))];
    match text_of(field(args, "filter"@)) {
        Some(f) => Json::Obj(base.push(("filter"@, Json::Str(f)))),
        None => Json::Obj(base),
    }
}

/// What a tool of the given kind returns for the arguments.
pub open spec fn tool_output(kind: ToolKind, args: Json) -> Json {
    match kind {
        ToolKind::Echo => echo_output(args),
        ToolKind::Search => search_output(args),
        ToolKind::SearchDocuments => search_documents_output(args),
        ToolKind::FetchSharePointFiles => fetch_files_output(args),
        ToolKind::QueryDataverse => query_dataverse_output(args),
    }
}

fn text_arg<'a>(args: &'a JsonValue, key: &str) -> (r: Option<&'a str>)
    ensures
        r matches Some(s) ==> text_of(field(args.data(), key@)) == Some(s@),
        r is None ==> text_of(field(args.data(), key@)) is None,
{
    match args.get(key) {
        Some(v) => v.as_str(),
        None => None,
    }
}

/// Returns the arguments under `echo`.
pub fn echo(args: &JsonValue) -> (r: JsonValue)
    ensures
        r.data() == echo_output(args.data()),
{
    let mut ms: Vec<(String, JsonValue)> = Vec::new();
    ms.push(member("echo", args.duplicate()));
    let r = JsonValue::object(ms);
    assert(members_data(ms@) =~= seq![("echo"@, args.data())]);
    r
}

/// Searches (a placeholder that echoes the query).
pub fn search(args: &JsonValue) -> (r: JsonValue)
    ensures
        r.data() == search_output(args.data()),
{
    let q = match text_arg(args, "query") {
        Some(q) => q,
        None => "",
    };
    let mut line = lit("Found docs for: ");
    push_all(&mut line, chars_of(q).as_slice());
    let mut found: Vec<JsonValue> = Vec::new();
    found.push(JsonValue::String(string_from_chars(line.as_slice())));
    let mut ms: Vec<(String, JsonValue)> = Vec::new();
    ms.push(member("results", JsonValue::array(found)));
    let r = JsonValue::object(ms);
    proof {
        reveal_strlit("");
        assert(elems_data(found@) =~= seq![Json::Str("Found docs for: "@ + query_arg(args.data()))]);
        assert(members_data(ms@) =~= seq![("results"@, Json::Arr(elems_data(found@)))]);
    }
    r
}

/// Document search (a placeholder that returns one sample hit).
pub fn search_documents(args: &JsonValue) -> (r: JsonValue)
    ensures
        r.data() == search_documents_output(args.data()),
{
    let q = match text_arg(args, "query") {
        Some(q) => q,
        None => "",
    };
    let qv = JsonValue::text(q);
    proof {
        reveal_strlit("");
        assert(q@ =~= query_arg(args.data()));
    }
    let top_k: u64 = match args.get("top_k") {
        Some(v) => match v.as_u64() {
            Some(n) => n,
            None => 5,
        },
        None => 5,
    };
    let mut hit: Vec<(String, JsonValue)> = Vec::new();
    hit.push(member("content", JsonValue::text("Sample document content related to the query")));
    hit.push(member("source", JsonValue::text("sample.pdf")));
    hit.push(member("similarity", JsonValue::Number(JsonNumber::Float(String::from_str("0.85")))));
    let hit_value = JsonValue::object(hit);
    let mut results: Vec<JsonValue> = Vec::new();
    results.push(hit_value);
    let mut ms: Vec<(String, JsonValue)> = Vec::new();
    ms.push(member("query", qv));
    ms.push(member("results", JsonValue::array(results)));
    ms.push(member("top_k", JsonValue::Number(JsonNumber::PosInt(top_k as usize as u64))));
    let r = JsonValue::object(ms);
    proof {
        reveal_strlit("");
        assert(members_data(hit@) =~= sample_hit()->Obj_0);
        assert(elems_data(results@) =~= seq![sample_hit()]);
        assert(members_data(ms@)[0] == ("query"@, Json::Str(query_arg(args.data()))));
        assert(members_data(ms@)[1] == ("results"@, Json::Arr(seq![sample_hit()])));
        assert(members_data(ms@)[2] == ("top_k"@, Json::PosInt(top_k_arg(args.data()))));
        assert(members_data(ms@) =~= search_documents_output(args.data())->Obj_0);
    }
    r
}

/// SharePoint file listing (a placeholder that returns one sample file).
pub fn fetch_sharepoint_files(args: &JsonValue) -> (r: JsonValue)
    ensures
        r.data() == fetch_files_output(args.data()),
{
    let library = match text_arg(args, "library_name") {
        Some(l) => l,
        None => "Documents",
    };
    let mut file: Vec<(String, JsonValue)> = Vec::new();
    file.push(member("name", JsonValue::text("document1.docx")));
    file.push(member("url", JsonValue::text("/sites/test/Shared Documents/document1.docx")));
    file.push(member("size", JsonValue::Number(JsonNumber::PosInt(1024000))));
    file.push(member("last_modified", JsonValue::text("2024-01-15T10:30:00Z")));
    let mut files: Vec<JsonValue> = Vec::new();
    files.push(JsonValue::object(file));
    let mut ms: Vec<(String, JsonValue)> = Vec::new();
    ms.push(member("library", JsonValue::text(library)));
    ms.push(member("files", JsonValue::array(files)));
    let r = JsonValue::object(ms);
    proof {
        assert(members_data(file@) =~= sample_file()->Obj_0);
        assert(elems_data(files@) =~= seq![sample_file()]);
        assert(members_data(ms@) =~= fetch_files_output(args.data())->Obj_0);
    }
    r
}

/// Dataverse query (a placeholder that returns one sample record).
pub fn query_dataverse(args: &JsonValue) -> (r: JsonValue)
    ensures
        r.data() == query_dataverse_output(args.data()),
{
    let table = match text_arg(args, "table_name") {
        Some(t) => t,
        None => "accounts",
    };
    let filter = text_arg(args, "filter");
    let mut record: Vec<(String, JsonValue)> = Vec::new();
    record.push(member("id", JsonValue::text("12345")));
    record.push(member("name", JsonValue::text("Sample Account")));
    record.push(member("type", JsonValue::text("Customer")));
    let mut records: Vec<JsonValue> = Vec::new();
    records.push(JsonValue::object(record));
    let mut ms: Vec<(String, JsonValue)> = Vec::new();
    ms.push(member("table", JsonValue::text(table)));
    ms.push(member("records", JsonValue::array(records)));
    proof {
        assert(members_data(record@) =~= sample_record()->Obj_0);
        assert(elems_data(records@) =~= seq![sample_record()]);
    }
    let ghost base = members_data(ms@);
    assert(base =~= seq![("table"@, Json::Str(table_arg(args.data()))), ("records"@, Json::Arr(seq![sample_record()]))]);
    if let Some(f) = filter {
        ms.push(member("filter", JsonValue::text(f)));
        assert(members_data(ms@) =~= base.push(("filter"@, Json::Str(f@))));
    }
    JsonValue::object(ms)
}

impl Tool {
    /// Runs the tool on the arguments.
    pub fn call(&self, args: &JsonValue) -> (r: JsonValue)
        ensures
            r.data() == tool_output(self.kind, args.data()),
    {
        match self.kind {
            ToolKind::Echo => echo(args),
            ToolKind::Search => search(args),
            ToolKind::SearchDocuments => search_documents(args),
            ToolKind::FetchSharePointFiles => fetch_sharepoint_files(args),
            ToolKind::QueryDataverse => query_dataverse(args),
        }
    }
}

/// An error object `{"error": message}`.
pub open spec fn error_output(message: Seq<char>) -> Json {
    Json::Obj(seq![("error"@, Json::Str(message))])
}

/// What calling a tool by name returns at a permission level: the tool's output
/// when it exists and the level permits it, else an error object.
pub open spec fn call_output(
    table: Seq<(Seq<char>, ToolKind, PermissionLevel)>,
    name: Seq<char>,
    args: Json,
    level: PermissionLevel,
) -> Json {
    match tool_index(table, name, 0) {
        None => error_output("Tool not found"@),
        Some(i) => if permits(level, table[i].2) {
            tool_output(table[i].1, args)
        } else {
            error_output("Forbidden: Tool requires higher permission level"@)
        },
    }
}

fn error_value(message: &str) -> (r: JsonValue)
    ensures
        r.data() == error_output(message@),
{
    let mut ms: Vec<(String, JsonValue)> = Vec::new();
    ms.push(member("error", JsonValue::text(message)));
    assert(members_data(ms@) =~= seq![("error"@, Json::Str(message@))]);
    JsonValue::object(ms)
}

/// Calls the named tool with the arguments if the permission level allows it.
pub fn call_tool(name: &str, args: &JsonValue, level: PermissionLevel) -> (r: JsonValue)
    ensures
        r.data() == call_output(tool_table(), name@, args.data(), level),
{
    let tools = get_tools();
    match find_tool(&tools, name) {
        Some(t) => {
            proof {
                lemma_tool_index_range(tools_view(tools@), name@, 0);
                let i = tool_index(tools_view(tools@), name@, 0)->0;
                assert(tools_view(tools@)[i] == (tools@[i].name@, tools@[i].kind, tools@[i].required_permission));
            }
            if level.can_execute(t.required_permission) {
                t.call(args)
            } else {
                error_value("Forbidden: Tool requires higher permission level")
            }
        },
        None => error_value("Tool not found"),
    }
}

/// Every tool in the table needs only read-only permission, so a call of a tool
/// that exists returns that tool's output at either level.
pub proof fn law_tools_are_read_only(name: Seq<char>, args: Json, level: PermissionLevel)
    ensures
        tool_index(tool_table(), name, 0) matches Some(i) ==> call_output(
            tool_table(),
            name,
            args,
            level,
        ) == tool_output(tool_table()[i].1, args),
{
    let t = tool_table();
    if let Some(i) = tool_index(t, name, 0) {
        lemma_tool_index_range(t, name, 0);
        assert(t[i].2 == PermissionLevel::ReadOnly);
    }
}

pub proof fn lemma_tool_index_range(table: Seq<(Seq<char>, ToolKind, PermissionLevel)>, name: Seq<char>, from: int)
    requires
        0 <= from,
    ensures
        tool_index(table, name, from) matches Some(i) ==> from <= i < table.len() && table[i].0 == name,
    decreases table.len() - from,
{
    if from < table.len() && table[from].0 != name {
        lemma_tool_index_range(table, name, from + 1);
    }
}

/// A name that some entry at or after `from` carries is found.
pub proof fn lemma_tool_index_finds(
    table: Seq<(Seq<char>, ToolKind, PermissionLevel)>,
    name: Seq<char>,
    from: int,
    k: int,
)
    requires
        0 <= from <= k < table.len(),
        table[k].0 == name,
    ensures
        tool_index(table, name, from) is Some,
    decreases k - from,
{
    if table[from].0 != name {
        lemma_tool_index_finds(table, name, from + 1, k);
    }
}

} // verus!
