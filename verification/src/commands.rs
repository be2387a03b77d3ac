//! What the desktop commands compute: the tool arguments they build and how
//! they read the tools' results into typed records.

use vstd::prelude::*;
use crate::json::{
    elems_data, elems_of, field, is_number, member, members_data, picked, text_of, u64_of, Json,
    JsonNumber, JsonValue,
};
use crate::text::{chars_of, lit, push_all, string_from_chars};
use crate::agent::Message;
use crate::tools::{find_tool, get_tools, tool_index, tool_output, tool_table, tools_view};

verus! {

broadcast use vstd::string::group_string_axioms;

/// Arguments of the document search command.
pub struct SearchDocumentsPayload {
    pub query: String,
    pub top_k: Option<usize>,
}

/// Arguments of the SharePoint listing command.
pub struct FetchSharePointFilesPayload {
    pub library_name: String,
    pub access_token: Option<String>,
}

/// Arguments of the Dataverse query command.
pub struct QueryDataversePayload {
    pub table_name: String,
    pub filter: Option<String>,
    pub access_token: Option<String>,
}

/// Arguments of the document upload command.
pub struct UploadDocumentPayload {
    pub path: String,
    pub contents: String,
}

/// Arguments of the command that stores the chat assistant's API key.
pub struct ClaudeKeyPayload {
    pub api_key: String,
}

/// Whether the tool server runs, and on which port.
#[derive(Debug, Clone, Copy, PartialEq, Eq)]
pub struct ServerStatus {
    pub running: bool,
    pub port: u16,
}

/// The port the tool server listens on.
pub const MCP_SERVER_PORT: u16 = 3721;

/// The status reported for the tool server: running, on its port.
pub fn get_server_status() -> (s: ServerStatus)
    ensures
        s.running,
        s.port == MCP_SERVER_PORT,
{
    ServerStatus { running: true, port: MCP_SERVER_PORT }
}

/// A search hit: its content, its source, and its similarity as the number read.
pub struct SearchHit {
    pub content: String,
    pub source: String,
    pub similarity: JsonNumber,
}

/// A file of a SharePoint library as the commands report it.
#[derive(Debug, Clone)]
pub struct SharePointFile {
    pub name: String,
    pub url: String,
    pub size: u64,
    pub last_modified: String,
}

/// A Dataverse record as the commands report it: its id and the whole record.
#[derive(Debug)]
pub struct DataverseRecord {
    pub id: String,
    pub fields: JsonValue,
}

/// The outcome of reading the list under `key` of a tool result: no such member,
/// a member that is not an array, or the entries that `pick` accepts, in order.
pub open spec fn list_outcome<T>(
    result: Json,
    key: Seq<char>,
    missing: Seq<char>,
    invalid: Seq<char>,
    pick: spec_fn(Json) -> Option<T>,
) -> Result<Seq<T>, Seq<char>> {
    match field(result, key) {
        None => Err(missing),
        Some(v) => match elems_of(Some(v)) {
            None => Err(invalid),
            Some(es) => Ok(picked(es, pick)),
        },
    }
}

/// A search hit read from an entry: text content, text source, numeric similarity.
pub open spec fn hit_of(e: Json) -> Option<(Seq<char>, Seq<char>, Json)> {
    match (text_of(field(e, "content"@)), text_of(field(e, "source"@)), field(e, "similarity"@)) {
        (Some(c), Some(s), Some(n)) => if is_number(Some(n)) {
            Some((c, s, n))
        } else {
            None
        },
        _ => None,
    }
}

/// A file read from an entry: text name, url and modification time, integer size.
pub open spec fn file_of(e: Json) -> Option<(Seq<char>, Seq<char>, u64, Seq<char>)> {
    match (
        text_of(field(e, "name"@)),
        text_of(field(e, "url"@)),
        u64_of(field(e, "size"@)),
        text_of(field(e, "last_modified"@)),
    ) {
        (Some(n), Some(u), Some(s), Some(m)) => Some((n, u, s, m)),
        _ => None,
    }
}

/// A record read from an entry: its text id, and the entry itself.
pub open spec fn record_of(e: Json) -> Option<(Seq<char>, Json)> {
    match text_of(field(e, "id"@)) {
        Some(id) => Some((id, e)),
        None => None,
    }
}

pub open spec fn hits_view(r: Result<Vec<SearchHit>, String>) -> Result<Seq<(Seq<char>, Seq<char>, Json)>, Seq<char>> {
    match r {
        Ok(v) => Ok(v@.map_values(|h: SearchHit| (h.content@, h.source@, h.similarity.data()))),
        Err(e) => Err(e@),
    }
}

pub open spec fn files_view(r: Result<Vec<SharePointFile>, String>) -> Result<Seq<(Seq<char>, Seq<char>, u64, Seq<char>)>, Seq<char>> {
    match r {
        Ok(v) => Ok(v@.map_values(|f: SharePointFile| (f.name@, f.url@, f.size, f.last_modified@))),
        Err(e) => Err(e@),
    }
}

pub open spec fn records_view(r: Result<Vec<DataverseRecord>, String>) -> Result<Seq<(Seq<char>, Json)>, Seq<char>> {
    match r {
        Ok(v) => Ok(v@.map_values(|d: DataverseRecord| (d.id@, d.fields.data()))),
        Err(e) => Err(e@),
    }
}

fn text_field<'a>(v: &'a JsonValue, key: &str) -> (r: Option<&'a str>)
    ensures
        r matches Some(s) ==> text_of(field(v.data(), key@)) == Some(s@),
        r is None ==> text_of(field(v.data(), key@)) is None,
{
    match v.get(key) {
        Some(x) => x.as_str(),
        None => None,
    }
}

/// Reads the search hits of a document-search result.
pub fn parse_search_hits(result: &JsonValue) -> (r: Result<Vec<SearchHit>, String>)
    ensures
        hits_view(r) == list_outcome(
            result.data(),
            "results"@,
            "No results in response"@,
            "Invalid results format"@,
            |e: Json| hit_of(e),
        ),
{
    let list = match result.get("results") {
        None => return Err(String::from_str("No results in response")),
        Some(v) => v,
    };
    let entries = match list.as_array() {
        None => return Err(String::from_str("Invalid results format")),
        Some(es) => es,
    };
    let ghost es = elems_data(entries@);
    let ghost pick = |e: Json| hit_of(e);
    let mut out: Vec<SearchHit> = Vec::new();
    let mut i: usize = 0;
    while i < entries.len()
        invariant
            i <= entries@.len(),
            es == elems_data(entries@),
            pick == (|e: Json| hit_of(e)),
            hits_view(Ok::<Vec<SearchHit>, String>(out))->Ok_0 == picked(es.take(i as int), pick),
        decreases entries@.len() - i,
    {
        let e = &entries[i];
        let ghost old_out = out@;
        assert(es.take(i + 1).drop_last() =~= es.take(i as int));
        assert(es.take(i + 1).last() == e.data());
        match (text_field(e, "content"), text_field(e, "source"), e.get("similarity")) {
            (Some(c), Some(s), Some(n)) => {
                match n {
                    JsonValue::Number(num) => {
                        out.push(
                            SearchHit {
                                content: String::from_str(c),
                                source: String::from_str(s),
                                similarity: num.duplicate(),
                            },
                        );
                    },
                    _ => {},
                }
            },
            _ => {},
        }
        assert(hits_view(Ok::<Vec<SearchHit>, String>(out))->Ok_0 =~= picked(es.take(i + 1), pick));
        i = i + 1;
    }
    assert(es.take(entries@.len() as int) =~= es);
    Ok(out)
}

/// Reads the files of a SharePoint-listing result.
pub fn parse_sharepoint_files(result: &JsonValue) -> (r: Result<Vec<SharePointFile>, String>)
    ensures
        files_view(r) == list_outcome(
            result.data(),
            "files"@,
            "No files in response"@,
            "Invalid files format"@,
            |e: Json| file_of(e),
        ),
{
    let list = match result.get("files") {
        None => return Err(String::from_str("No files in response")),
        Some(v) => v,
    };
    let entries = match list.as_array() {
        None => return Err(String::from_str("Invalid files format")),
        Some(es) => es,
    };
    let ghost es = elems_data(entries@);
    let ghost pick = |e: Json| file_of(e);
    let mut out: Vec<SharePointFile> = Vec::new();
    let mut i: usize = 0;
    while i < entries.len()
        invariant
            i <= entries@.len(),
            es == elems_data(entries@),
            pick == (|e: Json| file_of(e)),
            files_view(Ok::<Vec<SharePointFile>, String>(out))->Ok_0 == picked(es.take(i as int), pick),
        decreases entries@.len() - i,
    {
        let e = &entries[i];
        assert(es.take(i + 1).drop_last() =~= es.take(i as int));
        assert(es.take(i + 1).last() == e.data());
        let size = match e.get("size") {
            Some(x) => x.as_u64(),
            None => None,
        };
        match (text_field(e, "name"), text_field(e, "url"), size, text_field(e, "last_modified")) {
            (Some(n), Some(u), Some(sz), Some(m)) => {
                out.push(
                    SharePointFile {
                        name: String::from_str(n),
                        url: String::from_str(u),
                        size: sz,
                        last_modified: String::from_str(m),
                    },
                );
            },
            _ => {},
        }
        assert(files_view(Ok::<Vec<SharePointFile>, String>(out))->Ok_0 =~= picked(es.take(i + 1), pick));
        i = i + 1;
    }
    assert(es.take(entries@.len() as int) =~= es);
    Ok(out)
}

/// Reads the records of a Dataverse-query result.
pub fn parse_dataverse_records(result: &JsonValue) -> (r: Result<Vec<DataverseRecord>, String>)
    ensures
        records_view(r) == list_outcome(
            result.data(),
            "records"@,
            "No records in response"@,
            "Invalid records format"@,
            |e: Json| record_of(e),
        ),
{
    let list = match result.get("records") {
        None => return Err(String::from_str("No records in response")),
        Some(v) => v,
    };
    let entries = match list.as_array() {
        None => return Err(String::from_str("Invalid records format")),
        Some(es) => es,
    };
    let ghost es = elems_data(entries@);
    let ghost pick = |e: Json| record_of(e);
    let mut out: Vec<DataverseRecord> = Vec::new();
    let mut i: usize = 0;
    while i < entries.len()
        invariant
            i <= entries@.len(),
            es == elems_data(entries@),
            pick == (|e: Json| record_of(e)),
            records_view(Ok::<Vec<DataverseRecord>, String>(out))->Ok_0 == picked(es.take(i as int), pick),
        decreases entries@.len() - i,
    {
        let e = &entries[i];
        assert(es.take(i + 1).drop_last() =~= es.take(i as int));
        assert(es.take(i + 1).last() == e.data());
        match text_field(e, "id") {
            Some(id) => {
                out.push(DataverseRecord { id: String::from_str(id), fields: e.duplicate() });
            },
            None => {},
        }
        assert(records_view(Ok::<Vec<DataverseRecord>, String>(out))->Ok_0 =~= picked(es.take(i + 1), pick));
        i = i + 1;
    }
    assert(es.take(entries@.len() as int) =~= es);
    Ok(out)
}

} // verus!

verus! {

/// What the named tool returns for the arguments, if there is such a tool.
pub open spec fn tool_result(name: Seq<char>, args: Json) -> Option<Json> {
    match tool_index(tool_table(), name, 0) {
        None => None,
        Some(i) => Some(tool_output(tool_table()[i].1, args)),
    }
}

/// The outcome of a command that calls a tool and reads a list from its result.
pub open spec fn command_outcome<T>(
    name: Seq<char>,
    args: Json,
    key: Seq<char>,
    missing: Seq<char>,
    invalid: Seq<char>,
    pick: spec_fn(Json) -> Option<T>,
) -> Result<Seq<T>, Seq<char>> {
    match tool_result(name, args) {
        None => Err("Tool not found"@),
        Some(res) => list_outcome(res, key, missing, invalid, pick),
    }
}

/// The arguments of a document search: the query, and `top_k` (5 where not given).
pub open spec fn search_args(query: Seq<char>, top_k: Option<usize>) -> Json {
    Json::Obj(
        seq![
            ("query"@, Json::Str(query)),
            ("top_k"@, Json::PosInt(
                (match top_k {
                    Some(k) => k,
                    None => 5,
                }) as u64,
            )),
        ],
    )
}

/// The arguments of a SharePoint listing: the library name.
pub open spec fn library_args(library_name: Seq<char>) -> Json {
    Json::Obj(seq![("library_name"@, Json::Str(library_name))])
}

/// The arguments of a Dataverse query: the table name, and the filter when given.
pub open spec fn dataverse_args(table_name: Seq<char>, filter: Option<Seq<char>>) -> Json {
    let base = seq![("table_name"@, Json::Str(table_name))];
    match filter {
        Some(f) => Json::Obj(base.push(("filter"@, Json::Str(f)))),
        None => Json::Obj(base),
    }
}

fn run_tool(name: &str, args: &JsonValue) -> (r: Option<JsonValue>)
    ensures
        r matches Some(v) ==> tool_result(name@, args.data()) == Some(v.data()),
        r is None ==> tool_result(name@, args.data()) is None,
{
    let tools = get_tools();
    match find_tool(&tools, name) {
        Some(t) => {
            proof {
                crate::tools::lemma_tool_index_range(tools_view(tools@), name@, 0);
                let i = tool_index(tools_view(tools@), name@, 0)->0;
                assert(tools_view(tools@)[i] == (
                    tools@[i].name@,
                    tools@[i].kind,
                    tools@[i].required_permission,
                ));
            }
            Some(t.call(args))
        },
        None => None,
    }
}

/// Searches the documents through the document-search tool.
pub fn search_documents(query: &str, top_k: Option<usize>) -> (r: Result<Vec<SearchHit>, String>)
    ensures
        hits_view(r) == command_outcome(
            "search_documents"@,
            search_args(query@, top_k),
            "results"@,
            "No results in response"@,
            "Invalid results format"@,
            |e: Json| hit_of(e),
        ),
{
    let k: usize = match top_k {
        Some(k) => k,
        None => 5,
    };
    let mut ms: Vec<(String, JsonValue)> = Vec::new();
    ms.push(member("query", JsonValue::text(query)));
    ms.push(member("top_k", JsonValue::Number(JsonNumber::PosInt(k as u64))));
    assert(members_data(ms@) =~= search_args(query@, top_k)->Obj_0);
    let args = JsonValue::object(ms);
    match run_tool("search_documents", &args) {
        Some(result) => parse_search_hits(&result),
        None => Err(String::from_str("Tool not found")),
    }
}

/// Lists a SharePoint library through the listing tool.
pub fn fetch_sharepoint_files(library_name: &str) -> (r: Result<Vec<SharePointFile>, String>)
    ensures
        files_view(r) == command_outcome(
            "fetch_sharepoint_files"@,
            library_args(library_name@),
            "files"@,
            "No files in response"@,
            "Invalid files format"@,
            |e: Json| file_of(e),
        ),
{
    let mut ms: Vec<(String, JsonValue)> = Vec::new();
    ms.push(member("library_name", JsonValue::text(library_name)));
    assert(members_data(ms@) =~= library_args(library_name@)->Obj_0);
    let args = JsonValue::object(ms);
    match run_tool("fetch_sharepoint_files", &args) {
        Some(result) => parse_sharepoint_files(&result),
        None => Err(String::from_str("Tool not found")),
    }
}

/// Queries a Dataverse table through the query tool.
pub fn query_dataverse(table_name: &str, filter: Option<String>) -> (r: Result<
    Vec<DataverseRecord>,
    String,
>)
    ensures
        records_view(r) == command_outcome(
            "query_dataverse"@,
            dataverse_args(
                table_name@,
                match filter {
                    Some(f) => Some(f@),
                    None => None,
                },
            ),
            "records"@,
            "No records in response"@,
            "Invalid records format"@,
            |e: Json| record_of(e),
        ),
{
    let mut ms: Vec<(String, JsonValue)> = Vec::new();
    ms.push(member("table_name", JsonValue::text(table_name)));
    let ghost base = members_data(ms@);
    assert(base =~= seq![("table_name"@, Json::Str(table_name@))]);
    match filter {
        Some(f) => {
            ms.push(member("filter", JsonValue::String(f)));
            assert(members_data(ms@) =~= base.push(("filter"@, Json::Str(f@))));
        },
        None => {},
    }
    let args = JsonValue::object(ms);
    match run_tool("query_dataverse", &args) {
        Some(result) => parse_dataverse_records(&result),
        None => Err(String::from_str("Tool not found")),
    }
}

/// The acknowledgement of a discovery run: "Discovery started for {source} at {url}".
pub fn discovery_started_message(source_type: &str, url: &str) -> (s: String)
    ensures
        s@ == "Discovery started for "@ + source_type@ + " at "@ + url@,
{
    let mut m = lit("Discovery started for ");
    push_all(&mut m, chars_of(source_type).as_slice());
    push_all(&mut m, lit(" at ").as_slice());
    push_all(&mut m, chars_of(url).as_slice());
    string_from_chars(m.as_slice())
}

/// The reply of the chat command: `{"reply": response}`.
pub fn chat_reply(response: &str) -> (r: JsonValue)
    ensures
        r.data() == Json::Obj(seq![("reply"@, Json::Str(response@))]),
{
    let mut ms: Vec<(String, JsonValue)> = Vec::new();
    ms.push(member("reply", JsonValue::text(response)));
    assert(members_data(ms@) =~= seq![("reply"@, Json::Str(response@))]);
    JsonValue::object(ms)
}

/// The confirmation of the command that stores the chat assistant's API key.
pub fn claude_key_saved_message() -> (s: &'static str)
    ensures
        s@ == "API key saved"@,
{
    "API key saved"
}

/// The error of a command that needs the database when none is open.
pub fn database_missing_message() -> (s: &'static str)
    ensures
        s@ == "Database not initialized"@,
{
    "Database not initialized"
}

/// The stored chat rows (role, content) as the messages the agent is given.
pub fn history_messages(rows: &Vec<(String, String)>) -> (r: Vec<Message>)
    ensures
        r@.len() == rows@.len(),
        forall|i: int|
            0 <= i < rows@.len() ==> (#[trigger] r@[i]).role@ == rows@[i].0@ && r@[i].content@
                == rows@[i].1@,
{
    let mut r: Vec<Message> = Vec::new();
    let mut i: usize = 0;
    while i < rows.len()
        invariant
            i <= rows@.len(),
            r@.len() == i,
            forall|k: int|
                0 <= k < i ==> (#[trigger] r@[k]).role@ == rows@[k].0@ && r@[k].content@
                    == rows@[k].1@,
        decreases rows@.len() - i,
    {
        r.push(Message { role: rows[i].0.clone(), content: rows[i].1.clone() });
        i = i + 1;
    }
    r
}

/// The results of a catalogue search by meaning, kept only when there are
/// some; `None` means the keyword search answers instead.
pub fn semantic_results_if_any(semantic: Option<Vec<JsonValue>>) -> (r: Option<Vec<JsonValue>>)
    ensures
        match semantic {
            Some(v) => if v@.len() > 0 {
                r == Some(v)
            } else {
                r is None
            },
            None => r is None,
        },
{
    match semantic {
        Some(v) => if v.len() > 0 {
            Some(v)
        } else {
            None
        },
        None => None,
    }
}

} // verus!
