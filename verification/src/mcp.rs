//! The MCP server's decisions: the tool listing, which requests the role
//! admits, the audit status of a response, tool calls at the configured
//! permission level, and the search endpoint's answer.

use vstd::prelude::*;
use crate::json::{elems_data, member, members_data, Json, JsonValue};
use crate::permissions::{role_can_query, PermissionLevel, UserRole};
use crate::text::{chars_of, contains, contains_chars, lit};
use crate::tools::{
    call_output, call_tool, lemma_tool_index_finds, lemma_tool_index_range, tool_index, tool_table,
};

verus! {

broadcast use {vstd::std_specs::vec::group_vec_axioms, vstd::string::group_string_axioms};

/// The tool names the listing endpoint announces, in order.
pub open spec fn listed_tool_names() -> Seq<Seq<char>> {
    seq![
        "search"@,
        "echo"@,
        "search_documents"@,
        "fetch_sharepoint_files"@,
        "query_dataverse"@,
    ]
}

/// The answer of the listing endpoint: `{"tools": [names]}`.
pub open spec fn tools_list_of() -> Json {
    Json::Obj(
        seq![("tools"@, Json::Arr(listed_tool_names().map_values(|n: Seq<char>| Json::Str(n))))],
    )
}

/// The answer of the listing endpoint.
pub fn tools_list() -> (r: JsonValue)
    ensures
        r.data() == tools_list_of(),
{
    let mut names: Vec<JsonValue> = Vec::new();
    names.push(JsonValue::text("search"));
    names.push(JsonValue::text("echo"));
    names.push(JsonValue::text("search_documents"));
    names.push(JsonValue::text("fetch_sharepoint_files"));
    names.push(JsonValue::text("query_dataverse"));
    assert(elems_data(names@) =~= listed_tool_names().map_values(|n: Seq<char>| Json::Str(n)));
    let mut ms: Vec<(String, JsonValue)> = Vec::new();
    ms.push(member("tools", JsonValue::array(names)));
    assert(members_data(ms@) =~= tools_list_of()->Obj_0);
    JsonValue::object(ms)
}

/// A request is refused when the role may not query and the path is a tool call.
pub open spec fn api_access_allowed_of(role: UserRole, path: Seq<char>) -> bool {
    role_can_query(role) || !contains(path, "/tools/call"@)
}

/// Whether a request to a path is admitted for a role.
pub fn api_access_allowed(role: UserRole, path: &str) -> (b: bool)
    ensures
        b == api_access_allowed_of(role, path@),
{
    role.can_query() || !contains_chars(chars_of(path).as_slice(), lit("/tools/call").as_slice())
}

/// The status an audited response is logged with.
pub fn audit_status(success: bool) -> (s: &'static str)
    ensures
        success ==> s@ == "success"@,
        !success ==> s@ == "failed"@,
{
    if success {
        "success"
    } else {
        "failed"
    }
}

/// A tool call request: the named tool runs with the arguments when it exists
/// and the configured level permits it; otherwise the answer is an error object.
pub fn tools_call(name: &str, arguments: &JsonValue, level: PermissionLevel) -> (r: JsonValue)
    ensures
        r.data() == call_output(tool_table(), name@, arguments.data(), level),
{
    call_tool(name, arguments, level)
}

/// The answer of the search endpoint: one placeholder result.
pub fn search_results() -> (r: Vec<String>)
    ensures
        r@.len() == 1,
        r@[0]@ == "Mock search result"@,
{
    let mut r: Vec<String> = Vec::new();
    r.push(String::from_str("Mock search result"));
    r
}

/// The listing announces exactly the tools that can be called: every listed
/// name is in the tool table, and every name in the table is listed.
pub proof fn law_listing_matches_tools(name: Seq<char>)
    ensures
        listed_tool_names().contains(name) <==> tool_index(tool_table(), name, 0) is Some,
{
    let listed = listed_tool_names();
    let table = tool_table();
    if listed.contains(name) {
        let i = choose|i: int| 0 <= i < listed.len() && listed[i] == name;
        let k: int = if i == 0 {
            1
        } else if i == 1 {
            0
        } else {
            i
        };
        assert(table[k].0 == listed[i]);
        lemma_tool_index_finds(table, name, 0, k);
    }
    if tool_index(table, name, 0) is Some {
        lemma_tool_index_range(table, name, 0);
        let k = tool_index(table, name, 0)->0;
        let i: int = if k == 0 {
            1
        } else if k == 1 {
            0
        } else {
            k
        };
        assert(listed[i] == table[k].0);
        assert(listed.contains(name));
    }
}

} // verus!
