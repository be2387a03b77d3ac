//! The client-credentials token request.

use vstd::prelude::*;
use crate::json::{field, text_of, u64_of, Json, JsonValue};
use crate::text::{chars_of, lit, push_all, string_from_chars};

verus! {

broadcast use vstd::string::group_string_axioms;

/// The token endpoint of an Azure AD tenant.
pub fn token_url(tenant_id: &str) -> (s: String)
    ensures
        s@ == "https://login.microsoftonline.com/"@ + tenant_id@ + "/oauth2/v2.0/token"@,
{
    let mut m = lit("https://login.microsoftonline.com/");
    push_all(&mut m, chars_of(tenant_id).as_slice());
    push_all(&mut m, lit("/oauth2/v2.0/token").as_slice());
    string_from_chars(m.as_slice())
}

/// Views form fields as character sequences.
pub open spec fn fields_view(f: Seq<(String, String)>) -> Seq<(Seq<char>, Seq<char>)> {
    f.map_values(|p: (String, String)| (p.0@, p.1@))
}

/// The form of a client-credentials token request for `resource`.
pub fn token_form(client_id: &str, resource: &str, client_secret: &str) -> (f: Vec<(String, String)>)
    ensures
        fields_view(f@) == seq![
            ("client_id"@, client_id@),
            ("scope"@, resource@ + "/.default"@),
            ("client_secret"@, client_secret@),
            ("grant_type"@, "client_credentials"@),
        ],
{
    let mut scope = chars_of(resource);
    push_all(&mut scope, lit("/.default").as_slice());
    let mut f: Vec<(String, String)> = Vec::new();
    f.push((String::from_str("client_id"), String::from_str(client_id)));
    f.push((String::from_str("scope"), string_from_chars(scope.as_slice())));
    f.push((String::from_str("client_secret"), String::from_str(client_secret)));
    f.push((String::from_str("grant_type"), String::from_str("client_credentials")));
    assert(fields_view(f@) =~= seq![
        ("client_id"@, client_id@),
        ("scope"@, resource@ + "/.default"@),
        ("client_secret"@, client_secret@),
        ("grant_type"@, "client_credentials"@),
    ]);
    f
}

/// The access token of a token response: the response must hold a string
/// `access_token`, a string `token_type` and a non-negative integer `expires_in`.
pub open spec fn token_of(response: Json) -> Option<Seq<char>> {
    if text_of(field(response, "token_type"@)) is Some && u64_of(field(response, "expires_in"@)) is Some {
        text_of(field(response, "access_token"@))
    } else {
        None
    }
}

/// Reads the access token from a token response; `None` when the response
/// lacks one of its three fields or holds one of another type.
pub fn read_token_response(response: &JsonValue) -> (r: Option<String>)
    ensures
        r matches Some(t) ==> token_of(response.data()) == Some(t@),
        r is None ==> token_of(response.data()) is None,
{
    let token_type_ok = match response.get("token_type") {
        Some(v) => v.as_str().is_some(),
        None => false,
    };
    let expires_ok = match response.get("expires_in") {
        Some(v) => v.as_u64().is_some(),
        None => false,
    };
    if !token_type_ok || !expires_ok {
        return None;
    }
    match response.get("access_token") {
        Some(v) => match v.as_str() {
            Some(t) => Some(String::from_str(t)),
            None => None,
        },
        None => None,
    }
}

} // verus!
