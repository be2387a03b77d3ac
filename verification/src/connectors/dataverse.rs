//! Dataverse Web API requests and the tables and records read from responses.

use vstd::prelude::*;
use crate::connectors::sharepoint::value_entries;
use crate::json::{
    distinct_keys, elems_data, field, field_of, kept_members, lemma_kept_members_distinct, members_data, picked, text_of, Json, JsonValue,
};
use crate::text::{
    chars_eq, chars_of, decimal, ends_with, ends_with_chars, lit, push_all, push_decimal,
    split_at_char, split_on, string_from_chars, seqs_of,
};
use vstd::utf8::encode_utf8;

verus! {

broadcast use vstd::string::group_string_axioms;

/// A table (entity) of a Dataverse environment.
#[derive(Debug, Clone)]
pub struct DataverseTable {
    pub logical_name: String,
    pub display_name: String,
    pub description: Option<String>,
}

/// A record of a Dataverse table: its id, its table, and its other fields.
#[derive(Debug)]
pub struct DataverseRecord {
    pub id: String,
    pub logical_name: String,
    pub fields: Vec<(String, JsonValue)>,
}

/// The Web API root of an environment.
pub open spec fn api_root(base_url: Seq<char>) -> Seq<char> {
    base_url + "/api/data/v9.2/"@
}

/// The request for the tables of an environment.
pub fn tables_url(base_url: &str) -> (s: String)
    ensures
        s@ == api_root(base_url@) + "EntityDefinitions?$select=LogicalName,DisplayName,Description"@,
{
    let mut m = chars_of(base_url);
    push_all(&mut m, lit("/api/data/v9.2/").as_slice());
    push_all(&mut m, lit("EntityDefinitions?$select=LogicalName,DisplayName,Description").as_slice());
    string_from_chars(m.as_slice())
}

/// The request for the records of a table, at most `top` of them when given.
pub fn records_url(base_url: &str, table_name: &str, top: Option<u32>) -> (s: String)
    ensures
        s@ == api_root(base_url@) + table_name@ + match top {
            Some(n) => "?$top="@ + decimal(n as nat),
            None => Seq::empty(),
        },
{
    let mut m = chars_of(base_url);
    push_all(&mut m, lit("/api/data/v9.2/").as_slice());
    push_all(&mut m, chars_of(table_name).as_slice());
    let ghost before = m@;
    match top {
        Some(n) => {
            push_all(&mut m, lit("?$top=").as_slice());
            push_decimal(&mut m, n as u64);
        },
        None => {
            assert(m@ =~= before + Seq::<char>::empty());
        },
    }
    string_from_chars(m.as_slice())
}

/// A byte that URL encoding leaves as it is: ASCII letters and digits, `-`, `.`, `_`, `~`.
pub open spec fn is_url_safe(b: u8) -> bool {
    (48 <= b <= 57) || (65 <= b <= 90) || (97 <= b <= 122) || b == 45 || b == 46 || b == 95
        || b == 126
}

/// The uppercase hexadecimal digit for a value below sixteen.
pub open spec fn upper_hex_digit(d: nat) -> char {
    if d < 10 {
        (d + 48) as char
    } else {
        (d + 55) as char
    }
}

/// Percent-encoding of bytes: safe bytes as themselves, every other byte as `%`
/// and two uppercase hexadecimal digits.
pub open spec fn percent_encoded(b: Seq<u8>) -> Seq<char>
    decreases b.len(),
{
    if b.len() == 0 {
        Seq::empty()
    } else {
        (if is_url_safe(b[0]) {
            seq![b[0] as char]
        } else {
            seq!['%', upper_hex_digit(b[0] as nat / 16), upper_hex_digit(b[0] as nat % 16)]
        }) + percent_encoded(b.drop_first())
    }
}

/// `urlencoding::encode`: percent-encodes every byte of the UTF-8 text except
/// ASCII alphanumerics and `-`, `_`, `.`, `~`, with uppercase hex digits.
#[verifier::external_body]
pub(crate) fn url_encode(s: &str) -> (r: String)
    ensures
        r@ == percent_encoded(encode_utf8(s@)),
{
    urlencoding::encode(s).into_owned()
}

/// The request for the records of a table that match an OData filter.
pub fn query_url(base_url: &str, table_name: &str, filter: &str) -> (s: String)
    ensures
        s@ == api_root(base_url@) + table_name@ + "?$filter="@ + percent_encoded(encode_utf8(filter@)),
{
    let mut m = chars_of(base_url);
    push_all(&mut m, lit("/api/data/v9.2/").as_slice());
    push_all(&mut m, chars_of(table_name).as_slice());
    push_all(&mut m, lit("?$filter=").as_slice());
    push_all(&mut m, chars_of(url_encode(filter).as_str()).as_slice());
    string_from_chars(m.as_slice())
}

/// The `Label` of the `UserLocalizedLabel` of a member.
pub open spec fn localized_label(e: Json, key: Seq<char>) -> Option<Seq<char>> {
    text_of(field_of(field_of(field(e, key), "UserLocalizedLabel"@), "Label"@))
}

/// A table read from a response entry: its text logical name and display label,
/// and its description label when there is one.
pub open spec fn table_of(e: Json) -> Option<(Seq<char>, Seq<char>, Option<Seq<char>>)> {
    match (text_of(field(e, "LogicalName"@)), localized_label(e, "DisplayName"@)) {
        (Some(l), Some(d)) => Some((l, d, localized_label(e, "Description"@))),
        _ => None,
    }
}

pub open spec fn opt_view(o: Option<String>) -> Option<Seq<char>> {
    match o {
        Some(s) => Some(s@),
        None => None,
    }
}

pub open spec fn tables_view(v: Seq<DataverseTable>) -> Seq<(Seq<char>, Seq<char>, Option<Seq<char>>)> {
    v.map_values(|t: DataverseTable| (t.logical_name@, t.display_name@, opt_view(t.description)))
}

fn label<'a>(e: &'a JsonValue, key: &str) -> (r: Option<&'a str>)
    ensures
        r matches Some(s) ==> localized_label(e.data(), key@) == Some(s@),
        r is None ==> localized_label(e.data(), key@) is None,
{
    let outer = match e.get(key) {
        Some(v) => v,
        None => return None,
    };
    let inner = match outer.get("UserLocalizedLabel") {
        Some(v) => v,
        None => return None,
    };
    match inner.get("Label") {
        Some(v) => v.as_str(),
        None => None,
    }
}

fn value_list(data: &JsonValue) -> (r: Option<&Vec<JsonValue>>)
    ensures
        r matches Some(v) ==> value_entries(data.data()) == elems_data(v@),
        r is None ==> value_entries(data.data()) == Seq::<Json>::empty(),
{
    match data.get("value") {
        Some(v) => v.as_array(),
        None => None,
    }
}

fn text_field<'a>(v: &'a JsonValue, key: &str) -> (r: Option<&'a str>)
    ensures
        r matches Some(s) ==> text_of(field(v.data(), key@)) == Some(s@),
        r is None ==> text_of(field(v.data(), key@)) is None,
{
    match v.get(key) {
        Some(x) => x.as_str(),
        None => None,
    }
}

/// Reads the tables of a table listing.
pub fn parse_tables(data: &JsonValue) -> (r: Vec<DataverseTable>)
    ensures
        tables_view(r@) == picked(value_entries(data.data()), |e: Json| table_of(e)),
{
    let mut out: Vec<DataverseTable> = Vec::new();
    let entries = match value_list(data) {
        Some(es) => es,
        None => {
            assert(tables_view(out@) =~= Seq::<(Seq<char>, Seq<char>, Option<Seq<char>>)>::empty());
            return out;
        },
    };
    let ghost es = elems_data(entries@);
    let ghost pick = |e: Json| table_of(e);
    let mut i: usize = 0;
    while i < entries.len()
        invariant
            i <= entries@.len(),
            es == elems_data(entries@),
            pick == (|e: Json| table_of(e)),
            tables_view(out@) == picked(es.take(i as int), pick),
        decreases entries@.len() - i,
    {
        let e = &entries[i];
        assert(es.take(i + 1).drop_last() =~= es.take(i as int));
        assert(es.take(i + 1).last() == e.data());
        match (text_field(e, "LogicalName"), label(e, "DisplayName")) {
            (Some(l), Some(d)) => {
                let description = match label(e, "Description") {
                    Some(s) => Some(String::from_str(s)),
                    None => None,
                };
                out.push(
                    DataverseTable {
                        logical_name: String::from_str(l),
                        display_name: String::from_str(d),
                        description,
                    },
                );
            },
            _ => {},
        }
        assert(tables_view(out@) =~= picked(es.take(i + 1), pick));
        i = i + 1;
    }
    assert(es.take(entries@.len() as int) =~= es);
    out
}

/// A record field is kept unless its name ends in "id" or it is OData metadata.
pub open spec fn keeps_record_field(key: Seq<char>) -> bool {
    !ends_with(key, "id"@) && key != "@odata.etag"@ && key != "@odata.context"@
}

/// A record read from a response entry of table `table`: the entry must be an
/// object whose `{table}id` member is text; its fields are the members kept.
pub open spec fn record_of(e: Json, table: Seq<char>) -> Option<(Seq<char>, Seq<(Seq<char>, Json)>)> {
    match e {
        Json::Obj(ms) => match text_of(field(e, table + "id"@)) {
            Some(id) => Some((id, kept_members(ms, |k: Seq<char>| keeps_record_field(k)))),
            None => None,
        },
        _ => None,
    }
}

pub open spec fn records_view(v: Seq<DataverseRecord>) -> Seq<(Seq<char>, Seq<char>, Seq<(Seq<char>, Json)>)> {
    v.map_values(|d: DataverseRecord| (d.id@, d.logical_name@, members_data(d.fields@)))
}

/// A record's fields carry no key twice when the entry it is read from
/// carries none twice (as every object parsed from JSON text does).
pub proof fn law_record_fields_distinct(e: Json, table: Seq<char>)
    requires
        e matches Json::Obj(ms) && distinct_keys(ms),
        record_of(e, table) is Some,
    ensures
        record_of(e, table) matches Some((id, fields)) && distinct_keys(fields),
{
    let ms = e->Obj_0;
    lemma_kept_members_distinct(ms, |k: Seq<char>| keeps_record_field(k));
}

/// The records of a listing as read: id, table, fields.
pub open spec fn records_of(data: Json, table: Seq<char>) -> Seq<(Seq<char>, Seq<char>, Seq<(Seq<char>, Json)>)> {
    picked(
        value_entries(data),
        |e: Json|
            match record_of(e, table) {
                Some((id, fs)) => Some((id, table, fs)),
                None => None,
            },
    )
}

fn record_fields(ms: &Vec<(String, JsonValue)>) -> (r: Vec<(String, JsonValue)>)
    ensures
        members_data(r@) == kept_members(members_data(ms@), |k: Seq<char>| keeps_record_field(k)),
{
    let ghost md = members_data(ms@);
    let ghost keep = |k: Seq<char>| keeps_record_field(k);
    let id_suffix = lit("id");
    let etag = lit("@odata.etag");
    let context = lit("@odata.context");
    let mut out: Vec<(String, JsonValue)> = Vec::new();
    let mut i: usize = 0;
    while i < ms.len()
        invariant
            i <= ms@.len(),
            md == members_data(ms@),
            keep == (|k: Seq<char>| keeps_record_field(k)),
            id_suffix@ == "id"@,
            etag@ == "@odata.etag"@,
            context@ == "@odata.context"@,
            members_data(out@) == kept_members(md.take(i as int), keep),
        decreases ms@.len() - i,
    {
        let key = chars_of(ms[i].0.as_str());
        assert(md.take(i + 1).drop_last() =~= md.take(i as int));
        assert(md.take(i + 1).last() == (ms@[i as int].0@, ms@[i as int].1.data()));
        if !ends_with_chars(key.as_slice(), id_suffix.as_slice()) && !chars_eq(key.as_slice(), etag.as_slice())
            && !chars_eq(key.as_slice(), context.as_slice()) {
            let value = ms[i].1.duplicate();
            out.push((ms[i].0.clone(), value));
        }
        assert(members_data(out@) =~= kept_members(md.take(i + 1), keep));
        i = i + 1;
    }
    assert(md.take(ms@.len() as int) =~= md);
    out
}

/// Reads the records of a record listing of table `table_name`.
pub fn parse_records(data: &JsonValue, table_name: &str) -> (r: Vec<DataverseRecord>)
    ensures
        records_view(r@) == records_of(data.data(), table_name@),
{
    let mut id_key = chars_of(table_name);
    push_all(&mut id_key, lit("id").as_slice());
    let id_key_text = string_from_chars(id_key.as_slice());
    let mut out: Vec<DataverseRecord> = Vec::new();
    let ghost pick = |e: Json|
        match record_of(e, table_name@) {
            Some((id, fs)) => Some((id, table_name@, fs)),
            None => None,
        };
    let entries = match value_list(data) {
        Some(es) => es,
        None => {
            assert(records_view(out@) =~= picked(Seq::<Json>::empty(), pick));
            return out;
        },
    };
    let ghost es = elems_data(entries@);
    let mut i: usize = 0;
    while i < entries.len()
        invariant
            i <= entries@.len(),
            es == elems_data(entries@),
            id_key_text@ == table_name@ + "id"@,
            pick == (|e: Json|
                match record_of(e, table_name@) {
                    Some((id, fs)) => Some((id, table_name@, fs)),
                    None => None,
                }),
            records_view(out@) == picked(es.take(i as int), pick),
        decreases entries@.len() - i,
    {
        let e = &entries[i];
        assert(es.take(i + 1).drop_last() =~= es.take(i as int));
        assert(es.take(i + 1).last() == e.data());
        match (text_field(e, id_key_text.as_str()), e.as_object()) {
            (Some(id), Some(ms)) => {
                out.push(
                    DataverseRecord {
                        id: String::from_str(id),
                        logical_name: String::from_str(table_name),
                        fields: record_fields(ms),
                    },
                );
            },
            _ => {},
        }
        assert(records_view(out@) =~= picked(es.take(i + 1), pick));
        i = i + 1;
    }
    assert(es.take(entries@.len() as int) =~= es);
    out
}

/// The id at the end of an entity location: the text after its last `/`.
pub fn entity_id(location: &str) -> (id: String)
    ensures
        id@ == split_on(location@, '/').last(),
{
    let pieces = split_at_char(chars_of(location).as_slice(), '/');
    proof {
        lemma_split_nonempty(location@, '/');
    }
    let last = pieces.len() - 1;
    assert(seqs_of(pieces@)[last as int] == pieces@[last as int]@);
    string_from_chars(pieces[last].as_slice())
}

proof fn lemma_split_nonempty(s: Seq<char>, c: char)
    ensures
        split_on(s, c).len() > 0,
    decreases s.len(),
{
    crate::text::lemma_field_len(s, c);
    let n = crate::text::field_len(s, c);
    if n < s.len() {
        lemma_split_nonempty(s.skip(n + 1 as int), c);
    }
}

} // verus!
