//! SharePoint REST requests and the files and list items read from responses.

use vstd::prelude::*;
use crate::json::{
    elems_data, elems_of, field, kept_members, members_data, picked, text_of, u64_of, Json,
    JsonValue,
};
use crate::text::{chars_eq, chars_of, lit, push_all, starts_with, starts_with_chars, string_from_chars};

verus! {

broadcast use vstd::string::group_string_axioms;

/// A file of a document library.
#[derive(Debug, Clone)]
pub struct SharePointFile {
    pub name: String,
    pub url: String,
    pub size: u64,
    pub last_modified: String,
    pub content_type: String,
}

/// An item of a SharePoint list: its id, its title, and its other fields.
#[derive(Debug)]
pub struct SharePointListItem {
    pub id: String,
    pub title: String,
    pub fields: Vec<(String, JsonValue)>,
}

/// The request for the files of a library.
pub fn files_url(site_url: &str, library_name: &str) -> (s: String)
    ensures
        s@ == site_url@ + "/_api/web/lists/getbytitle('"@ + library_name@
            + "')/items?$select=FileLeafRef,FileRef,File_x0020_Size,Modified,File_x0020_Type"@,
{
    let mut m = chars_of(site_url);
    push_all(&mut m, lit("/_api/web/lists/getbytitle('").as_slice());
    push_all(&mut m, chars_of(library_name).as_slice());
    push_all(
        &mut m,
        lit("')/items?$select=FileLeafRef,FileRef,File_x0020_Size,Modified,File_x0020_Type").as_slice(),
    );
    string_from_chars(m.as_slice())
}

/// The request for the raw content of a file.
pub fn file_content_url(site_url: &str, file_url: &str) -> (s: String)
    ensures
        s@ == site_url@ + "/_api/web/getfilebyserverrelativeurl('"@ + file_url@ + "')/$value"@,
{
    let mut m = chars_of(site_url);
    push_all(&mut m, lit("/_api/web/getfilebyserverrelativeurl('").as_slice());
    push_all(&mut m, chars_of(file_url).as_slice());
    push_all(&mut m, lit("')/$value").as_slice());
    string_from_chars(m.as_slice())
}

/// The request for the items of a list.
pub fn list_items_url(site_url: &str, list_name: &str) -> (s: String)
    ensures
        s@ == site_url@ + "/_api/web/lists/getbytitle('"@ + list_name@ + "')/items"@,
{
    let mut m = chars_of(site_url);
    push_all(&mut m, lit("/_api/web/lists/getbytitle('").as_slice());
    push_all(&mut m, chars_of(list_name).as_slice());
    push_all(&mut m, lit("')/items").as_slice());
    string_from_chars(m.as_slice())
}

/// The entries of the `value` array of a response, or none.
pub open spec fn value_entries(data: Json) -> Seq<Json> {
    match elems_of(field(data, "value"@)) {
        Some(es) => es,
        None => Seq::empty(),
    }
}

/// A file read from a response entry: all five fields must be present with their types.
pub open spec fn library_file_of(e: Json) -> Option<(Seq<char>, Seq<char>, u64, Seq<char>, Seq<char>)> {
    match (
        text_of(field(e, "FileLeafRef"@)),
        text_of(field(e, "FileRef"@)),
        u64_of(field(e, "File_x0020_Size"@)),
        text_of(field(e, "Modified"@)),
        text_of(field(e, "File_x0020_Type"@)),
    ) {
        (Some(n), Some(u), Some(s), Some(m), Some(t)) => Some((n, u, s, m, t)),
        _ => None,
    }
}

pub open spec fn library_files_view(v: Seq<SharePointFile>) -> Seq<(Seq<char>, Seq<char>, u64, Seq<char>, Seq<char>)> {
    v.map_values(|f: SharePointFile| (f.name@, f.url@, f.size, f.last_modified@, f.content_type@))
}

fn text_field<'a>(v: &'a JsonValue, key: &str) -> (r: Option<&'a str>)
    ensures
        r matches Some(s) ==> text_of(field(v.data(), key@)) == Some(s@),
        r is None ==> text_of(field(v.data(), key@)) is None,
{
    match v.get(key) {
        Some(x) => x.as_str(),
        None => None,
    }
}

fn value_list(data: &JsonValue) -> (r: Option<&Vec<JsonValue>>)
    ensures
        r matches Some(v) ==> value_entries(data.data()) == elems_data(v@),
        r is None ==> value_entries(data.data()) == Seq::<Json>::empty(),
{
    match data.get("value") {
        Some(v) => v.as_array(),
        None => None,
    }
}

/// Reads the files of a library listing.
pub fn parse_files(data: &JsonValue) -> (r: Vec<SharePointFile>)
    ensures
        library_files_view(r@) == picked(value_entries(data.data()), |e: Json| library_file_of(e)),
{
    let mut out: Vec<SharePointFile> = Vec::new();
    let entries = match value_list(data) {
        Some(es) => es,
        None => {
            assert(library_files_view(out@) =~= Seq::<(Seq<char>, Seq<char>, u64, Seq<char>, Seq<char>)>::empty());
            return out;
        },
    };
    let ghost es = elems_data(entries@);
    let ghost pick = |e: Json| library_file_of(e);
    let mut i: usize = 0;
    while i < entries.len()
        invariant
            i <= entries@.len(),
            es == elems_data(entries@),
            pick == (|e: Json| library_file_of(e)),
            library_files_view(out@) == picked(es.take(i as int), pick),
        decreases entries@.len() - i,
    {
        let e = &entries[i];
        assert(es.take(i + 1).drop_last() =~= es.take(i as int));
        assert(es.take(i + 1).last() == e.data());
        let size = match e.get("File_x0020_Size") {
            Some(x) => x.as_u64(),
            None => None,
        };
        match (
            text_field(e, "FileLeafRef"),
            text_field(e, "FileRef"),
            size,
            text_field(e, "Modified"),
            text_field(e, "File_x0020_Type"),
        ) {
            (Some(n), Some(u), Some(sz), Some(m), Some(t)) => {
                out.push(
                    SharePointFile {
                        name: String::from_str(n),
                        url: String::from_str(u),
                        size: sz,
                        last_modified: String::from_str(m),
                        content_type: String::from_str(t),
                    },
                );
            },
            _ => {},
        }
        assert(library_files_view(out@) =~= picked(es.take(i + 1), pick));
        i = i + 1;
    }
    assert(es.take(entries@.len() as int) =~= es);
    out
}

/// A list field is kept unless it is OData metadata or the id.
pub open spec fn keeps_list_field(key: Seq<char>) -> bool {
    !starts_with(key, "odata"@) && key != "ID"@
}

/// An item read from a list entry: the entry must be an object with a text `ID`;
/// the title is its text `Title`, or empty; the fields are the members kept.
pub open spec fn list_item_of(e: Json) -> Option<(Seq<char>, Seq<char>, Seq<(Seq<char>, Json)>)> {
    match e {
        Json::Obj(ms) => match text_of(field(e, "ID"@)) {
            Some(id) => Some((
                id,
                match text_of(field(e, "Title"@)) {
                    Some(t) => t,
                    None => Seq::empty(),
                },
                kept_members(ms, |k: Seq<char>| keeps_list_field(k)),
            )),
            None => None,
        },
        _ => None,
    }
}

pub open spec fn list_items_view(v: Seq<SharePointListItem>) -> Seq<(Seq<char>, Seq<char>, Seq<(Seq<char>, Json)>)> {
    v.map_values(|it: SharePointListItem| (it.id@, it.title@, members_data(it.fields@)))
}

fn list_fields(ms: &Vec<(String, JsonValue)>) -> (r: Vec<(String, JsonValue)>)
    ensures
        members_data(r@) == kept_members(members_data(ms@), |k: Seq<char>| keeps_list_field(k)),
{
    let ghost md = members_data(ms@);
    let ghost keep = |k: Seq<char>| keeps_list_field(k);
    let odata = lit("odata");
    let id_key = lit("ID");
    let mut out: Vec<(String, JsonValue)> = Vec::new();
    let mut i: usize = 0;
    while i < ms.len()
        invariant
            i <= ms@.len(),
            md == members_data(ms@),
            keep == (|k: Seq<char>| keeps_list_field(k)),
            odata@ == "odata"@,
            id_key@ == "ID"@,
            members_data(out@) == kept_members(md.take(i as int), keep),
        decreases ms@.len() - i,
    {
        let key = chars_of(ms[i].0.as_str());
        assert(md.take(i + 1).drop_last() =~= md.take(i as int));
        assert(md.take(i + 1).last() == (ms@[i as int].0@, ms@[i as int].1.data()));
        if !starts_with_chars(key.as_slice(), odata.as_slice()) && !chars_eq(key.as_slice(), id_key.as_slice()) {
            let value = ms[i].1.duplicate();
            out.push((ms[i].0.clone(), value));
        }
        assert(members_data(out@) =~= kept_members(md.take(i + 1), keep));
        i = i + 1;
    }
    assert(md.take(ms@.len() as int) =~= md);
    out
}

/// Reads the items of a list listing.
pub fn parse_list_items(data: &JsonValue) -> (r: Vec<SharePointListItem>)
    ensures
        list_items_view(r@) == picked(value_entries(data.data()), |e: Json| list_item_of(e)),
{
    let mut out: Vec<SharePointListItem> = Vec::new();
    let entries = match value_list(data) {
        Some(es) => es,
        None => {
            assert(list_items_view(out@) =~= Seq::<(Seq<char>, Seq<char>, Seq<(Seq<char>, Json)>)>::empty());
            return out;
        },
    };
    let ghost es = elems_data(entries@);
    let ghost pick = |e: Json| list_item_of(e);
    let mut i: usize = 0;
    while i < entries.len()
        invariant
            i <= entries@.len(),
            es == elems_data(entries@),
            pick == (|e: Json| list_item_of(e)),
            list_items_view(out@) == picked(es.take(i as int), pick),
        decreases entries@.len() - i,
    {
        let e = &entries[i];
        assert(es.take(i + 1).drop_last() =~= es.take(i as int));
        assert(es.take(i + 1).last() == e.data());
        match e.as_object() {
            Some(ms) => {
                match text_field(e, "ID") {
                    Some(id) => {
                        let title = match text_field(e, "Title") {
                            Some(t) => t,
                            None => "",
                        };
                        proof {
                            reveal_strlit("");
                        }
                        let item = SharePointListItem {
                            id: String::from_str(id),
                            title: String::from_str(title),
                            fields: list_fields(ms),
                        };
                        assert(item.title@ =~= match text_of(field(e.data(), "Title"@)) {
                            Some(t) => t,
                            None => Seq::<char>::empty(),
                        });
                        out.push(item);
                    },
                    None => {},
                }
            },
            None => {},
        }
        assert(list_items_view(out@) =~= picked(es.take(i + 1), pick));
        i = i + 1;
    }
    assert(es.take(entries@.len() as int) =~= es);
    out
}

} // verus!
