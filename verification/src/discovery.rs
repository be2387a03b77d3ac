//! Discovery: which connector a sync runs, which site or environment it
//! reads, and the catalogue entries, summaries and embedding texts it
//! records for SharePoint files and Dataverse records.

use vstd::prelude::*;
use crate::connectors::dataverse::{percent_encoded, url_encode, DataverseRecord, DataverseTable};
use crate::connectors::sharepoint::SharePointFile;
use crate::retrieval::{
    chunk_contents, content_hash_of, create_chunks, extract_text_content, is_chunk_id,
    is_chunking_of, is_text_extraction, ChunkConfig, DocumentChunk,
};
use crate::text::{ascii_lowercase, is_ascii_text, lowercase};
use crate::json::{field, lookup, member, members_data, text_of, Json, JsonNumber, JsonValue};
use crate::text::{chars_eq, chars_of, decimal, find_chars, find_from, occurs_at, lit, push_all, push_decimal, string_from_chars};
use vstd::utf8::encode_utf8;

verus! {

broadcast use {vstd::std_specs::vec::group_vec_axioms, vstd::string::group_string_axioms};

/// A catalogue entry found by discovery.
#[derive(Debug)]
pub struct DiscoveryItem {
    pub id: String,
    pub title: String,
    pub source_type: String,
    pub category: String,
    pub summary: String,
    pub metadata: JsonValue,
}

/// The connectors a discovery run can sync.
#[derive(Debug, Clone, Copy, PartialEq, Eq, Structural)]
pub enum DiscoverySource {
    SharePoint,
    Dataverse,
}

/// At most this many files of a library are synced in one run.
pub const SYNC_FILE_LIMIT: usize = 50;

/// At most this many Dataverse tables are synced in one run.
pub const SYNC_TABLE_LIMIT: usize = 3;

/// At most this many records of a table are read in one run.
pub const SYNC_RECORD_LIMIT: u32 = 10;

/// The connector named by a source: `sharepoint` or `dataverse`; any other
/// name is refused with "Unknown source: <name>".
pub fn discovery_source(source: &str) -> (r: Result<DiscoverySource, String>)
    ensures
        source@ == "sharepoint"@ ==> r == Ok::<DiscoverySource, String>(DiscoverySource::SharePoint),
        source@ == "dataverse"@ ==> r == Ok::<DiscoverySource, String>(DiscoverySource::Dataverse),
        source@ != "sharepoint"@ && source@ != "dataverse"@ ==> (r matches Err(e) && e@
            == "Unknown source: "@ + source@),
{
    let s = chars_of(source);
    proof {
        reveal_strlit("sharepoint");
        reveal_strlit("dataverse");
        assert("dataverse"@.len() != "sharepoint"@.len());
    }
    if chars_eq(s.as_slice(), lit("sharepoint").as_slice()) {
        Ok(DiscoverySource::SharePoint)
    } else if chars_eq(s.as_slice(), lit("dataverse").as_slice()) {
        Ok(DiscoverySource::Dataverse)
    } else {
        let mut m = lit("Unknown source: ");
        push_all(&mut m, s.as_slice());
        Err(string_from_chars(m.as_slice()))
    }
}

/// The URL a sync reads: the given one when it is not empty, else the
/// configured setting, else the empty text.
pub open spec fn chosen_url(url: Seq<char>, setting: Option<Seq<char>>) -> Seq<char> {
    if url.len() > 0 {
        url
    } else {
        match setting {
            Some(v) => v,
            None => Seq::empty(),
        }
    }
}

/// The URL a sync reads, from the given URL and the configured setting.
pub fn configured_url(url: &str, setting: Option<String>) -> (s: String)
    ensures
        s@ == chosen_url(
            url@,
            match setting {
                Some(v) => Some(v@),
                None => None,
            },
        ),
{
    if chars_of(url).len() > 0 {
        String::from_str(url)
    } else {
        match setting {
            Some(v) => v,
            None => String::new(),
        }
    }
}

/// The resource a SharePoint token is asked for: the site URL up to and
/// including its first `.sharepoint.com`, or Microsoft Graph when it has none.
pub open spec fn token_resource_of(site_url: Seq<char>) -> Seq<char> {
    match find_from(site_url, ".sharepoint.com"@, 0) {
        Some(p) => site_url.take(p + 15),
        None => "https://graph.microsoft.com"@,
    }
}

/// The resource a SharePoint token is asked for.
pub fn token_resource(site_url: &str) -> (s: String)
    ensures
        s@ == token_resource_of(site_url@),
{
    let mut t = chars_of(site_url);
    let marker = lit(".sharepoint.com");
    proof {
        reveal_strlit(".sharepoint.com");
    }
    match find_chars(t.as_slice(), marker.as_slice(), 0) {
        Some(p) => {
            proof {
                crate::text::lemma_find_from(t@, marker@, 0);
                assert(marker@.len() == 15);
                assert(occurs_at(t@, marker@, p as int));
                assert(p + 15 <= t@.len());
                assert(t@.len() == t.len());
            }
            t.truncate(p + 15);
            string_from_chars(t.as_slice())
        },
        None => String::from_str("https://graph.microsoft.com"),
    }
}

/// A SharePoint sync needs a site URL: "SharePoint Site URL is required" when it is empty.
pub fn require_site_url(site_url: &str) -> (r: Result<(), String>)
    ensures
        site_url@.len() > 0 <==> r is Ok,
        r matches Err(e) ==> e@ == "SharePoint Site URL is required"@,
{
    if chars_of(site_url).len() > 0 {
        Ok(())
    } else {
        Err(String::from_str("SharePoint Site URL is required"))
    }
}

/// A Dataverse sync needs a base URL: "Dataverse Base URL is required" when it is empty.
pub fn require_base_url(base_url: &str) -> (r: Result<(), String>)
    ensures
        base_url@.len() > 0 <==> r is Ok,
        r matches Err(e) ==> e@ == "Dataverse Base URL is required"@,
{
    if chars_of(base_url).len() > 0 {
        Ok(())
    } else {
        Err(String::from_str("Dataverse Base URL is required"))
    }
}

// ---------------------------------------------------------------------------
// SharePoint files

/// The catalogue id of a file: `sp_file_` and its URL-encoded name.
pub open spec fn sharepoint_item_id_of(name: Seq<char>) -> Seq<char> {
    "sp_file_"@ + percent_encoded(encode_utf8(name))
}

/// The summary of a file.
pub open spec fn sharepoint_summary_of(
    name: Seq<char>,
    size: u64,
    last_modified: Seq<char>,
    content_type: Seq<char>,
) -> Seq<char> {
    "A "@ + content_type + " file named "@ + name + ". Size: "@ + decimal(size as nat)
        + " bytes. Modified: "@ + last_modified
}

/// The text embedded for a catalogue entry: its title and its summary.
pub open spec fn metadata_embed_text_of(title: Seq<char>, summary: Seq<char>) -> Seq<char> {
    "Title: "@ + title + "\nSummary: "@ + summary
}

/// The metadata recorded for a file: its five fields.
pub open spec fn file_metadata_of(f: SharePointFile) -> Json {
    Json::Obj(
        seq![
            ("name"@, Json::Str(f.name@)),
            ("url"@, Json::Str(f.url@)),
            ("size"@, Json::PosInt(f.size)),
            ("last_modified"@, Json::Str(f.last_modified@)),
            ("content_type"@, Json::Str(f.content_type@)),
        ],
    )
}

/// The catalogue id of a file.
pub fn sharepoint_item_id(name: &str) -> (s: String)
    ensures
        s@ == sharepoint_item_id_of(name@),
{
    let mut m = lit("sp_file_");
    push_all(&mut m, chars_of(url_encode(name).as_str()).as_slice());
    string_from_chars(m.as_slice())
}

/// The summary of a file: "A <type> file named <name>. Size: <size> bytes. Modified: <date>".
pub fn sharepoint_summary(file: &SharePointFile) -> (s: String)
    ensures
        s@ == sharepoint_summary_of(file.name@, file.size, file.last_modified@, file.content_type@),
{
    let mut m = lit("A ");
    push_all(&mut m, chars_of(file.content_type.as_str()).as_slice());
    push_all(&mut m, lit(" file named ").as_slice());
    push_all(&mut m, chars_of(file.name.as_str()).as_slice());
    push_all(&mut m, lit(". Size: ").as_slice());
    push_decimal(&mut m, file.size);
    push_all(&mut m, lit(" bytes. Modified: ").as_slice());
    push_all(&mut m, chars_of(file.last_modified.as_str()).as_slice());
    string_from_chars(m.as_slice())
}

/// The text embedded for a catalogue entry: "Title: <title>\nSummary: <summary>".
pub fn metadata_embed_text(title: &str, summary: &str) -> (s: String)
    ensures
        s@ == metadata_embed_text_of(title@, summary@),
{
    let mut m = lit("Title: ");
    push_all(&mut m, chars_of(title).as_slice());
    push_all(&mut m, lit("\nSummary: ").as_slice());
    push_all(&mut m, chars_of(summary).as_slice());
    string_from_chars(m.as_slice())
}

/// The metadata recorded for a file.
pub fn file_metadata(file: &SharePointFile) -> (r: JsonValue)
    ensures
        r.data() == file_metadata_of(*file),
{
    let mut ms: Vec<(String, JsonValue)> = Vec::new();
    ms.push(member("name", JsonValue::text(file.name.as_str())));
    ms.push(member("url", JsonValue::text(file.url.as_str())));
    ms.push(member("size", JsonValue::Number(JsonNumber::PosInt(file.size))));
    ms.push(member("last_modified", JsonValue::text(file.last_modified.as_str())));
    ms.push(member("content_type", JsonValue::text(file.content_type.as_str())));
    assert(members_data(ms@) =~= file_metadata_of(*file)->Obj_0);
    JsonValue::object(ms)
}

/// The catalogue entry of a file: its id, its name as title, the SharePoint
/// source, the `File` category, its summary, and its fields as metadata.
pub fn sharepoint_item(file: &SharePointFile) -> (item: DiscoveryItem)
    ensures
        item.id@ == sharepoint_item_id_of(file.name@),
        item.title@ == file.name@,
        item.source_type@ == "SharePoint"@,
        item.category@ == "File"@,
        item.summary@ == sharepoint_summary_of(
            file.name@,
            file.size,
            file.last_modified@,
            file.content_type@,
        ),
        item.metadata.data() == file_metadata_of(*file),
{
    DiscoveryItem {
        id: sharepoint_item_id(file.name.as_str()),
        title: String::from_str(file.name.as_str()),
        source_type: String::from_str("SharePoint"),
        category: String::from_str("File"),
        summary: sharepoint_summary(file),
        metadata: file_metadata(file),
    }
}

/// The files a sync processes: the first ones of the listing, up to the limit.
pub fn files_to_sync(files: Vec<SharePointFile>) -> (r: Vec<SharePointFile>)
    ensures
        files@.len() <= SYNC_FILE_LIMIT ==> r@ == files@,
        files@.len() > SYNC_FILE_LIMIT ==> r@ == files@.take(SYNC_FILE_LIMIT as int),
{
    let mut files = files;
    files.truncate(SYNC_FILE_LIMIT);
    files
}

// ---------------------------------------------------------------------------
// Dataverse records

/// The catalogue id of a record: `dv_rec_<table>_<id>`.
pub open spec fn dataverse_item_id_of(table: Seq<char>, record_id: Seq<char>) -> Seq<char> {
    "dv_rec_"@ + table + "_"@ + record_id
}

/// The title of a record: its `name` field when that is a string, else `Record <id>`.
pub open spec fn record_title_of(fields: Seq<(Seq<char>, Json)>, record_id: Seq<char>) -> Seq<char> {
    match text_of(lookup(fields, "name"@)) {
        Some(t) => t,
        None => "Record "@ + record_id,
    }
}

/// The summary of a record of a table.
pub open spec fn dataverse_summary_of(display_name: Seq<char>) -> Seq<char> {
    "A record from the "@ + display_name + " table in Dataverse."@
}

/// The text embedded for a record.
pub open spec fn record_embed_text_of(title: Seq<char>, entity: Seq<char>, summary: Seq<char>) -> Seq<
    char,
> {
    "Title: "@ + title + "\nEntity: "@ + entity + "\nSummary: "@ + summary
}

/// The metadata recorded for a record: its id, its table and its fields.
pub open spec fn record_metadata_of(r: DataverseRecord) -> Json {
    Json::Obj(
        seq![
            ("id"@, Json::Str(r.id@)),
            ("logical_name"@, Json::Str(r.logical_name@)),
            ("fields"@, Json::Obj(members_data(r.fields@))),
        ],
    )
}

/// The catalogue id of a record.
pub fn dataverse_item_id(table_name: &str, record_id: &str) -> (s: String)
    ensures
        s@ == dataverse_item_id_of(table_name@, record_id@),
{
    let mut m = lit("dv_rec_");
    push_all(&mut m, chars_of(table_name).as_slice());
    push_all(&mut m, lit("_").as_slice());
    push_all(&mut m, chars_of(record_id).as_slice());
    string_from_chars(m.as_slice())
}

/// The title of a record.
pub fn record_title(record: &DataverseRecord) -> (s: String)
    ensures
        s@ == record_title_of(members_data(record.fields@), record.id@),
{
    let fields = JsonValue::object(record_fields_copy(&record.fields));
    match fields.get("name") {
        Some(v) => match v.as_str() {
            Some(t) => {
                return String::from_str(t);
            },
            None => {},
        },
        None => {},
    }
    let mut m = lit("Record ");
    push_all(&mut m, chars_of(record.id.as_str()).as_slice());
    string_from_chars(m.as_slice())
}

/// A copy of a record's fields.
fn record_fields_copy(fields: &Vec<(String, JsonValue)>) -> (r: Vec<(String, JsonValue)>)
    ensures
        members_data(r@) == members_data(fields@),
{
    let mut out: Vec<(String, JsonValue)> = Vec::new();
    let mut i: usize = 0;
    while i < fields.len()
        invariant
            i <= fields@.len(),
            members_data(out@) == members_data(fields@).take(i as int),
        decreases fields@.len() - i,
    {
        let ghost prev = members_data(out@);
        out.push((fields[i].0.clone(), fields[i].1.duplicate()));
        assert(members_data(out@) =~= members_data(fields@).take(i + 1)) by {
            assert(members_data(out@) =~= prev.push((fields@[i as int].0@, fields@[i as int].1.data())));
        }
        i = i + 1;
    }
    assert(members_data(fields@).take(i as int) =~= members_data(fields@));
    out
}

/// The summary of a record: "A record from the <table> table in Dataverse.".
pub fn dataverse_summary(display_name: &str) -> (s: String)
    ensures
        s@ == dataverse_summary_of(display_name@),
{
    let mut m = lit("A record from the ");
    push_all(&mut m, chars_of(display_name).as_slice());
    push_all(&mut m, lit(" table in Dataverse.").as_slice());
    string_from_chars(m.as_slice())
}

/// The text embedded for a record: "Title: <title>\nEntity: <table>\nSummary: <summary>".
pub fn record_embed_text(title: &str, entity: &str, summary: &str) -> (s: String)
    ensures
        s@ == record_embed_text_of(title@, entity@, summary@),
{
    let mut m = lit("Title: ");
    push_all(&mut m, chars_of(title).as_slice());
    push_all(&mut m, lit("\nEntity: ").as_slice());
    push_all(&mut m, chars_of(entity).as_slice());
    push_all(&mut m, lit("\nSummary: ").as_slice());
    push_all(&mut m, chars_of(summary).as_slice());
    string_from_chars(m.as_slice())
}

/// The metadata recorded for a record.
pub fn record_metadata(record: &DataverseRecord) -> (r: JsonValue)
    ensures
        r.data() == record_metadata_of(*record),
{
    let mut ms: Vec<(String, JsonValue)> = Vec::new();
    ms.push(member("id", JsonValue::text(record.id.as_str())));
    ms.push(member("logical_name", JsonValue::text(record.logical_name.as_str())));
    ms.push(member("fields", JsonValue::object(record_fields_copy(&record.fields))));
    assert(members_data(ms@) =~= record_metadata_of(*record)->Obj_0);
    JsonValue::object(ms)
}

/// The catalogue entry of a record of a table: its id, its title, the
/// Dataverse source, the table's display name as category, its summary and
/// the record as metadata.
pub fn dataverse_item(table: &DataverseTable, record: &DataverseRecord) -> (item: DiscoveryItem)
    ensures
        item.id@ == dataverse_item_id_of(table.logical_name@, record.id@),
        item.title@ == record_title_of(members_data(record.fields@), record.id@),
        item.source_type@ == "Dataverse"@,
        item.category@ == table.display_name@,
        item.summary@ == dataverse_summary_of(table.display_name@),
        item.metadata.data() == record_metadata_of(*record),
{
    DiscoveryItem {
        id: dataverse_item_id(table.logical_name.as_str(), record.id.as_str()),
        title: record_title(record),
        source_type: String::from_str("Dataverse"),
        category: String::from_str(table.display_name.as_str()),
        summary: dataverse_summary(table.display_name.as_str()),
        metadata: record_metadata(record),
    }
}

/// The tables a sync reads: the first ones of the listing, up to the limit.
pub fn tables_to_sync(tables: Vec<DataverseTable>) -> (r: Vec<DataverseTable>)
    ensures
        tables@.len() <= SYNC_TABLE_LIMIT ==> r@ == tables@,
        tables@.len() > SYNC_TABLE_LIMIT ==> r@ == tables@.take(SYNC_TABLE_LIMIT as int),
{
    let mut tables = tables;
    tables.truncate(SYNC_TABLE_LIMIT);
    tables
}

/// What indexing a downloaded file yields: the extracted text or the reason
/// it could not be extracted, and the chunks of the text.
#[derive(Debug)]
pub struct FileIndex {
    pub text: Result<String, String>,
    pub chunks: Vec<DocumentChunk>,
}

/// Indexes the content of a file for retrieval: its text is extracted by the
/// file's type (a PDF's from its extractor's report, handed in as `pdf_text`)
/// and chunked under the document's id; a file whose text cannot be extracted
/// yields no chunk (and the sync goes on with the next file). The result is
/// `None` only for a PDF without that report.
pub fn index_file_content(
    doc_id: &str,
    filename: &str,
    bytes: &[u8],
    pdf_text: Option<Result<String, String>>,
    config: &ChunkConfig,
) -> (r: Option<FileIndex>)
    ensures
        is_text_extraction(
            lowercase(filename@),
            filename@,
            bytes@,
            pdf_text,
            match r {
                Some(ix) => Some(ix.text),
                None => None,
            },
        ),
        is_ascii_text(filename@) ==> is_text_extraction(
            ascii_lowercase(filename@),
            filename@,
            bytes@,
            pdf_text,
            match r {
                Some(ix) => Some(ix.text),
                None => None,
            },
        ),
        r matches Some(ix) ==> {
            &&& ix.text is Err ==> ix.chunks@.len() == 0
            &&& ix.text matches Ok(t) ==> is_chunking_of(chunk_contents(ix.chunks@), t@, *config)
            &&& forall|i: int|
                0 <= i < ix.chunks@.len() ==> {
                    &&& (#[trigger] ix.chunks@[i]).doc_id@ == doc_id@
                    &&& ix.chunks@[i].chunk_index == i
                    &&& ix.chunks@[i].content_hash@ == content_hash_of(ix.chunks@[i].content@)
                    &&& is_chunk_id(ix.chunks@[i].id@, doc_id@)
                }
        },
{
    match extract_text_content(filename, bytes, pdf_text) {
        None => None,
        Some(text) => {
            let chunks = match &text {
                Ok(t) => create_chunks(doc_id, t.as_str(), config),
                Err(_) => Vec::new(),
            };
            Some(FileIndex { text, chunks })
        },
    }
}

} // verus!
