//! What the memory database layer decides around SQLite: page offsets, the
//! keyword pattern, the chunk-search statement for the filters given, and
//! the catalogue, chunks and metadata seeded into an empty database.

use vstd::prelude::*;
use crate::json::{member, members_data, Json, JsonNumber, JsonValue};
use crate::text::{
    chars_eq, chars_of, contains, decimal, lit, occurs_at, push_all, push_decimal, string_from_chars,
};

verus! {

broadcast use {vstd::std_specs::vec::group_vec_axioms, vstd::string::group_string_axioms};

/// A catalogue entry seeded into an empty database.
#[derive(Debug)]
pub struct SeedItem {
    pub id: String,
    pub title: String,
    pub source: String,
    pub category: String,
    pub summary: String,
}

/// The number of values in the placeholder embedding stored for seeded entries.
pub const SEED_EMBEDDING_DIMENSIONS: usize = 768;

/// The number of past messages a chat is answered with.
pub const CHAT_HISTORY_LIMIT: usize = 10;

/// The number of entries a semantic catalogue search returns.
pub const SEMANTIC_SEARCH_LIMIT: u32 = 20;

/// The row offset of a page of the catalogue, pages counted from one.
pub fn discovery_offset(page: u32, limit: u32) -> (offset: u32)
    requires
        page >= 1,
        (page - 1) * limit <= u32::MAX,
    ensures
        offset == (page - 1) * limit,
{
    (page - 1) * limit
}

/// The pattern of a keyword search: the query between two `%` wildcards.
pub fn keyword_pattern(query: &str) -> (s: String)
    ensures
        s@ == "%"@ + query@ + "%"@,
{
    let mut m = lit("%");
    push_all(&mut m, chars_of(query).as_slice());
    push_all(&mut m, lit("%").as_slice());
    string_from_chars(m.as_slice())
}

/// The chunk-search statement: a filter on the source type and on the
/// category for each filter that is given (not empty), and a clause that
/// binds the parameter without filtering for each one that is not.
pub open spec fn chunk_search_sql_of(source_filtered: bool, category_filtered: bool) -> Seq<char> {
    "SELECT c.id, c.doc_id, c.content, c.chunk_index,\n                    e.title, e.source_type, e.category,\n                    cosine_similarity(c.embedding, ?1) as similarity\n             FROM document_chunks c\n             JOIN enterprise_data e ON c.doc_id = e.id\n             WHERE c.embedding IS NOT NULL"@
        + (if source_filtered {
        " AND e.source_type = ?3"@
    } else {
        " AND (?3 = '' OR 1=1)"@
    }) + (if category_filtered {
        " AND e.category = ?4"@
    } else {
        " AND (?4 = '' OR 1=1)"@
    }) + " ORDER BY similarity DESC LIMIT ?2"@
}

/// The chunk-search statement filters on the source type when a source filter
/// is given and on the category when a category filter is given, each
/// independently of the other; an absent filter only binds its parameter. Each
/// combination of filters gives its own statement.
pub proof fn law_chunk_search_filters(
    source_filtered: bool,
    category_filtered: bool,
    other_source_filtered: bool,
    other_category_filtered: bool,
)
    ensures
        source_filtered ==> contains(
            chunk_search_sql_of(source_filtered, category_filtered),
            " AND e.source_type = ?3"@,
        ),
        !source_filtered ==> contains(
            chunk_search_sql_of(source_filtered, category_filtered),
            " AND (?3 = '' OR 1=1)"@,
        ),
        category_filtered ==> contains(
            chunk_search_sql_of(source_filtered, category_filtered),
            " AND e.category = ?4"@,
        ),
        !category_filtered ==> contains(
            chunk_search_sql_of(source_filtered, category_filtered),
            " AND (?4 = '' OR 1=1)"@,
        ),
        chunk_search_sql_of(source_filtered, category_filtered) == chunk_search_sql_of(
            other_source_filtered,
            other_category_filtered,
        ) ==> source_filtered == other_source_filtered && category_filtered
            == other_category_filtered,
{
    reveal_strlit(" AND e.source_type = ?3");
    reveal_strlit(" AND (?3 = '' OR 1=1)");
    reveal_strlit(" AND e.category = ?4");
    reveal_strlit(" AND (?4 = '' OR 1=1)");
    let base = "SELECT c.id, c.doc_id, c.content, c.chunk_index,\n                    e.title, e.source_type, e.category,\n                    cosine_similarity(c.embedding, ?1) as similarity\n             FROM document_chunks c\n             JOIN enterprise_data e ON c.doc_id = e.id\n             WHERE c.embedding IS NOT NULL"@;
    let tail = " ORDER BY similarity DESC LIMIT ?2"@;
    let sp = |f: bool| if f {
        " AND e.source_type = ?3"@
    } else {
        " AND (?3 = '' OR 1=1)"@
    };
    let cp = |f: bool| if f {
        " AND e.category = ?4"@
    } else {
        " AND (?4 = '' OR 1=1)"@
    };
    let st = chunk_search_sql_of(source_filtered, category_filtered);
    let s1 = sp(source_filtered);
    let c1 = cp(category_filtered);
    assert(st == base + s1 + c1 + tail);
    assert(st.subrange(base.len() as int, (base.len() + s1.len()) as int) =~= s1);
    assert(occurs_at(st, s1, base.len() as int));
    assert(st.subrange((base.len() + s1.len()) as int, (base.len() + s1.len() + c1.len()) as int)
        =~= c1);
    assert(occurs_at(st, c1, (base.len() + s1.len()) as int));
    let st2 = chunk_search_sql_of(other_source_filtered, other_category_filtered);
    assert(st2 == base + sp(other_source_filtered) + cp(other_category_filtered) + tail);
    if st == st2 {
        // The filters' texts are 23, 21, 20 and 21 characters long, so the
        // statement's length tells the four combinations apart.
        assert(st.len() == st2.len());
        assert(source_filtered == other_source_filtered);
        assert(category_filtered == other_category_filtered);
    }
}

/// The chunk-search statement for a source filter and a category filter
/// (each empty when not given).
pub fn chunk_search_sql(source_filter: &str, category_filter: &str) -> (s: String)
    ensures
        s@ == chunk_search_sql_of(source_filter@.len() > 0, category_filter@.len() > 0),
{
    let mut m = lit(
        "SELECT c.id, c.doc_id, c.content, c.chunk_index,\n                    e.title, e.source_type, e.category,\n                    cosine_similarity(c.embedding, ?1) as similarity\n             FROM document_chunks c\n             JOIN enterprise_data e ON c.doc_id = e.id\n             WHERE c.embedding IS NOT NULL",
    );
    if chars_of(source_filter).len() > 0 {
        push_all(&mut m, lit(" AND e.source_type = ?3").as_slice());
    } else {
        push_all(&mut m, lit(" AND (?3 = '' OR 1=1)").as_slice());
    }
    if chars_of(category_filter).len() > 0 {
        push_all(&mut m, lit(" AND e.category = ?4").as_slice());
    } else {
        push_all(&mut m, lit(" AND (?4 = '' OR 1=1)").as_slice());
    }
    push_all(&mut m, lit(" ORDER BY similarity DESC LIMIT ?2").as_slice());
    string_from_chars(m.as_slice())
}

/// The database is seeded only while its catalogue is empty.
pub fn needs_seed(catalogue_count: i64) -> (b: bool)
    ensures
        b == (catalogue_count <= 0),
{
    catalogue_count <= 0
}

/// The seeded catalogue, in order: id, title, source, category, summary.
pub open spec fn seed_catalog() -> Seq<(Seq<char>, Seq<char>, Seq<char>, Seq<char>, Seq<char>)> {
    seq![
        ("sp_handbook"@, "Employee_Handbook_2026.pdf"@, "SharePoint"@, "Policy"@, "Official organizational policies, conduct codes, and benefits overview for the 2026 fiscal year."@),
        ("sp_finance"@, "Q3_Financial_Projections.xlsx"@, "SharePoint"@, "Finance"@, "Internal financial models and revenue forecasts for the current fiscal quarter."@),
        ("sp_onboarding"@, "Client_Onboarding_Protocol.docx"@, "SharePoint"@, "Operations"@, "Standard operating procedures for managing new enterprise client integrations."@),
        ("sp_arch"@, "Nexus_Architecture_V2.pdf"@, "SharePoint"@, "Engineering"@, "Deep technical documentation for the Nexus AI core and data orchestration layer."@),
        ("sp_security"@, "Zero_Trust_Strategy.pdf"@, "SharePoint"@, "Security"@, "Comprehensive roadmap for implementing Zero Trust security across all enterprise endpoints."@),
        ("dv_accounts"@, "Active_Accounts_Master"@, "Dataverse"@, "CRM"@, "Unified view of high-priority corporate accounts including revenue tiers and relationship health status."@),
        ("dv_leads"@, "Inbound_Leads_Q2"@, "Dataverse"@, "Sales"@, "Consolidated list of marketing-qualified leads captured through the global enterprise portal."@),
        ("dv_tickets"@, "Priority_Support_Queue"@, "Dataverse"@, "Service"@, "Real-time list of high-severity support tickets requiring immediate technical intervention."@),
    ]
}

/// Views seed items as catalogue rows.
pub open spec fn seed_view(v: Seq<SeedItem>) -> Seq<(Seq<char>, Seq<char>, Seq<char>, Seq<char>, Seq<char>)> {
    v.map_values(|s: SeedItem| (s.id@, s.title@, s.source@, s.category@, s.summary@))
}

fn seed(id: &str, title: &str, source: &str, category: &str, summary: &str) -> (s: SeedItem)
    ensures
        (s.id@, s.title@, s.source@, s.category@, s.summary@) == (id@, title@, source@, category@, summary@),
{
    SeedItem {
        id: String::from_str(id),
        title: String::from_str(title),
        source: String::from_str(source),
        category: String::from_str(category),
        summary: String::from_str(summary),
    }
}

/// The seeded catalogue.
pub fn seed_items() -> (v: Vec<SeedItem>)
    ensures
        seed_view(v@) == seed_catalog(),
{
    let mut v: Vec<SeedItem> = Vec::new();
    v.push(seed("sp_handbook", "Employee_Handbook_2026.pdf", "SharePoint", "Policy", "Official organizational policies, conduct codes, and benefits overview for the 2026 fiscal year."));
    v.push(seed("sp_finance", "Q3_Financial_Projections.xlsx", "SharePoint", "Finance", "Internal financial models and revenue forecasts for the current fiscal quarter."));
    v.push(seed("sp_onboarding", "Client_Onboarding_Protocol.docx", "SharePoint", "Operations", "Standard operating procedures for managing new enterprise client integrations."));
    v.push(seed("sp_arch", "Nexus_Architecture_V2.pdf", "SharePoint", "Engineering", "Deep technical documentation for the Nexus AI core and data orchestration layer."));
    v.push(seed("sp_security", "Zero_Trust_Strategy.pdf", "SharePoint", "Security", "Comprehensive roadmap for implementing Zero Trust security across all enterprise endpoints."));
    v.push(seed("dv_accounts", "Active_Accounts_Master", "Dataverse", "CRM", "Unified view of high-priority corporate accounts including revenue tiers and relationship health status."));
    v.push(seed("dv_leads", "Inbound_Leads_Q2", "Dataverse", "Sales", "Consolidated list of marketing-qualified leads captured through the global enterprise portal."));
    v.push(seed("dv_tickets", "Priority_Support_Queue", "Dataverse", "Service", "Real-time list of high-severity support tickets requiring immediate technical intervention."));
    assert(seed_view(v@) =~= seed_catalog());
    v
}

/// The catalogue entries that seeding writes into a catalogue of
/// `catalogue_count` rows: the whole seed catalogue into an empty one, none
/// into one that has rows.
pub open spec fn seed_writes(catalogue_count: int) -> Seq<(Seq<char>, Seq<char>, Seq<char>, Seq<char>, Seq<char>)> {
    if catalogue_count <= 0 {
        seed_catalog()
    } else {
        Seq::empty()
    }
}

/// The catalogue entries to seed into a catalogue of `catalogue_count` rows.
pub fn seed_plan(catalogue_count: i64) -> (v: Vec<SeedItem>)
    ensures
        seed_view(v@) == seed_writes(catalogue_count as int),
{
    if needs_seed(catalogue_count) {
        seed_items()
    } else {
        let v: Vec<SeedItem> = Vec::new();
        assert(seed_view(v@) =~= Seq::empty());
        v
    }
}

/// Seeding twice writes nothing the second time: the seed entries have
/// distinct ids, so seeding an empty catalogue adds one row for each of them,
/// and a catalogue with rows is not seeded again.
pub proof fn law_seeding_twice_writes_nothing(catalogue_count: int)
    requires
        catalogue_count >= 0,
    ensures
        forall|i: int, j: int|
            0 <= i < j < seed_catalog().len() ==> #[trigger] seed_catalog()[i].0
                != #[trigger] seed_catalog()[j].0,
        seed_writes(catalogue_count + seed_writes(catalogue_count).len()).len() == 0,
{
    reveal_strlit("sp_handbook");
    reveal_strlit("sp_finance");
    reveal_strlit("sp_onboarding");
    reveal_strlit("sp_arch");
    reveal_strlit("sp_security");
    reveal_strlit("dv_accounts");
    reveal_strlit("dv_leads");
    reveal_strlit("dv_tickets");
    let c = seed_catalog();
    assert forall|i: int, j: int| 0 <= i < j < c.len() implies #[trigger] c[i].0 != #[trigger] c[j].0 by {
        assert(c[i].0.len() != c[j].0.len() || c[i].0[3] != c[j].0[3] || c[i].0[4] != c[j].0[4]);
    }
}

/// The metadata seeded for an entry of a source, from a random roll: a file
/// size of 1024 to 6023 KB for SharePoint, a record count below 500 for
/// Dataverse, and an empty object for any other source.
pub open spec fn seed_metadata_of(source: Seq<char>, roll: u32) -> Json {
    if source == "SharePoint"@ {
        Json::Obj(
            seq![
                ("file_size"@, Json::Str(decimal((1024 + roll % 5000) as nat) + " KB"@)),
                ("author"@, Json::Str("Nexus System"@)),
                ("version"@, Json::Str("1.0"@)),
                ("permissions"@, Json::Str("Read/Write"@)),
            ],
        )
    } else if source == "Dataverse"@ {
        Json::Obj(
            seq![
                ("record_count"@, Json::PosInt((roll % 500) as u64)),
                ("last_modified_by"@, Json::Str("System Architect"@)),
                ("entity_type"@, Json::Str("Organization"@)),
                ("sync_status"@, Json::Str("Synchronized"@)),
            ],
        )
    } else {
        Json::Obj(Seq::empty())
    }
}

/// The metadata seeded for an entry of a source, for a given roll.
pub fn seed_metadata_for(source: &str, roll: u32) -> (r: JsonValue)
    ensures
        r.data() == seed_metadata_of(source@, roll),
{
    let s = chars_of(source);
    let mut ms: Vec<(String, JsonValue)> = Vec::new();
    if chars_eq(s.as_slice(), lit("SharePoint").as_slice()) {
        let mut size = Vec::new();
        push_decimal(&mut size, (1024 + roll % 5000) as u64);
        push_all(&mut size, lit(" KB").as_slice());
        ms.push(member("file_size", JsonValue::String(string_from_chars(size.as_slice()))));
        ms.push(member("author", JsonValue::text("Nexus System")));
        ms.push(member("version", JsonValue::text("1.0")));
        ms.push(member("permissions", JsonValue::text("Read/Write")));
        assert(members_data(ms@) =~= seed_metadata_of(source@, roll)->Obj_0);
    } else if chars_eq(s.as_slice(), lit("Dataverse").as_slice()) {
        ms.push(member("record_count", JsonValue::Number(JsonNumber::PosInt((roll % 500) as u64))));
        ms.push(member("last_modified_by", JsonValue::text("System Architect")));
        ms.push(member("entity_type", JsonValue::text("Organization")));
        ms.push(member("sync_status", JsonValue::text("Synchronized")));
        assert(members_data(ms@) =~= seed_metadata_of(source@, roll)->Obj_0);
    } else {
        assert(members_data(ms@) =~= Seq::empty());
    }
    JsonValue::object(ms)
}

/// `rand::random::<u32>()`: a uniformly random `u32` from the thread-local
/// generator. Nothing is stated of the value.
#[verifier::external_body]
fn random_u32() -> (r: u32) {
    rand::random::<u32>()
}

/// The metadata seeded for an entry of a source: SharePoint and Dataverse
/// entries draw a random roll; the result is the metadata of some roll.
pub fn seed_metadata(source: &str) -> (r: JsonValue)
    ensures
        exists|roll: u32| r.data() == seed_metadata_of(source@, roll),
{
    let s = chars_of(source);
    if chars_eq(s.as_slice(), lit("SharePoint").as_slice()) || chars_eq(
        s.as_slice(),
        lit("Dataverse").as_slice(),
    ) {
        let roll = random_u32();
        seed_metadata_for(source, roll)
    } else {
        seed_metadata_for(source, 0)
    }
}

/// The id of the chunk seeded for an entry: `<id>_chunk_0`.
pub fn seed_chunk_id(id: &str) -> (s: String)
    ensures
        s@ == id@ + "_chunk_0"@,
{
    let mut m = chars_of(id);
    push_all(&mut m, lit("_chunk_0").as_slice());
    string_from_chars(m.as_slice())
}

/// The content of the chunk seeded for an entry.
pub open spec fn seed_chunk_content_of(title: Seq<char>, category: Seq<char>, summary: Seq<char>) -> Seq<char> {
    "Document Context for "@ + title + ":\nCategory: "@ + category + "\nSummary: "@ + summary
        + "\nThis is simulated content demonstrating the RAG retrieval pipeline."@
}

/// The content of the chunk seeded for an entry.
pub fn seed_chunk_content(title: &str, category: &str, summary: &str) -> (s: String)
    ensures
        s@ == seed_chunk_content_of(title@, category@, summary@),
{
    let mut m = lit("Document Context for ");
    push_all(&mut m, chars_of(title).as_slice());
    push_all(&mut m, lit(":\nCategory: ").as_slice());
    push_all(&mut m, chars_of(category).as_slice());
    push_all(&mut m, lit("\nSummary: ").as_slice());
    push_all(&mut m, chars_of(summary).as_slice());
    push_all(&mut m, lit("\nThis is simulated content demonstrating the RAG retrieval pipeline.").as_slice());
    string_from_chars(m.as_slice())
}

/// The content hash recorded for seeded chunks.
pub fn seed_chunk_hash() -> (s: &'static str)
    ensures
        s@ == "mock_hash"@,
{
    "mock_hash"
}

/// The stored chat rows, read newest first, put back in the order they were written.
pub fn chronological(rows: Vec<(String, String)>) -> (r: Vec<(String, String)>)
    ensures
        r@ == rows@.reverse(),
{
    let mut rows = rows;
    let mut r: Vec<(String, String)> = Vec::new();
    let ghost orig = rows@;
    while rows.len() > 0
        invariant
            orig.reverse() == r@ + rows@.reverse(),
        decreases rows@.len(),
    {
        let ghost before = rows@;
        let x = rows.pop().unwrap();
        proof {
            assert(before =~= rows@.push(x));
            assert(before.reverse() =~= seq![x] + rows@.reverse());
        }
        r.push(x);
        assert(orig.reverse() =~= r@ + rows@.reverse());
    }
    assert(rows@.reverse() =~= Seq::<(String, String)>::empty());
    assert(orig.reverse() =~= r@);
    r
}

} // verus!
