use mcp_desktop::connectors::dataverse::{DataverseRecord, DataverseTable};
use mcp_desktop::connectors::sharepoint::SharePointFile;
use mcp_desktop::db::{
    chronological, chunk_search_sql, discovery_offset, keyword_pattern, needs_seed, seed_chunk_content,
    seed_chunk_hash, seed_chunk_id, seed_items, seed_metadata, seed_metadata_for, seed_plan,
};
use mcp_desktop::discovery::{
    configured_url, dataverse_item, discovery_source, files_to_sync, index_file_content,
    metadata_embed_text, record_embed_text, require_base_url, require_site_url, sharepoint_item,
    tables_to_sync, token_resource, DiscoverySource, SYNC_FILE_LIMIT,
};
use mcp_desktop::json::{member, JsonNumber, JsonValue};
use mcp_desktop::retrieval::ChunkConfig;

fn text(s: &str) -> JsonValue {
    JsonValue::String(s.to_string())
}

fn get_text<'a>(v: &'a JsonValue, key: &str) -> Option<&'a str> {
    v.get(key).and_then(|x| x.as_str())
}

fn file(name: &str) -> SharePointFile {
    SharePointFile {
        name: name.to_string(),
        url: format!("/sites/s/{}", name),
        size: 2048,
        last_modified: "2024-05-01T09:00:00Z".to_string(),
        content_type: "pdf".to_string(),
    }
}

#[test]
fn discovery_sources() {
    assert_eq!(discovery_source("sharepoint"), Ok(DiscoverySource::SharePoint));
    assert_eq!(discovery_source("dataverse"), Ok(DiscoverySource::Dataverse));
    assert_eq!(discovery_source("SharePoint"), Err("Unknown source: SharePoint".to_string()));
}

#[test]
fn configured_urls_and_requirements() {
    assert_eq!(configured_url("https://given", Some("https://env".into())), "https://given");
    assert_eq!(configured_url("", Some("https://env".into())), "https://env");
    assert_eq!(configured_url("", None), "");
    assert_eq!(require_site_url(""), Err("SharePoint Site URL is required".to_string()));
    assert_eq!(require_site_url("https://x"), Ok(()));
    assert_eq!(require_base_url(""), Err("Dataverse Base URL is required".to_string()));
}

#[test]
fn token_resource_is_the_site_root() {
    assert_eq!(token_resource("https://contoso.sharepoint.com/sites/hr"), "https://contoso.sharepoint.com");
    assert_eq!(token_resource("https://intranet.example.com/x"), "https://graph.microsoft.com");
    assert_eq!(token_resource(""), "https://graph.microsoft.com");
}

#[test]
fn sharepoint_catalogue_entry() {
    let item = sharepoint_item(&file("Q3 Plan.pdf"));
    assert_eq!(item.id, "sp_file_Q3%20Plan.pdf");
    assert_eq!(item.title, "Q3 Plan.pdf");
    assert_eq!(item.source_type, "SharePoint");
    assert_eq!(item.category, "File");
    assert_eq!(item.summary, "A pdf file named Q3 Plan.pdf. Size: 2048 bytes. Modified: 2024-05-01T09:00:00Z");
    assert_eq!(get_text(&item.metadata, "url"), Some("/sites/s/Q3 Plan.pdf"));
    assert!(matches!(item.metadata.get("size"), Some(JsonValue::Number(JsonNumber::PosInt(2048)))));
    assert_eq!(metadata_embed_text("T", "S"), "Title: T\nSummary: S");
}

#[test]
fn sync_takes_at_most_fifty_files_and_three_tables() {
    let files: Vec<SharePointFile> = (0..60).map(|i| file(&format!("f{}.txt", i))).collect();
    let kept = files_to_sync(files);
    assert_eq!(kept.len(), SYNC_FILE_LIMIT);
    assert_eq!(kept[49].name, "f49.txt");
    assert_eq!(files_to_sync(vec![file("a")]).len(), 1);
    let tables: Vec<DataverseTable> = (0..5)
        .map(|i| DataverseTable { logical_name: format!("t{}", i), display_name: format!("T{}", i), description: None })
        .collect();
    let t = tables_to_sync(tables);
    assert_eq!(t.iter().map(|x| x.logical_name.as_str()).collect::<Vec<_>>(), vec!["t0", "t1", "t2"]);
}

#[test]
fn dataverse_catalogue_entry() {
    let table = DataverseTable { logical_name: "account".into(), display_name: "Account".into(), description: None };
    let named = DataverseRecord {
        id: "g1".into(),
        logical_name: "account".into(),
        fields: vec![member("name", text("Contoso"))],
    };
    let item = dataverse_item(&table, &named);
    assert_eq!(item.id, "dv_rec_account_g1");
    assert_eq!(item.title, "Contoso");
    assert_eq!(item.source_type, "Dataverse");
    assert_eq!(item.category, "Account");
    assert_eq!(item.summary, "A record from the Account table in Dataverse.");
    assert_eq!(get_text(&item.metadata, "logical_name"), Some("account"));
    assert_eq!(item.metadata.get("fields").and_then(|f| get_text(f, "name")), Some("Contoso"));
    let unnamed = DataverseRecord { id: "g2".into(), logical_name: "account".into(), fields: vec![member("name", JsonValue::Null)] };
    assert_eq!(dataverse_item(&table, &unnamed).title, "Record g2");
    assert_eq!(record_embed_text("T", "E", "S"), "Title: T\nEntity: E\nSummary: S");
}

#[test]
fn indexing_file_content() {
    let c = ChunkConfig::default();
    let ok = index_file_content("sp_file_a", "a.txt", b"Leave policy text", None, &c).unwrap();
    assert_eq!(ok.text, Ok("Leave policy text".to_string()));
    assert_eq!(ok.chunks.len(), 1);
    assert_eq!(ok.chunks[0].doc_id, "sp_file_a");
    assert_eq!(ok.chunks[0].content, "Leave policy text");
    let bad = index_file_content("sp_file_b", "b.bin", &[0xff, 0xfe], None, &c).unwrap();
    assert_eq!(bad.text, Err("Unsupported file type: b.bin".to_string()));
    assert!(bad.chunks.is_empty());
    assert!(index_file_content("sp_file_c", "c.pdf", b"%PDF", None, &c).is_none());
    let pdf = index_file_content("sp_file_c", "c.pdf", b"%PDF", Some(Ok("Board minutes".to_string())), &c).unwrap();
    assert_eq!(pdf.chunks[0].content, "Board minutes");
}

#[test]
fn page_offsets_and_patterns() {
    assert_eq!(discovery_offset(1, 20), 0);
    assert_eq!(discovery_offset(3, 20), 40);
    assert_eq!(keyword_pattern("plan"), "%plan%");
    assert!(needs_seed(0));
    assert!(!needs_seed(8));
}

#[test]
fn chunk_search_statement_follows_the_filters() {
    let both = chunk_search_sql("SharePoint", "Policy");
    assert!(both.starts_with("SELECT c.id, c.doc_id, c.content, c.chunk_index,\n                    e.title"));
    assert!(both.ends_with(
        "WHERE c.embedding IS NOT NULL AND e.source_type = ?3 AND e.category = ?4 ORDER BY similarity DESC LIMIT ?2"
    ));
    let none = chunk_search_sql("", "");
    assert!(none.ends_with(
        "WHERE c.embedding IS NOT NULL AND (?3 = '' OR 1=1) AND (?4 = '' OR 1=1) ORDER BY similarity DESC LIMIT ?2"
    ));
}

#[test]
fn seed_catalogue_and_chunks() {
    let items = seed_items();
    assert_eq!(items.len(), 8);
    assert_eq!(items[0].id, "sp_handbook");
    assert_eq!(items[0].title, "Employee_Handbook_2026.pdf");
    assert_eq!(items[7].source, "Dataverse");
    assert_eq!(items[7].category, "Service");
    assert_eq!(seed_chunk_id("sp_finance"), "sp_finance_chunk_0");
    assert_eq!(
        seed_chunk_content("T", "C", "S"),
        "Document Context for T:\nCategory: C\nSummary: S\nThis is simulated content demonstrating the RAG retrieval pipeline."
    );
    assert_eq!(seed_chunk_hash(), "mock_hash");
}

#[test]
fn seed_metadata_by_source() {
    let sp = seed_metadata_for("SharePoint", 12345);
    assert_eq!(get_text(&sp, "file_size"), Some("3369 KB"));
    assert_eq!(get_text(&sp, "permissions"), Some("Read/Write"));
    let dv = seed_metadata_for("Dataverse", 1234);
    assert!(matches!(dv.get("record_count"), Some(JsonValue::Number(JsonNumber::PosInt(234)))));
    assert!(matches!(seed_metadata_for("Other", 1), JsonValue::Object(m) if m.is_empty()));
    let random = seed_metadata("SharePoint");
    let size = get_text(&random, "file_size").unwrap();
    let kb: u32 = size.trim_end_matches(" KB").parse().unwrap();
    assert!((1024..6024).contains(&kb));
}

#[test]
fn chat_rows_come_back_oldest_first() {
    let rows = vec![("assistant".to_string(), "2".to_string()), ("user".to_string(), "1".to_string())];
    let r = chronological(rows);
    assert_eq!(r[0].1, "1");
    assert_eq!(r[1].1, "2");
}

#[test]
fn seeding_writes_once() {
    let first = seed_plan(0);
    assert_eq!(first.len(), 8);
    let mut ids: Vec<&str> = first.iter().map(|i| i.id.as_str()).collect();
    ids.sort();
    ids.dedup();
    assert_eq!(ids.len(), 8);
    assert!(seed_plan(first.len() as i64).is_empty());
}
