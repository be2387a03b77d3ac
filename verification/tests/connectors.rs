use mcp_desktop::connectors::auth::{read_token_response, token_form, token_url};
use mcp_desktop::connectors::dataverse::{entity_id, parse_records, parse_tables, query_url, records_url, tables_url};
use mcp_desktop::connectors::sharepoint::{file_content_url, files_url, list_items_url, parse_files, parse_list_items};
use mcp_desktop::json::{member, JsonNumber, JsonValue};

fn text(s: &str) -> JsonValue {
    JsonValue::String(s.to_string())
}

fn num(n: u64) -> JsonValue {
    JsonValue::Number(JsonNumber::PosInt(n))
}

fn obj(ms: Vec<(&str, JsonValue)>) -> JsonValue {
    JsonValue::Object(ms.into_iter().map(|(k, v)| member(k, v)).collect())
}

fn label(s: &str) -> JsonValue {
    obj(vec![("UserLocalizedLabel", obj(vec![("Label", text(s))]))])
}

#[test]
fn token_request_parts() {
    assert_eq!(token_url("tenant-1"), "https://login.microsoftonline.com/tenant-1/oauth2/v2.0/token");
    let form = token_form("cid", "https://contoso.sharepoint.com", "secret");
    let expected: Vec<(String, String)> = vec![
        ("client_id".into(), "cid".into()),
        ("scope".into(), "https://contoso.sharepoint.com/.default".into()),
        ("client_secret".into(), "secret".into()),
        ("grant_type".into(), "client_credentials".into()),
    ];
    assert_eq!(form, expected);
}

#[test]
fn token_response_needs_all_fields() {
    let ok = obj(vec![("token_type", text("Bearer")), ("expires_in", num(3599)), ("access_token", text("abc"))]);
    assert_eq!(read_token_response(&ok), Some("abc".to_string()));
    let no_type = obj(vec![("expires_in", num(3599)), ("access_token", text("abc"))]);
    assert_eq!(read_token_response(&no_type), None);
    let text_expiry = obj(vec![("token_type", text("Bearer")), ("expires_in", text("3599")), ("access_token", text("abc"))]);
    assert_eq!(read_token_response(&text_expiry), None);
}

#[test]
fn sharepoint_urls() {
    assert_eq!(
        files_url("https://c.sharepoint.com/sites/s", "Documents"),
        "https://c.sharepoint.com/sites/s/_api/web/lists/getbytitle('Documents')/items?$select=FileLeafRef,FileRef,File_x0020_Size,Modified,File_x0020_Type"
    );
    assert_eq!(
        file_content_url("https://c", "/sites/s/a.docx"),
        "https://c/_api/web/getfilebyserverrelativeurl('/sites/s/a.docx')/$value"
    );
    assert_eq!(list_items_url("https://c", "Tasks"), "https://c/_api/web/lists/getbytitle('Tasks')/items");
}

#[test]
fn sharepoint_files_skip_incomplete_entries() {
    let data = obj(vec![(
        "value",
        JsonValue::Array(vec![
            obj(vec![
                ("FileLeafRef", text("a.pdf")),
                ("FileRef", text("/s/a.pdf")),
                ("File_x0020_Size", num(10)),
                ("Modified", text("2024-01-01")),
                ("File_x0020_Type", text("pdf")),
            ]),
            obj(vec![("FileLeafRef", text("b.pdf"))]),
        ]),
    )]);
    let files = parse_files(&data);
    assert_eq!(files.len(), 1);
    assert_eq!(files[0].name, "a.pdf");
    assert_eq!(files[0].size, 10);
    assert_eq!(files[0].content_type, "pdf");
    assert!(parse_files(&obj(vec![])).is_empty());
}

#[test]
fn sharepoint_list_items_drop_metadata_fields() {
    let data = obj(vec![(
        "value",
        JsonValue::Array(vec![
            obj(vec![("ID", text("7")), ("odata.type", text("x")), ("Status", text("Open"))]),
            obj(vec![("Title", text("no id"))]),
        ]),
    )]);
    let items = parse_list_items(&data);
    assert_eq!(items.len(), 1);
    assert_eq!(items[0].id, "7");
    assert_eq!(items[0].title, "");
    assert_eq!(items[0].fields.len(), 1);
    assert_eq!(items[0].fields[0].0, "Status");
}

#[test]
fn dataverse_urls() {
    assert_eq!(
        tables_url("https://org.crm.dynamics.com"),
        "https://org.crm.dynamics.com/api/data/v9.2/EntityDefinitions?$select=LogicalName,DisplayName,Description"
    );
    assert_eq!(records_url("https://o", "accounts", Some(10)), "https://o/api/data/v9.2/accounts?$top=10");
    assert_eq!(records_url("https://o", "accounts", None), "https://o/api/data/v9.2/accounts");
    assert_eq!(
        query_url("https://o", "accounts", "name eq 'A&B' é"),
        "https://o/api/data/v9.2/accounts?$filter=name%20eq%20%27A%26B%27%20%C3%A9"
    );
}

#[test]
fn dataverse_tables_read_labels() {
    let data = obj(vec![(
        "value",
        JsonValue::Array(vec![
            obj(vec![("LogicalName", text("account")), ("DisplayName", label("Account")), ("Description", label("Companies"))]),
            obj(vec![("LogicalName", text("lead")), ("DisplayName", label("Lead"))]),
            obj(vec![("LogicalName", text("x"))]),
        ]),
    )]);
    let tables = parse_tables(&data);
    assert_eq!(tables.len(), 2);
    assert_eq!(tables[0].display_name, "Account");
    assert_eq!(tables[0].description, Some("Companies".to_string()));
    assert_eq!(tables[1].logical_name, "lead");
    assert_eq!(tables[1].description, None);
}

#[test]
fn dataverse_records_keep_non_id_fields() {
    let data = obj(vec![(
        "value",
        JsonValue::Array(vec![
            obj(vec![
                ("@odata.etag", text("W/1")),
                ("accountid", text("guid-1")),
                ("name", text("Contoso")),
                ("primarycontactid", text("c-1")),
                ("revenue", num(5)),
            ]),
            obj(vec![("name", text("no id"))]),
        ]),
    )]);
    let records = parse_records(&data, "account");
    assert_eq!(records.len(), 1);
    assert_eq!(records[0].id, "guid-1");
    assert_eq!(records[0].logical_name, "account");
    let keys: Vec<&str> = records[0].fields.iter().map(|(k, _)| k.as_str()).collect();
    assert_eq!(keys, vec!["name", "revenue"]);
}

#[test]
fn entity_id_is_the_last_segment() {
    assert_eq!(entity_id("https://o/api/data/v9.2/accounts(1234)"), "accounts(1234)");
    assert_eq!(entity_id("no-slash"), "no-slash");
    assert_eq!(entity_id("ends/"), "");
}
