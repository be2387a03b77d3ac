use mcp_desktop::retrieval::{
    chunk_text, create_chunks, extract_docx_text, extract_pdf_text, extract_text_content,
    extract_xlsx_text, extract_xml_values, hash_content, needs_pdf_text, strip_xml_tags, ChunkConfig,
};
use std::io::{Cursor, Write};

fn zip_of(entries: &[(&str, &str)]) -> Vec<u8> {
    let mut w = zip::ZipWriter::new(Cursor::new(Vec::new()));
    for (name, body) in entries {
        w.start_file(*name, zip::write::SimpleFileOptions::default()).unwrap();
        w.write_all(body.as_bytes()).unwrap();
    }
    w.finish().unwrap().into_inner()
}

fn numbered_words(n: usize) -> String {
    (0..n).map(|i| format!("word{:03}", i)).collect::<Vec<_>>().join(" ")
}

#[test]
fn chunk_config_defaults() {
    let c = ChunkConfig::default();
    assert_eq!((c.chunk_size, c.chunk_overlap, c.max_chunks_per_doc), (500, 50, 100));
}

#[test]
fn chunk_text_short_and_blank() {
    let c = ChunkConfig::default();
    assert!(chunk_text("  \n ", &c).is_empty());
    assert_eq!(chunk_text("  Hello   world \n", &c), vec!["Hello   world".to_string()]);
}

#[test]
fn chunk_text_long_uses_overlapping_word_windows() {
    let c = ChunkConfig::default();
    let text = numbered_words(150);
    let chunks = chunk_text(&text, &c);
    assert_eq!(chunks.len(), 2);
    assert_eq!(chunks[0], numbered_words(100));
    let second: Vec<String> = (90..150).map(|i| format!("word{:03}", i)).collect();
    assert_eq!(chunks[1], second.join(" "));
}

#[test]
fn chunk_text_stops_at_the_chunk_limit() {
    let c = ChunkConfig { chunk_size: 10, chunk_overlap: 0, max_chunks_per_doc: 3 };
    // Two words per chunk, step two: ten words would need five chunks.
    let chunks = chunk_text("a1 b2 c3 d4 e5 f6 g7 h8 i9 j0", &c);
    assert_eq!(chunks, vec!["a1 b2".to_string(), "c3 d4".to_string(), "e5 f6".to_string()]);
}

#[test]
fn chunk_text_with_zero_words_per_chunk_gives_nothing() {
    let c = ChunkConfig { chunk_size: 4, chunk_overlap: 0, max_chunks_per_doc: 3 };
    assert!(chunk_text("this text is longer than four bytes", &c).is_empty());
}

#[test]
fn hash_content_is_sha256_hex() {
    assert_eq!(hash_content("hello"), "2cf24dba5fb0a30e26e83b2ac5b9e29e1b161e5c1fa7425e73043362938b9824");
    assert_eq!(hash_content(""), "e3b0c44298fc1c149afbf4c8996fb92427ae41e4649b934ca495991b7852b855");
    assert_eq!(hash_content("hello").len(), 64);
}

#[test]
fn create_chunks_numbers_hashes_and_names_chunks() {
    let c = ChunkConfig::default();
    let text = numbered_words(150);
    let chunks = create_chunks("doc7", &text, &c);
    assert_eq!(chunks.len(), 2);
    for (i, ch) in chunks.iter().enumerate() {
        assert_eq!(ch.chunk_index, i);
        assert_eq!(ch.doc_id, "doc7");
        assert_eq!(ch.content_hash, hash_content(&ch.content));
        assert!(ch.id.starts_with("chunk_doc7_"));
        assert_eq!(ch.id.len(), "chunk_doc7_".len() + 8);
        assert!(ch.id["chunk_doc7_".len()..].chars().all(|x| x.is_ascii_hexdigit() && !x.is_ascii_uppercase()));
    }
    assert_eq!(chunks[0].content, numbered_words(100));
}

#[test]
fn strip_xml_tags_keeps_text_words() {
    assert_eq!(strip_xml_tags("<w:p><w:t>Hello</w:t><w:t>World</w:t></w:p>"), "Hello World");
    assert_eq!(strip_xml_tags("  <a>one\n two</a>   three "), "one two three");
    assert_eq!(strip_xml_tags("<only/>"), "");
}

#[test]
fn extract_xml_values_reads_tag_contents() {
    let xml = "<row><v>1</v><v attr=\"x\">2</v><v>3</row>";
    assert_eq!(extract_xml_values(xml, "v"), vec!["1".to_string(), "2".to_string()]);
    assert!(extract_xml_values("<a>x</a>", "v").is_empty());
}

#[test]
fn extract_plain_text_by_extension() {
    assert_eq!(extract_text_content("Notes.TXT", "hé llo".as_bytes(), None), Some(Ok("hé llo".to_string())));
    assert_eq!(extract_text_content("data.csv", b"a,b\n1,2", None), Some(Ok("a,b\n1,2".to_string())));
    assert_eq!(
        extract_text_content("log.md", &[0xff], None),
        Some(Err("UTF-8 decode error: invalid utf-8 sequence of 1 bytes from index 0".to_string()))
    );
    assert_eq!(
        extract_text_content("t.csv", &[0x61, 0xff], None),
        Some(Err("CSV decode error: invalid utf-8 sequence of 1 bytes from index 1".to_string()))
    );
    assert_eq!(extract_text_content("x.bin", b"plain", None), Some(Ok("plain".to_string())));
    assert_eq!(
        extract_text_content("x.bin", &[0xc3], None),
        Some(Err("Unsupported file type: x.bin".to_string()))
    );
}

#[test]
fn extract_docx_reads_document_xml() {
    let bytes = zip_of(&[("word/document.xml", "<w:body><w:p><w:t>Quarterly</w:t><w:t>report</w:t></w:p></w:body>")]);
    assert_eq!(extract_docx_text(&bytes), Ok("Quarterly report".to_string()));
    assert_eq!(extract_text_content("Report.DOCX", &bytes, None), Some(Ok("Quarterly report".to_string())));
    let other = zip_of(&[("word/other.xml", "<x/>")]);
    assert_eq!(extract_docx_text(&other), Err("No word/document.xml found in DOCX".to_string()));
    let not_zip = extract_docx_text(b"definitely not a zip");
    assert!(not_zip.unwrap_err().starts_with("Failed to open DOCX as ZIP: "));
}

#[test]
fn extract_xlsx_resolves_shared_strings() {
    let bytes = zip_of(&[
        ("xl/sharedStrings.xml", "<sst><si><t>Name</t></si><si><t>Total</t></si></sst>"),
        ("xl/worksheets/sheet1.xml", "<sheetData><row><c t=\"s\"><v>0</v></c><c t=\"s\"><v>1</v></c><c><v>42</v></c></row></sheetData>"),
    ]);
    assert_eq!(extract_xlsx_text(&bytes), Ok("Name\tTotal\t42\t".to_string()));
    let empty = zip_of(&[("xl/sharedStrings.xml", "<sst/>")]);
    assert_eq!(extract_xlsx_text(&empty), Err("No sheet data found in XLSX".to_string()));
    assert!(extract_xlsx_text(b"nope").unwrap_err().starts_with("Failed to open XLSX as ZIP: "));
}

#[test]
fn extract_pdf_reports_errors_with_prefix() {
    assert_eq!(extract_pdf_text(Ok("page text".to_string())), Ok("page text".to_string()));
    assert_eq!(extract_pdf_text(Err("no trailer".to_string())), Err("PDF extraction error: no trailer".to_string()));
}

#[test]
fn pdf_files_take_the_extractor_report() {
    assert!(needs_pdf_text("Plan.PDF"));
    assert!(!needs_pdf_text("plan.pdf.txt"));
    assert!(!needs_pdf_text("plan.docx"));
    assert_eq!(extract_text_content("plan.pdf", b"%PDF", None), None);
    assert_eq!(
        extract_text_content("plan.pdf", b"%PDF", Some(Err("bad xref".to_string()))),
        Some(Err("PDF extraction error: bad xref".to_string()))
    );
    assert_eq!(
        extract_text_content("plan.pdf", b"%PDF", Some(Ok("Q3 plan".to_string()))),
        Some(Ok("Q3 plan".to_string()))
    );
    // A report handed in for another file type is not used.
    assert_eq!(extract_text_content("a.txt", b"abc", Some(Ok("x".to_string()))), Some(Ok("abc".to_string())));
}
