use mcp_desktop::embed::{DocumentProcessor, EmbeddingService, EMBEDDING_DIMENSIONS};

#[test]
fn test_document_chunking() {
    let processor = DocumentProcessor::new(10, 2);
    let chunks = processor.chunk_text("This is a test document with many words to chunk properly", "test.txt");
    assert!(!chunks.is_empty());
    assert!(chunks[0].content.contains("This is a test"));
}

#[test]
fn chunking_windows_overlap_and_are_named_by_their_start() {
    let processor = DocumentProcessor::new(4, 1);
    let chunks = processor.chunk_text("a b c d e f g h i j", "doc");
    let contents: Vec<&str> = chunks.iter().map(|c| c.content.as_str()).collect();
    assert_eq!(contents, vec!["a b c d", "d e f g", "g h i j"]);
    let ids: Vec<&str> = chunks.iter().map(|c| c.id.as_str()).collect();
    assert_eq!(ids, vec!["doc_0", "doc_3", "doc_6"]);
    assert_eq!(
        chunks[1].metadata,
        vec![("source".to_string(), "doc".to_string()), ("chunk_index".to_string(), "3".to_string())]
    );
}

#[test]
fn chunking_short_text_gives_one_chunk() {
    let processor = DocumentProcessor::new(10, 2);
    let chunks = processor.chunk_text("  only three   words ", "s");
    assert_eq!(chunks.len(), 1);
    assert_eq!(chunks[0].content, "only three words");
    assert_eq!(chunks[0].id, "s_0");
}

#[test]
fn chunking_blank_text_gives_nothing() {
    let processor = DocumentProcessor::new(10, 2);
    assert!(processor.chunk_text("   \n\t ", "s").is_empty());
}

#[test]
fn embedding_has_one_value_per_dimension() {
    let service = EmbeddingService::new();
    let v = service.embedding_permille(12345);
    assert_eq!(v.len(), EMBEDDING_DIMENSIONS);
    assert_eq!(EMBEDDING_DIMENSIONS, 384);
    assert_eq!(v[0], 345);
    assert_eq!(v[1], 690);
    assert_eq!(v[2], 35);
    assert!(v.iter().all(|x| *x < 1000));
}

#[test]
fn embedding_values_wrap_on_overflow() {
    let service = EmbeddingService::new();
    let v = service.embedding_permille(u64::MAX);
    // u64::MAX * 2 wraps to u64::MAX - 1 = 18446744073709551614.
    assert_eq!(v[0], 615);
    assert_eq!(v[1], 614);
}
