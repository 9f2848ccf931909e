use tdf::history::DocumentHistory;

#[test]
fn config_test_default_history() {
    let history = DocumentHistory::default();
    assert!(history.is_empty());
}

#[test]
fn history_test_default_history() {
    let history = DocumentHistory::default();
    assert!(history.is_empty());
    assert_eq!(history.get("/path/to/file1.pdf"), None);
}

#[test]
fn config_test_history_serialization() {
    let mut history = DocumentHistory::default();
    history.insert("/path/to/file1.pdf".to_string(), 5);
    history.insert("/path/to/file2.pdf".to_string(), 10);

    let encoded = history.encode();
    let deserialized = DocumentHistory::decode(&encoded).unwrap();

    assert_eq!(deserialized.get("/path/to/file1.pdf"), Some(5));
    assert_eq!(deserialized.get("/path/to/file2.pdf"), Some(10));
}

#[test]
fn history_test_history_serialization() {
    let mut history = DocumentHistory::default();
    history.insert("/path/to/file1.pdf".to_string(), 5);
    history.insert("/path/to/file2.pdf".to_string(), 10);

    let encoded = bitcode::encode(&vec![
        ("/path/to/file1.pdf".to_string(), 5usize),
        ("/path/to/file2.pdf".to_string(), 10usize),
    ]);
    assert_eq!(history.encode(), encoded);
    let deserialized = DocumentHistory::decode(&encoded).unwrap();

    assert_eq!(deserialized.get("/path/to/file1.pdf"), Some(5));
    assert_eq!(deserialized.get("/path/to/file2.pdf"), Some(10));
}

#[test]
fn history_reads_what_a_map_wrote() {
    let mut map = std::collections::HashMap::new();
    map.insert("/test/file.pdf".to_string(), 42usize);
    map.insert("/test/other.pdf".to_string(), 123usize);
    let loaded = DocumentHistory::decode(&bitcode::encode(&map)).unwrap();
    assert_eq!(loaded.get("/test/file.pdf"), Some(42));
    assert_eq!(loaded.get("/test/other.pdf"), Some(123));
    assert_eq!(loaded.get("/test/none.pdf"), None);

    let back: std::collections::HashMap<String, usize> = bitcode::decode(&loaded.encode()).unwrap();
    assert_eq!(back, map);
}

#[test]
fn history_rejects_invalid_binary() {
    assert!(DocumentHistory::decode(b"invalid binary data").is_err());
}

#[test]
fn history_rejects_empty_file() {
    assert!(DocumentHistory::decode(b"").is_err());
}

#[test]
fn history_insert_replaces_the_page_of_a_path() {
    let mut history = DocumentHistory::default();
    history.insert("/a.pdf".to_string(), 1);
    history.insert("/b.pdf".to_string(), 2);
    history.insert("/a.pdf".to_string(), 3);
    assert_eq!(history.get("/a.pdf"), Some(3));
    assert_eq!(history.get("/b.pdf"), Some(2));
    assert!(!history.is_empty());
    let again = DocumentHistory::decode(&history.encode()).unwrap();
    assert_eq!(again.get("/a.pdf"), Some(3));
    assert_eq!(again.get("/b.pdf"), Some(2));
}

#[test]
fn history_keeps_the_last_page_of_a_path_written_twice() {
    let bytes = bitcode::encode(&vec![("/a.pdf".to_string(), 1usize), ("/a.pdf".to_string(), 9usize)]);
    let h = DocumentHistory::decode(&bytes).unwrap();
    assert_eq!(h.get("/a.pdf"), Some(9));
}
