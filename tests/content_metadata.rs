use libcnb::data::layer::Layer;

#[test]
fn new_record_has_flags_off_and_default_metadata() {
    let record: Layer<Vec<String>> = Layer::new();
    assert!(!record.launch && !record.build && !record.cache);
    assert!(record.metadata.is_empty());

    let record: Layer<Option<String>> = Layer::new();
    assert!(!record.launch && !record.build && !record.cache);
    assert!(record.metadata.is_none());
}

#[test]
fn clear_resets_flags_and_metadata() {
    let mut record = Layer { launch: true, build: true, cache: true, metadata: 7u64 };
    record.clear();
    assert!(!record.launch && !record.build && !record.cache);
    assert_eq!(record.metadata, 0);
}

#[test]
fn with_metadata_keeps_flags() {
    let record = Layer { launch: true, build: false, cache: true, metadata: "old".to_string() };
    let replaced = record.with_metadata(42u32);
    assert!(replaced.launch && !replaced.build && replaced.cache);
    assert_eq!(replaced.metadata, 42);
}

#[test]
fn metadata_file_name_appends_toml() {
    assert_eq!(libcnb::layer::content_metadata_file_name("foo"), "foo.toml");
    assert_eq!(libcnb::layer::content_metadata_file_name(""), ".toml");
}

#[test]
fn zero_record_with_table_payload_is_empty() {
    let record: Layer<toml::value::Table> = Layer::new();
    assert!(!record.launch);
    assert!(!record.build);
    assert!(!record.cache);
    assert!(record.metadata.is_empty());
}
