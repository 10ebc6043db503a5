use driver_pool::meta::{FileDownloadSource, FileMetaData};

fn source(file_id: &str, provider_type: &str, provider_index: &str, object_key: &str) -> FileDownloadSource {
    FileDownloadSource {
        file_id: file_id.to_string(),
        provider_type: provider_type.to_string(),
        provider_index: provider_index.to_string(),
        object_key: object_key.to_string(),
    }
}

#[test]
fn canonical_string_is_the_documented_json_shape() {
    let s = source("f1", "onedrive", "0", "abc");
    assert_eq!(
        s.canonical_string(),
        r#"{"file_id":"f1","provider_type":"onedrive","provider_index":"0","object_key":"abc"}"#
    );
}

#[test]
fn fingerprint_is_the_v5_uuid_of_the_canonical_serialization() {
    let s = source("f1", "onedrive", "0", "abc");
    let expected = uuid::Uuid::new_v5(
        &uuid::Uuid::NAMESPACE_OID,
        r#"{"file_id":"f1","provider_type":"onedrive","provider_index":"0","object_key":"abc"}"#
            .as_bytes(),
    )
    .hyphenated()
    .to_string();
    assert_eq!(s.get_cache_uuid(), expected);
}

#[test]
fn fingerprint_is_deterministic_across_calls_and_values() {
    let a = source("f1", "onedrive", "0", "abc");
    let b = source("f1", "onedrive", "0", "abc");
    assert_eq!(a.get_cache_uuid(), a.get_cache_uuid());
    assert_eq!(a.get_cache_uuid(), b.get_cache_uuid());
}

#[test]
fn fingerprint_differs_when_any_field_differs() {
    let base = source("f1", "onedrive", "0", "abc");
    let diffs = [
        source("f2", "onedrive", "0", "abc"),
        source("f1", "gdrive", "0", "abc"),
        source("f1", "onedrive", "1", "abc"),
        source("f1", "onedrive", "0", "abd"),
    ];
    for d in diffs.iter() {
        assert_ne!(base.get_cache_uuid(), d.get_cache_uuid());
    }
}

#[test]
fn canonical_string_escapes_quotes_and_backslashes() {
    let s = source("a\"b\\c", "onedrive", "0", "k");
    assert_eq!(
        s.canonical_string(),
        "{\"file_id\":\"a\\\"b\\\\c\",\"provider_type\":\"onedrive\",\"provider_index\":\"0\",\"object_key\":\"k\"}"
    );
}

#[test]
fn fields_cannot_forge_each_other_through_the_serialization() {
    // the quote inside the first field is escaped, so these two sources
    // cannot collide on the canonical serialization
    let s1 = source("a\",\"provider_type\":\"b", "c", "0", "k");
    let s2 = source("a", "b\",\"provider_type\":\"c", "0", "k");
    assert_ne!(s1.canonical_string(), s2.canonical_string());
    assert_ne!(s1.get_cache_uuid(), s2.get_cache_uuid());
}

#[test]
fn fingerprint_has_hyphenated_uuid_length() {
    let s = source("", "", "", "");
    assert_eq!(s.get_cache_uuid().len(), 36);
}

#[test]
fn file_meta_data_carries_catalog_context() {
    let meta = FileMetaData {
        id: "f1".to_string(),
        file_name: "report.pdf".to_string(),
        catalog: "docs".to_string(),
        size: 1024,
        mime_type: "application/pdf".to_string(),
        updated_at: 1_700_000_000_000,
        tags: vec!["q1".to_string(), "final".to_string()],
    };
    assert_eq!(meta.catalog, "docs");
    assert_eq!(meta.tags.len(), 2);
}
