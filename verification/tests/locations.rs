use deltar::errors::TableError;
use deltar::location::{filter_storage_options, location_is_url, resolve_location};
use deltar::table::{
    history_rows, parse_partition_filter, parse_partition_filters, validate_load_timestamp,
    CommitEntry,
};

#[test]
fn urls_are_recognized_and_paths_are_not() {
    assert!(location_is_url("s3://bucket/table"));
    assert!(location_is_url("file:///tmp/table"));
    assert!(!location_is_url("/tmp/table"));
    assert!(!location_is_url("relative/table"));
}

#[test]
fn a_url_location_is_normalized_by_the_parser() {
    // Scheme and host case-fold and the root path is made explicit, so the
    // resolved form differs from the input.
    let resolved = resolve_location("HTTPS://EXAMPLE.com", "HTTPS://EXAMPLE.com").unwrap();
    assert_eq!(resolved, "https://example.com/");
    let kept = resolve_location("s3://bucket/table", "s3://bucket/table").unwrap();
    assert_eq!(kept, "s3://bucket/table");
}

#[test]
fn a_path_location_resolves_through_its_canonical_form() {
    let resolved = resolve_location("data/table", "/srv/data/table").unwrap();
    assert_eq!(resolved, "file:///srv/data/table");
}

#[test]
fn an_unusable_location_is_rejected_naming_the_input() {
    match resolve_location("data/table", "still/relative").unwrap_err() {
        TableError::InvalidLocation { given } => assert_eq!(given, "data/table"),
        _ => panic!("expected an invalid-location error"),
    }
}

#[test]
fn storage_options_keep_exactly_the_string_valued_entries() {
    let opts = vec![
        ("region".to_string(), Some("eu-north-1".to_string())),
        ("anonymous".to_string(), None),
        ("endpoint".to_string(), Some("http://localhost:9000".to_string())),
    ];
    let kept = filter_storage_options(&opts);
    assert_eq!(
        kept,
        vec![
            ("region".to_string(), "eu-north-1".to_string()),
            ("endpoint".to_string(), "http://localhost:9000".to_string()),
        ]
    );
    assert_eq!(filter_storage_options(&vec![]).len(), 0);
}

#[test]
fn a_valid_rfc3339_timestamp_yields_its_instant() {
    assert_eq!(validate_load_timestamp("2021-01-01T00:00:00Z").unwrap(), 1609459200);
    // The offset is part of the instant.
    assert_eq!(validate_load_timestamp("1970-01-01T01:00:00+01:00").unwrap(), 0);
}

#[test]
fn an_invalid_timestamp_is_rejected_naming_the_input() {
    match validate_load_timestamp("yesterday").unwrap_err() {
        TableError::InvalidTimestamp { given } => assert_eq!(given, "yesterday"),
        _ => panic!("expected an invalid-timestamp error"),
    }
    assert!(validate_load_timestamp("2021-01-01").is_err());
}

#[test]
fn partition_filters_split_at_the_first_equals_sign_and_trim() {
    assert_eq!(
        parse_partition_filter("year = 2021"),
        Some(("year".to_string(), "2021".to_string()))
    );
    assert_eq!(
        parse_partition_filter("a=b=c"),
        Some(("a".to_string(), "b=c".to_string()))
    );
    assert_eq!(
        parse_partition_filter("  key\t=\nvalue  "),
        Some(("key".to_string(), "value".to_string()))
    );
    assert_eq!(parse_partition_filter("no delimiter"), None);
    assert_eq!(parse_partition_filter(""), None);
    assert_eq!(parse_partition_filter("="), Some((String::new(), String::new())));
}

#[test]
fn partition_filter_lists_keep_order_and_drop_malformed_entries() {
    let filters = vec![
        "year=2021".to_string(),
        "not a filter".to_string(),
        "month = 7".to_string(),
    ];
    assert_eq!(
        parse_partition_filters(&filters),
        vec![
            ("year".to_string(), "2021".to_string()),
            ("month".to_string(), "7".to_string()),
        ]
    );
}

#[test]
fn history_rows_number_commits_and_default_missing_fields() {
    let entries = vec![
        CommitEntry {
            timestamp: Some(1700000000000),
            operation: Some("WRITE".to_string()),
            user_id: None,
            user_name: Some("runner".to_string()),
        },
        CommitEntry { timestamp: None, operation: None, user_id: None, user_name: None },
    ];
    let t = history_rows(&entries);
    assert_eq!(t.versions, vec![0, 1]);
    assert_eq!(t.timestamps, vec![1700000000000, 0]);
    assert_eq!(t.operations, vec!["WRITE".to_string(), String::new()]);
    assert_eq!(t.user_ids, vec![String::new(), String::new()]);
    assert_eq!(t.user_names, vec!["runner".to_string(), String::new()]);
}
