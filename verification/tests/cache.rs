use datadog_mcp::cache::decode_cache_content;
use datadog_mcp::cache::{
    cache_file_name, check_cache_file, check_cache_location, choose_cache_dir,
    is_cache_extension, is_expired, new_cache_file_name, oldest_first, plan_cache_deletions,
    retention_cutoff, timestamp_from_seconds, unique_cache_id, unix_timestamp, CacheDirChoice,
    CacheFile, CacheReadError, CacheStore, TimestampError, DEFAULT_CACHE_MAX_BYTES,
    MAX_CACHE_READ_BYTES,
};
use datadog_mcp::output::OutputFormat;
use std::path::PathBuf;

fn file(size: u64, modified: u128) -> CacheFile {
    CacheFile { size, modified }
}

#[test]
fn store_accessors_return_what_was_given() {
    let store = CacheStore::new(PathBuf::from("/tmp/cache"), 42, true);
    assert_eq!(store.root(), &PathBuf::from("/tmp/cache"));
    assert_eq!(store.max_bytes(), 42);
    assert!(store.writes_enabled());
    let disabled = CacheStore::disabled(PathBuf::from("/tmp/other"));
    assert!(!disabled.writes_enabled());
    assert_eq!(disabled.max_bytes(), DEFAULT_CACHE_MAX_BYTES);
    assert_eq!(DEFAULT_CACHE_MAX_BYTES, 100 * 1024 * 1024);
    assert_eq!(MAX_CACHE_READ_BYTES, 10 * 1024 * 1024);
}

#[test]
fn cache_dir_preference_order() {
    let s = |v: &str| Some(v.to_string());
    assert_eq!(
        choose_cache_dir(s("/o"), s("/x"), s("/h")),
        CacheDirChoice::Override("/o".to_string())
    );
    assert_eq!(
        choose_cache_dir(None, s("/x"), s("/h")),
        CacheDirChoice::XdgCache("/x".to_string())
    );
    assert_eq!(
        choose_cache_dir(None, None, s("/h")),
        CacheDirChoice::HomeCache("/h".to_string())
    );
    assert_eq!(choose_cache_dir(None, None, None), CacheDirChoice::Legacy);
}

#[test]
fn only_json_and_toon_are_cache_files() {
    assert!(is_cache_extension(Some("json")));
    assert!(is_cache_extension(Some("toon")));
    assert!(!is_cache_extension(Some("JSON")));
    assert!(!is_cache_extension(Some("txt")));
    assert!(!is_cache_extension(None));
}

#[test]
fn retention_cutoff_saturates() {
    assert_eq!(retention_cutoff(100_000, 24), 100_000 - 24 * 3600);
    assert_eq!(retention_cutoff(0, u64::MAX), -i64::MAX);
    assert_eq!(retention_cutoff(i64::MIN, 1), i64::MIN);
    assert_eq!(retention_cutoff(50, 0), 50);
}

#[test]
fn expiry_compares_with_the_cutoff() {
    assert!(is_expired(10, 11));
    assert!(!is_expired(11, 11));
    assert!(!is_expired(u64::MAX, i64::MAX));
    assert!(!is_expired(0, i64::MIN));
}

#[test]
fn files_are_ordered_oldest_first_and_stably() {
    let files = vec![file(1, 30), file(1, 10), file(1, 30), file(1, 20)];
    assert_eq!(oldest_first(&files), vec![1, 3, 0, 2]);
    assert_eq!(oldest_first(&vec![]), Vec::<usize>::new());
}

#[test]
fn size_bound_deletes_oldest_files_until_within_bound() {
    let files = vec![file(50, 3), file(40, 1), file(30, 2)];
    // 120 bytes in all: dropping the oldest (40) leaves 80, then 50 is left.
    assert_eq!(plan_cache_deletions(&files, 100), vec![1]);
    assert_eq!(plan_cache_deletions(&files, 60), vec![1, 2]);
    assert_eq!(plan_cache_deletions(&files, 120), Vec::<usize>::new());
    assert_eq!(plan_cache_deletions(&files, 0), vec![1, 2, 0]);
}

#[test]
fn size_bound_handles_totals_beyond_u64() {
    let files = vec![file(u64::MAX, 1), file(u64::MAX, 2)];
    // The total saturates at u64::MAX; removing the first file empties the count.
    assert_eq!(plan_cache_deletions(&files, 10), vec![0]);
}

#[test]
fn read_checks_come_in_order() {
    assert_eq!(
        check_cache_location(false, Some("json"), "/c"),
        Err(CacheReadError::OutsideCache("/c".to_string()))
    );
    assert_eq!(check_cache_location(true, Some("json"), "/c"), Ok(OutputFormat::Json));
    assert_eq!(check_cache_location(true, Some("toon"), "/c"), Ok(OutputFormat::Toon));
    assert_eq!(
        check_cache_location(true, Some("txt"), "/c"),
        Err(CacheReadError::WrongExtension)
    );
    assert_eq!(check_cache_file(false, 1), Err(CacheReadError::NotAFile));
    assert_eq!(
        check_cache_file(true, MAX_CACHE_READ_BYTES + 1),
        Err(CacheReadError::TooLarge(MAX_CACHE_READ_BYTES + 1))
    );
    assert_eq!(check_cache_file(true, MAX_CACHE_READ_BYTES), Ok(()));
}

#[test]
fn read_error_messages() {
    assert!(CacheReadError::OutsideCache("/c".to_string())
        .message()
        .contains("must be inside"));
    assert_eq!(
        CacheReadError::TooLarge(10485761).message(),
        "Cache file is 10485761 bytes; maximum readable size is 10485760 bytes"
    );
    assert_eq!(
        CacheReadError::WrongExtension.message(),
        "Only .json and .toon cache files can be loaded"
    );
    assert_eq!(CacheReadError::NotAFile.message(), "Cache path is not a regular file");
}

#[test]
fn cache_file_names() {
    assert_eq!(
        cache_file_name("monitors", 1700000000, "a1b2c3d4", OutputFormat::Toon),
        "monitors_1700000000_a1b2c3d4.toon"
    );
    let name = new_cache_file_name("prefix", 5, OutputFormat::Json);
    assert!(name.starts_with("prefix_5_"));
    assert!(name.ends_with(".json"));
    let parts: Vec<&str> = name.split('_').collect();
    assert!(parts.len() >= 3);
}

#[test]
fn unique_ids_are_eight_hex_digits_and_differ() {
    let a = unique_cache_id();
    let b = unique_cache_id();
    assert_eq!(a.len(), 8);
    assert!(a.chars().all(|c| c.is_ascii_hexdigit() && !c.is_ascii_uppercase()));
    assert_ne!(a, b);
}

#[test]
fn timestamps() {
    assert_eq!(timestamp_from_seconds(None), Err(TimestampError::BeforeEpoch));
    assert_eq!(timestamp_from_seconds(Some(u64::MAX)), Err(TimestampError::OutOfRange));
    assert_eq!(timestamp_from_seconds(Some(17)), Ok(17));
    assert!(unix_timestamp().unwrap() > 1_600_000_000);
}

#[test]
fn files_are_read_back_in_the_format_they_were_written_in() {
    for format in [OutputFormat::Json, OutputFormat::Toon] {
        assert_eq!(
            check_cache_location(true, Some(format.extension()), "/cache"),
            Ok(format)
        );
        assert_eq!(datadog_mcp::output::parse_format(format.extension()), Ok(format));
        assert!(is_cache_extension(Some(format.extension())));
    }
}

#[test]
fn the_cache_id_is_the_first_uuid_group() {
    assert_eq!(
        datadog_mcp::cache::uuid_first_group("a1b2c3d4-0000-4000-8000-000000000000"),
        "a1b2c3d4"
    );
    assert_eq!(datadog_mcp::cache::uuid_first_group("01234567"), "01234567");
}

#[test]
fn cache_content_decodes_by_format() {
    let json = decode_cache_content("{\"key\": \"value\", \"num\": 123}".to_string(), OutputFormat::Json)
        .unwrap();
    assert_eq!(json["key"], "value");
    assert_eq!(json["num"], 123);
    assert!(decode_cache_content("{not json".to_string(), OutputFormat::Json).is_err());
    let toon = decode_cache_content("key: value".to_string(), OutputFormat::Toon).unwrap();
    assert_eq!(toon, serde_json::Value::String("key: value".to_string()));
    // A TOON file is never parsed, even when its text is not JSON.
    assert!(decode_cache_content("{not json".to_string(), OutputFormat::Toon).is_ok());
}
