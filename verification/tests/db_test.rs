use ivoryvalley::db::already_seen;
use ivoryvalley::db::eviction_cutoff;
use ivoryvalley::db::extract_dedup_uri;
use ivoryvalley::db::lookup_answer;
use ivoryvalley::db::marked;
use ivoryvalley::db::open_step;
use ivoryvalley::db::removed_count;
use ivoryvalley::db::stamp;
use ivoryvalley::db::SeenUriStore;
use ivoryvalley::db::StoreError;
use ivoryvalley::json::JsonValue;

fn text(s: &str) -> JsonValue {
    JsonValue::Text(s.to_string())
}

fn object(fields: Vec<(&str, JsonValue)>) -> JsonValue {
    JsonValue::Object(
        fields
            .into_iter()
            .map(|(k, v)| (k.to_string(), v))
            .collect(),
    )
}

#[test]
fn test_in_memory_store() {
    let store = SeenUriStore::open(":memory:").unwrap();

    let uri = "https://example.com/status/123";

    assert!(!store.is_seen(uri).unwrap());
    store.mark_seen(uri).unwrap();
    assert!(store.is_seen(uri).unwrap());
}

#[test]
fn test_check_and_mark_atomic() {
    let store = SeenUriStore::open(":memory:").unwrap();

    let uri = "https://example.com/status/456";

    // First call: URI not seen, should return false (newly marked)
    assert!(!store.check_and_mark(uri).unwrap());

    // Second call: URI was seen, should return true
    assert!(store.check_and_mark(uri).unwrap());

    // Verify it's actually in the store
    assert!(store.is_seen(uri).unwrap());
}

#[test]
fn test_extract_uri_from_regular_status() {
    let status = object(vec![
        ("id", text("123456")),
        (
            "uri",
            text("https://mastodon.social/users/testuser/statuses/123456"),
        ),
        ("content", text("<p>Hello, world!</p>")),
    ]);

    let uri = extract_dedup_uri(&status);
    assert_eq!(
        uri,
        Some("https://mastodon.social/users/testuser/statuses/123456")
    );
}

#[test]
fn test_extract_uri_from_reblog() {
    let status = object(vec![
        ("id", text("789012")),
        (
            "uri",
            text("https://mastodon.social/users/booster/statuses/789012"),
        ),
        (
            "reblog",
            object(vec![
                ("id", text("123456")),
                (
                    "uri",
                    text("https://fosstodon.org/users/original/statuses/123456"),
                ),
                ("content", text("<p>Original post</p>")),
            ]),
        ),
    ]);

    let uri = extract_dedup_uri(&status);
    // Should return the reblog's URI, not the boost's URI
    assert_eq!(
        uri,
        Some("https://fosstodon.org/users/original/statuses/123456")
    );
}

#[test]
fn test_extract_uri_with_null_reblog() {
    let status = object(vec![
        ("id", text("123456")),
        (
            "uri",
            text("https://mastodon.social/users/testuser/statuses/123456"),
        ),
        ("reblog", JsonValue::Null),
    ]);

    let uri = extract_dedup_uri(&status);
    // With null reblog, should return the status's own URI
    assert_eq!(
        uri,
        Some("https://mastodon.social/users/testuser/statuses/123456")
    );
}

#[test]
fn test_extract_uri_missing() {
    let status = object(vec![
        ("id", text("123456")),
        ("content", text("<p>No URI field</p>")),
    ]);

    let uri = extract_dedup_uri(&status);
    assert_eq!(uri, None);
}

#[test]
fn test_extract_reshare_collapse() {
    let reshare = object(vec![
        ("uri", text("A")),
        ("reblog", object(vec![("uri", text("B"))])),
    ]);
    assert_eq!(extract_dedup_uri(&reshare), Some("B"));

    let null_original = object(vec![("uri", text("A")), ("reblog", JsonValue::Null)]);
    assert_eq!(extract_dedup_uri(&null_original), Some("A"));

    let plain = object(vec![("uri", text("A"))]);
    assert_eq!(extract_dedup_uri(&plain), Some("A"));

    let empty = object(vec![]);
    assert_eq!(extract_dedup_uri(&empty), None);
}

#[test]
fn test_extract_reshare_without_identity_has_none() {
    // A non-null original decides alone, also where it carries no identity.
    let no_inner_uri = object(vec![
        ("uri", text("A")),
        ("reblog", object(vec![("id", text("1"))])),
    ]);
    assert_eq!(extract_dedup_uri(&no_inner_uri), None);

    let inner_uri_not_text = object(vec![
        ("uri", text("A")),
        ("reblog", object(vec![("uri", JsonValue::Bool(true))])),
    ]);
    assert_eq!(extract_dedup_uri(&inner_uri_not_text), None);

    let original_not_object = object(vec![("uri", text("A")), ("reblog", text("B"))]);
    assert_eq!(extract_dedup_uri(&original_not_object), None);
}

#[test]
fn test_extract_uri_not_a_string() {
    let null_uri = object(vec![("uri", JsonValue::Null)]);
    assert_eq!(extract_dedup_uri(&null_uri), None);

    let number_uri = object(vec![(
        "uri",
        JsonValue::Number(serde_json::Number::from(7)),
    )]);
    assert_eq!(extract_dedup_uri(&number_uri), None);

    assert_eq!(extract_dedup_uri(&JsonValue::Null), None);
    assert_eq!(extract_dedup_uri(&text("https://example.com/1")), None);
    assert_eq!(
        extract_dedup_uri(&JsonValue::Array(vec![text("https://example.com/1")])),
        None
    );
}

#[test]
fn test_extract_uri_repeated_key_takes_last() {
    let status = object(vec![("uri", text("first")), ("uri", text("last"))]);
    assert_eq!(extract_dedup_uri(&status), Some("last"));
}

#[test]
fn test_json_member_lookup() {
    let value = object(vec![
        ("a", text("1")),
        ("b", JsonValue::Null),
        ("a", text("2")),
    ]);
    assert_eq!(value.member("a"), Some(&text("2")));
    assert_eq!(value.member("b"), Some(&JsonValue::Null));
    assert_eq!(value.member("c"), None);
    assert_eq!(value.text_member("a"), Some("2"));
    assert_eq!(value.text_member("b"), None);
    assert_eq!(text("x").member("a"), None);
    assert_eq!(text("x").as_str(), Some("x"));
    assert_eq!(JsonValue::Bool(false).as_str(), None);
    assert!(JsonValue::Null.is_null());
    assert!(!text("").is_null());
}

#[test]
fn test_create_seen_uri_store() {
    let temp_dir = tempfile::tempdir().expect("Failed to create temporary directory");
    let db_path = temp_dir.path().join("test.db");

    let store = SeenUriStore::open(&db_path).expect("Failed to open store");
    drop(store);

    // The database file should now exist
    assert!(db_path.exists());
}

#[test]
fn test_store_and_check_uri() {
    let temp_dir = tempfile::tempdir().expect("Failed to create temporary directory");
    let db_path = temp_dir.path().join("test.db");

    let store = SeenUriStore::open(&db_path).expect("Failed to open store");

    let uri = "https://mastodon.social/users/testuser/statuses/123456";

    // URI should not be seen initially
    assert!(!store.is_seen(uri).expect("Failed to check URI"));

    // Store the URI
    store.mark_seen(uri).expect("Failed to mark URI as seen");

    // URI should now be seen
    assert!(store.is_seen(uri).expect("Failed to check URI"));
}

#[test]
fn test_store_duplicate_uri() {
    let temp_dir = tempfile::tempdir().expect("Failed to create temporary directory");
    let db_path = temp_dir.path().join("test.db");

    let store = SeenUriStore::open(&db_path).expect("Failed to open store");

    let uri = "https://mastodon.social/users/testuser/statuses/123456";

    // Store the URI twice - should not error
    store.mark_seen(uri).expect("Failed to mark URI as seen");
    store
        .mark_seen(uri)
        .expect("Failed to mark URI as seen again");

    // URI should still be seen
    assert!(store.is_seen(uri).expect("Failed to check URI"));
}

#[test]
fn test_multiple_uris() {
    let temp_dir = tempfile::tempdir().expect("Failed to create temporary directory");
    let db_path = temp_dir.path().join("test.db");

    let store = SeenUriStore::open(&db_path).expect("Failed to open store");

    let uri1 = "https://mastodon.social/users/user1/statuses/111";
    let uri2 = "https://mastodon.social/users/user2/statuses/222";
    let uri3 = "https://fosstodon.org/users/user3/statuses/333";

    // Store uri1 and uri2
    store.mark_seen(uri1).expect("Failed to mark URI 1");
    store.mark_seen(uri2).expect("Failed to mark URI 2");

    // uri1 and uri2 should be seen, uri3 should not
    assert!(store.is_seen(uri1).expect("Failed to check URI 1"));
    assert!(store.is_seen(uri2).expect("Failed to check URI 2"));
    assert!(!store.is_seen(uri3).expect("Failed to check URI 3"));
}

#[test]
fn test_persistence() {
    let temp_dir = tempfile::tempdir().expect("Failed to create temporary directory");
    let db_path = temp_dir.path().join("test.db");

    let uri = "https://mastodon.social/users/testuser/statuses/789";

    // Open store, mark URI, close
    {
        let store = SeenUriStore::open(&db_path).expect("Failed to open store");
        store.mark_seen(uri).expect("Failed to mark URI");
    }

    // Reopen and check
    {
        let store = SeenUriStore::open(&db_path).expect("Failed to reopen store");
        assert!(store.is_seen(uri).expect("Failed to check URI"));
    }
}

#[test]
fn test_cleanup_old_uris() {
    let temp_dir = tempfile::tempdir().expect("Failed to create temporary directory");
    let db_path = temp_dir.path().join("test.db");

    let store = SeenUriStore::open(&db_path).expect("Failed to open store");

    let uri = "https://mastodon.social/users/testuser/statuses/999";
    store.mark_seen(uri).expect("Failed to mark URI");

    // Cleanup with max_age_secs = 0 should remove all entries
    let removed = store.cleanup(0).expect("Failed to cleanup");
    assert_eq!(removed, 1);

    // URI should no longer be seen
    assert!(!store.is_seen(uri).expect("Failed to check URI"));
}

#[test]
fn test_cleanup_keeps_recent() {
    let temp_dir = tempfile::tempdir().expect("Failed to create temporary directory");
    let db_path = temp_dir.path().join("test.db");

    let store = SeenUriStore::open(&db_path).expect("Failed to open store");

    let uri = "https://mastodon.social/users/testuser/statuses/999";
    store.mark_seen(uri).expect("Failed to mark URI");

    // Cleanup with max_age_secs = 1 week (604800) should keep the entry
    let removed = store.cleanup(604800).expect("Failed to cleanup");
    assert_eq!(removed, 0);

    // URI should still be seen
    assert!(store.is_seen(uri).expect("Failed to check URI"));
}

#[test]
fn test_open_fails_with_init_error() {
    let temp_dir = tempfile::tempdir().expect("Failed to create temporary directory");
    let missing = temp_dir.path().join("no_such_dir").join("test.db");
    match SeenUriStore::open(&missing) {
        Err(StoreError::Init(_)) => {}
        Err(other) => panic!("unexpected error kind: {:?}", other),
        Ok(_) => panic!("open must fail where the directory is missing"),
    }
}

#[test]
fn test_mark_seen_is_idempotent() {
    let store = SeenUriStore::open(":memory:").unwrap();
    store.mark_seen("https://example.com/1").unwrap();
    store.mark_seen("https://example.com/1").unwrap();
    store.mark_seen("https://example.com/2").unwrap();
    // The second marking added no row: two entries leave, not three.
    assert_eq!(store.cleanup(0).unwrap(), 2);
}

#[test]
fn test_check_and_mark_exactly_one_winner() {
    let store = SeenUriStore::open(":memory:").unwrap();
    let mut newly_marked = 0;
    for _ in 0..25 {
        if !store.check_and_mark("https://example.com/contended").unwrap() {
            newly_marked += 1;
        }
    }
    assert_eq!(newly_marked, 1);
    // Other identities are untouched by that.
    assert!(!store.check_and_mark("https://example.com/other").unwrap());
}

#[test]
fn test_check_and_mark_after_mark_seen() {
    let store = SeenUriStore::open(":memory:").unwrap();
    store.mark_seen("https://example.com/1").unwrap();
    assert!(store.check_and_mark("https://example.com/1").unwrap());
}

#[test]
fn test_cleanup_sentinel_and_large_age() {
    let store = SeenUriStore::open(":memory:").unwrap();
    store.mark_seen("https://example.com/1").unwrap();
    store.mark_seen("https://example.com/2").unwrap();
    store.mark_seen("https://example.com/3").unwrap();

    // A very large age evicts nothing from a freshly seeded store.
    assert_eq!(store.cleanup(u64::MAX).unwrap(), 0);
    assert_eq!(store.cleanup(1 << 62).unwrap(), 0);
    assert!(store.is_seen("https://example.com/1").unwrap());

    // Zero evicts everything.
    assert_eq!(store.cleanup(0).unwrap(), 3);
    assert!(!store.is_seen("https://example.com/1").unwrap());
    assert!(!store.is_seen("https://example.com/2").unwrap());
    assert!(!store.is_seen("https://example.com/3").unwrap());
    assert_eq!(store.cleanup(0).unwrap(), 0);
}

#[test]
fn test_store_keeps_identities_apart() {
    let store = SeenUriStore::open(":memory:").unwrap();
    store.mark_seen("https://example.com/a").unwrap();
    assert!(!store.is_seen("https://example.com/A").unwrap());
    assert!(!store.is_seen("https://example.com/a ").unwrap());
    assert!(!store.is_seen("").unwrap());
    store.mark_seen("").unwrap();
    assert!(store.is_seen("").unwrap());
}

#[test]
fn test_already_seen_reads_row_count() {
    assert!(matches!(already_seen(Ok(0)), Ok(true)));
    assert!(matches!(already_seen(Ok(1)), Ok(false)));
    assert!(matches!(
        already_seen(Err(rusqlite::Error::InvalidQuery)),
        Err(StoreError::Write(rusqlite::Error::InvalidQuery))
    ));
}

#[test]
fn test_eviction_cutoff_values() {
    assert_eq!(eviction_cutoff(1_000_000, 0), None);
    assert_eq!(eviction_cutoff(0, 0), None);
    assert_eq!(eviction_cutoff(1_000_000, 604800), Some(395_200));
    assert_eq!(eviction_cutoff(1000, 604800), Some(-603_800));
    assert_eq!(eviction_cutoff(1000, 1000), Some(0));
    assert_eq!(eviction_cutoff(1000, u64::MAX), Some(i64::MIN));
    assert_eq!(eviction_cutoff(0, 1 << 63), Some(i64::MIN));
    assert_eq!(eviction_cutoff(0, (1 << 63) - 1), Some(i64::MIN + 1));
    assert_eq!(eviction_cutoff(u64::MAX, 1), Some(i64::MAX));
    assert_eq!(eviction_cutoff(1 << 63, 1), Some(i64::MAX));
}

#[test]
fn test_stamp_values() {
    assert_eq!(stamp(0), 0);
    assert_eq!(stamp(1_700_000_000), 1_700_000_000);
    assert_eq!(stamp(i64::MAX as u64), i64::MAX);
    assert_eq!(stamp(u64::MAX), i64::MAX);
}

/// A store whose table was dropped behind its back: every operation on it
/// fails in the database.
fn broken_store(dir: &tempfile::TempDir) -> SeenUriStore {
    let db_path = dir.path().join("broken.db");
    let store = SeenUriStore::open(&db_path).expect("Failed to open store");
    let other = rusqlite::Connection::open(&db_path).unwrap();
    other.execute("DROP TABLE seen_uris", []).unwrap();
    store
}

#[test]
fn test_store_errors_by_kind() {
    let dir = tempfile::tempdir().expect("Failed to create temporary directory");
    let store = broken_store(&dir);

    assert!(matches!(
        store.is_seen("https://example.com/1"),
        Err(StoreError::Query(_))
    ));
    assert!(matches!(
        store.mark_seen("https://example.com/1"),
        Err(StoreError::Write(_))
    ));
    assert!(matches!(
        store.check_and_mark("https://example.com/1"),
        Err(StoreError::Write(_))
    ));
    assert!(matches!(store.cleanup(0), Err(StoreError::Write(_))));
    assert!(matches!(store.cleanup(604800), Err(StoreError::Write(_))));
}

#[test]
fn test_store_recovers_when_the_table_is_back() {
    let dir = tempfile::tempdir().expect("Failed to create temporary directory");
    let store = broken_store(&dir);
    assert!(store.check_and_mark("https://example.com/1").is_err());

    // Opening the store again creates the table anew.
    let again = SeenUriStore::open(dir.path().join("broken.db")).unwrap();
    assert!(!again.check_and_mark("https://example.com/1").unwrap());
    assert!(store.check_and_mark("https://example.com/1").unwrap());
}

#[test]
fn test_open_step_reads_outcome() {
    assert!(matches!(open_step(Ok(7usize)), Ok(7)));
    assert!(matches!(open_step(Ok(())), Ok(())));
    assert!(matches!(
        open_step::<usize>(Err(rusqlite::Error::InvalidQuery)),
        Err(StoreError::Init(rusqlite::Error::InvalidQuery))
    ));
}

#[test]
fn test_lookup_answer_reads_outcome() {
    assert!(matches!(lookup_answer(Ok(true)), Ok(true)));
    assert!(matches!(lookup_answer(Ok(false)), Ok(false)));
    assert!(matches!(
        lookup_answer(Err(rusqlite::Error::InvalidQuery)),
        Err(StoreError::Query(rusqlite::Error::InvalidQuery))
    ));
}

#[test]
fn test_marked_reads_outcome() {
    // A row stored and an identity found in place are both success.
    assert!(matches!(marked(Ok(1)), Ok(())));
    assert!(matches!(marked(Ok(0)), Ok(())));
    assert!(matches!(
        marked(Err(rusqlite::Error::InvalidQuery)),
        Err(StoreError::Write(rusqlite::Error::InvalidQuery))
    ));
}

#[test]
fn test_removed_count_reads_outcome() {
    assert!(matches!(removed_count(Ok(0)), Ok(0)));
    assert!(matches!(removed_count(Ok(3)), Ok(3)));
    assert!(matches!(
        removed_count(Err(rusqlite::Error::InvalidQuery)),
        Err(StoreError::Write(rusqlite::Error::InvalidQuery))
    ));
}
