use rey::crypto::aead::{secretbox_encrypt, stream_encrypt};
use rey::crypto::error::CryptoError;
use rey::crypto::key::generate_key;
use rey::crypto::types::Key256;
use rey::crypto::util::base64_encode;
use rey::sync::collections::{
    decrypt_collection_name, plan_collections_page, EncryptedCollection, PageStop,
    SyncCollectionResponse,
};
use rey::sync::decrypt::{
    batch_decrypt_files, batch_decrypt_files_checked, decrypt_single, decrypt_single_checked,
    EncryptedFileRecord,
};
use rey::sync::diff::{
    collections_page_url, files_page_url, session_token_or_error, trash_page_url,
    DEFAULT_PAGE_SIZE,
};
use rey::sync::error::SyncError;
use rey::sync::pull::{
    collection_cursor_key, cursor_or_zero, plan_files_page, plan_trash_page, DeletedFile,
    SyncFilesResponse, SyncTrashResponse,
};

fn metadata_json(
    title: Option<&str>,
    description: Option<&str>,
    latitude: Option<f64>,
    longitude: Option<f64>,
    taken_at: Option<i64>,
    device_make: Option<&str>,
    device_model: Option<&str>,
    tags: &[&str],
) -> Vec<u8> {
    let mut map = serde_json::Map::new();
    let text = |v: Option<&str>| match v {
        Some(s) => serde_json::Value::String(s.to_string()),
        None => serde_json::Value::Null,
    };
    map.insert("title".to_string(), text(title));
    map.insert("description".to_string(), text(description));
    map.insert(
        "latitude".to_string(),
        latitude.map(serde_json::Value::from).unwrap_or(serde_json::Value::Null),
    );
    map.insert(
        "longitude".to_string(),
        longitude.map(serde_json::Value::from).unwrap_or(serde_json::Value::Null),
    );
    map.insert(
        "taken_at".to_string(),
        taken_at.map(serde_json::Value::from).unwrap_or(serde_json::Value::Null),
    );
    map.insert("device_make".to_string(), text(device_make));
    map.insert("device_model".to_string(), text(device_model));
    map.insert(
        "tags".to_string(),
        serde_json::Value::Array(
            tags.iter().map(|t| serde_json::Value::String(t.to_string())).collect(),
        ),
    );
    serde_json::to_vec(&serde_json::Value::Object(map)).unwrap()
}

fn make_encrypted_record(id: i64, collection_key: &Key256, metadata: &[u8]) -> EncryptedFileRecord {
    let file_key = generate_key();
    let (key_nonce, encrypted_key) = secretbox_encrypt(file_key.as_bytes(), collection_key);
    let (header, ciphertext) = stream_encrypt(metadata, &file_key);
    EncryptedFileRecord {
        id,
        collection_id: "col-1".to_string(),
        cipher: "xchacha20-poly1305".to_string(),
        encrypted_key: base64_encode(&encrypted_key),
        key_decryption_nonce: base64_encode(key_nonce.as_bytes()),
        file_decryption_header: base64_encode(header.as_bytes()),
        thumb_decryption_header: None,
        encrypted_metadata: base64_encode(&ciphertext),
        encrypted_thumbnail: None,
        thumbnail_size: None,
        file_size: 1024,
        mime_type: "image/jpeg".to_string(),
        content_hash: "hash123".to_string(),
        object_key: "obj/key".to_string(),
        updation_time: 1700000000000,
        created_at: 1700000000000,
        archived_at: None,
    }
}

fn parsed(json: &[u8]) -> serde_json::Value {
    serde_json::from_slice(json).unwrap()
}

// Decrypting file records.

#[test]
fn test_batch_decrypt_files_empty() {
    let key = generate_key();
    let result = batch_decrypt_files(&[], &key).unwrap();
    assert!(result.is_empty());
}

#[test]
fn test_batch_decrypt_files_single_record() {
    let collection_key = generate_key();
    let metadata = metadata_json(
        Some("test.jpg"),
        Some("A test file"),
        Some(40.7128),
        Some(-74.0060),
        Some(1700000000000),
        Some("Apple"),
        Some("iPhone"),
        &["test"],
    );
    let record = make_encrypted_record(1, &collection_key, &metadata);
    let records = [record];
    let result = batch_decrypt_files(&records, &collection_key).unwrap();
    assert_eq!(result.len(), 1);
    assert_eq!(result[0].record.id, 1);
    assert_eq!(parsed(&result[0].metadata_json)["title"], "test.jpg");
    assert_eq!(result[0].record.file_size, 1024);
}

#[test]
fn test_batch_decrypt_files_skips_invalid_records() {
    let collection_key = generate_key();
    let metadata = metadata_json(Some("valid.jpg"), None, None, None, None, None, None, &[]);
    let valid_record = make_encrypted_record(1, &collection_key, &metadata);
    let invalid_record = EncryptedFileRecord {
        id: 2,
        collection_id: "col-1".to_string(),
        cipher: "xchacha20-poly1305".to_string(),
        encrypted_key: "not-valid-base64!@#".to_string(),
        key_decryption_nonce: "also-invalid".to_string(),
        file_decryption_header: "invalid".to_string(),
        thumb_decryption_header: None,
        encrypted_metadata: "bad".to_string(),
        encrypted_thumbnail: None,
        thumbnail_size: None,
        file_size: 512,
        mime_type: "image/png".to_string(),
        content_hash: "hash".to_string(),
        object_key: "obj".to_string(),
        updation_time: 1700000000000,
        created_at: 1700000000000,
        archived_at: None,
    };
    let records = [valid_record, invalid_record];
    let result = batch_decrypt_files(&records, &collection_key).unwrap();
    assert_eq!(result.len(), 1);
    assert_eq!(result[0].record.id, 1);
}

#[test]
fn test_batch_decrypt_files_wrong_key_returns_empty() {
    let correct_key = generate_key();
    let wrong_key = generate_key();
    let metadata = metadata_json(Some("secret.jpg"), None, None, None, None, None, None, &[]);
    let record = make_encrypted_record(1, &correct_key, &metadata);
    let records = [record];
    let result = batch_decrypt_files(&records, &wrong_key).unwrap();
    assert!(result.is_empty());
}

#[test]
fn test_decrypt_single_preserves_all_fields() {
    let collection_key = generate_key();
    let metadata = metadata_json(
        Some("photo.jpg"),
        Some("Sunset"),
        Some(34.0522),
        Some(-118.2437),
        Some(1700000000000),
        Some("Canon"),
        Some("EOS R5"),
        &["sunset", "nature"],
    );
    let record = make_encrypted_record(42, &collection_key, &metadata);
    let result = decrypt_single(&record, &collection_key).unwrap();
    let fields = parsed(&result.metadata_json);
    assert_eq!(result.record.id, 42);
    assert_eq!(fields["title"], "photo.jpg");
    assert_eq!(fields["description"], "Sunset");
    assert_eq!(fields["latitude"], 34.0522);
    assert_eq!(fields["longitude"], -118.2437);
    assert_eq!(fields["taken_at"], 1700000000000i64);
    assert_eq!(result.record.file_size, 1024);
    assert_eq!(result.record.mime_type, "image/jpeg");
    assert_eq!(result.metadata_json, metadata);
}

#[test]
fn decrypt_single_reports_the_failing_step() {
    let key = generate_key();
    let metadata = metadata_json(None, None, None, None, None, None, None, &[]);
    let good = make_encrypted_record(7, &key, &metadata);

    let mut bad_key_text = good.clone();
    bad_key_text.encrypted_key = "!!".to_string();
    match decrypt_single(&bad_key_text, &key) {
        Err(SyncError::ParseError(m)) => assert!(m.starts_with("base64 decode encrypted_key: ")),
        _ => panic!("expected a parse error"),
    }

    let mut bad_nonce_text = good.clone();
    bad_nonce_text.key_decryption_nonce = "!!".to_string();
    match decrypt_single(&bad_nonce_text, &key) {
        Err(SyncError::ParseError(m)) => assert!(m.starts_with("base64 decode key_nonce: ")),
        _ => panic!("expected a parse error"),
    }

    let other = generate_key();
    match decrypt_single(&good, &other) {
        Err(SyncError::DecryptionFailed { file_id, source }) => {
            assert_eq!(file_id, 7);
            assert!(matches!(source, CryptoError::MacMismatch));
        }
        _ => panic!("expected a decryption failure"),
    }

    let mut bad_metadata_text = good.clone();
    bad_metadata_text.encrypted_metadata = "!!".to_string();
    match decrypt_single(&bad_metadata_text, &key) {
        Err(SyncError::ParseError(m)) => {
            assert!(m.starts_with("base64 decode encrypted_metadata: "))
        }
        _ => panic!("expected a parse error"),
    }

    let mut bad_header_text = good.clone();
    bad_header_text.file_decryption_header = "!!".to_string();
    match decrypt_single(&bad_header_text, &key) {
        Err(SyncError::ParseError(m)) => {
            assert!(m.starts_with("base64 decode file_decryption_header: "))
        }
        _ => panic!("expected a parse error"),
    }

    let mut tampered = good.clone();
    let (_, other_ciphertext) = stream_encrypt(&metadata, &other);
    tampered.encrypted_metadata = base64_encode(&other_ciphertext);
    match decrypt_single(&tampered, &key) {
        Err(SyncError::DecryptionFailed { file_id, .. }) => assert_eq!(file_id, 7),
        _ => panic!("expected a decryption failure"),
    }
}

#[test]
fn decrypt_single_checked_refuses_short_nonce() {
    let key = generate_key();
    let metadata = metadata_json(None, None, None, None, None, None, None, &[]);
    let mut record = make_encrypted_record(3, &key, &metadata);
    record.key_decryption_nonce = base64_encode(&[0u8; 12]);
    assert!(decrypt_single_checked(&record, &key).is_none());
    let records = [record];
    assert!(batch_decrypt_files_checked(&records, &key).is_none());
}

#[test]
fn batch_decrypt_files_keeps_order() {
    let key = generate_key();
    let records: Vec<EncryptedFileRecord> = (1..=3)
        .map(|id| {
            let json = metadata_json(Some(&format!("{id}.jpg")), None, None, None, None, None, None, &[]);
            make_encrypted_record(id, &key, &json)
        })
        .collect();
    let result = batch_decrypt_files_checked(&records, &key).unwrap().unwrap();
    let ids: Vec<i64> = result.iter().map(|d| d.record.id).collect();
    assert_eq!(ids, vec![1, 2, 3]);
}

// Errors.

#[test]
fn error_test_sync_error_display_offline() {
    let err = SyncError::Offline;
    assert_eq!(err.to_string(), "offline mode: no network available");
}

#[test]
fn error_test_sync_error_display_cursor() {
    let err = SyncError::CursorError("test cursor error".to_string());
    assert_eq!(err.to_string(), "cursor error: test cursor error");
}

#[test]
fn error_test_sync_error_display_parse() {
    let err = SyncError::ParseError("bad format".to_string());
    assert_eq!(err.to_string(), "parse error: bad format");
}

#[test]
fn test_sync_error_display_decryption_failed() {
    let err = SyncError::DecryptionFailed { file_id: 42, source: CryptoError::MacMismatch };
    let msg = err.to_string();
    assert!(msg.contains("42"));
}

#[test]
fn test_sync_error_debug_output() {
    let err = SyncError::Offline;
    let debug = format!("{:?}", err);
    assert!(debug.contains("Offline"));
}

#[test]
fn test_sync_error_display_network() {
    let err = SyncError::NetworkError("not authenticated".to_string());
    let msg = err.to_string();
    assert!(msg.contains("network error"));
    assert!(msg.contains("not authenticated"));
}

#[test]
fn test_sync_error_display_decryption() {
    let err = SyncError::DecryptionFailed { file_id: 42, source: CryptoError::MacMismatch };
    let msg = err.to_string();
    assert!(msg.contains("decryption failed"));
    assert!(msg.contains("42"));
}

#[test]
fn sync_error_test_sync_error_display_cursor() {
    let err = SyncError::CursorError("test error".to_string());
    let msg = err.to_string();
    assert!(msg.contains("cursor error"));
    assert!(msg.contains("test error"));
}

#[test]
fn sync_error_test_sync_error_display_offline() {
    let err = SyncError::Offline;
    let msg = err.to_string();
    assert!(msg.contains("offline mode"));
}

#[test]
fn sync_error_test_sync_error_display_parse() {
    let err = SyncError::ParseError("bad data".to_string());
    let msg = err.to_string();
    assert!(msg.contains("parse error"));
    assert!(msg.contains("bad data"));
}

#[test]
fn test_sync_error_debug() {
    let err = SyncError::Offline;
    let debug = format!("{:?}", err);
    assert!(debug.contains("Offline"));
}

#[test]
fn decryption_failed_message_is_exact() {
    let err = SyncError::DecryptionFailed { file_id: -5, source: CryptoError::MacMismatch };
    assert_eq!(err.to_string(), "decryption failed for file -5: MAC verification failed");
    assert_eq!(SyncError::DbError("locked".to_string()).to_string(), "database error: locked");
}

// Collections.

fn encrypted_collection(id: &str, name: &[u8], key: &Key256, updation_time: i64) -> EncryptedCollection {
    let (nonce, ciphertext) = secretbox_encrypt(name, key);
    EncryptedCollection {
        id: id.to_string(),
        encrypted_name: base64_encode(&ciphertext),
        name_decryption_nonce: base64_encode(nonce.as_bytes()),
        encrypted_key: "ek".to_string(),
        key_decryption_nonce: "kn".to_string(),
        updation_time,
    }
}

#[test]
fn decrypt_collection_name_roundtrip_and_errors() {
    let key = generate_key();
    let coll = encrypted_collection("c", b"Vacation", &key, 1);
    let name = decrypt_collection_name(&coll.encrypted_name, &coll.name_decryption_nonce, &key);
    assert_eq!(name.unwrap().unwrap(), "Vacation");

    match decrypt_collection_name("!!", &coll.name_decryption_nonce, &key) {
        Some(Err(SyncError::ParseError(m))) => assert!(m.starts_with("base64 decode encrypted_name: ")),
        _ => panic!("expected a parse error"),
    }
    match decrypt_collection_name(&coll.encrypted_name, "!!", &key) {
        Some(Err(SyncError::ParseError(m))) => assert!(m.starts_with("base64 decode name_nonce: ")),
        _ => panic!("expected a parse error"),
    }
    let other = generate_key();
    match decrypt_collection_name(&coll.encrypted_name, &coll.name_decryption_nonce, &other) {
        Some(Err(SyncError::ParseError(m))) => {
            assert_eq!(m, "decrypt collection name: MAC verification failed")
        }
        _ => panic!("expected a parse error"),
    }
    let not_utf8 = encrypted_collection("c", &[0xFF, 0xFE], &key, 1);
    match decrypt_collection_name(&not_utf8.encrypted_name, &not_utf8.name_decryption_nonce, &key) {
        Some(Err(SyncError::ParseError(m))) => assert!(m.starts_with("collection name not utf8: ")),
        _ => panic!("expected a parse error"),
    }
    assert!(decrypt_collection_name(&coll.encrypted_name, &base64_encode(&[0u8; 8]), &key).is_none());
}

#[test]
fn plan_collections_page_decrypts_in_order_and_stops_at_failure() {
    let key = generate_key();
    let other = generate_key();
    let page = SyncCollectionResponse {
        collections: vec![
            encrypted_collection("col-1", b"Vacation", &key, 10),
            encrypted_collection("col-2", b"Family", &key, 20),
            encrypted_collection("col-3", b"Hidden", &other, 30),
            encrypted_collection("col-4", b"Never", &key, 40),
        ],
        latest_updated_at: 99,
        has_more: true,
    };
    let plan = plan_collections_page(&page, Some(&key), 5);
    assert!(!plan.done);
    assert_eq!(plan.collections.len(), 2);
    assert_eq!(plan.collections[0].id, "col-1");
    assert_eq!(plan.collections[0].name, "Vacation");
    assert_eq!(plan.collections[0].encrypted_key, "ek");
    assert_eq!(plan.collections[0].key_nonce, "kn");
    assert_eq!(plan.collections[0].created_at, 0);
    assert_eq!(plan.collections[1].name, "Family");
    assert_eq!(plan.next_since, 20);
    assert_eq!(plan.cursor, 99);
    assert!(plan.has_more);
    assert!(matches!(plan.stop, Some(PageStop::Failed(SyncError::ParseError(_)))));
}

#[test]
fn plan_collections_page_empty_and_unauthenticated() {
    let page = SyncCollectionResponse { collections: vec![], latest_updated_at: 7, has_more: false };
    let plan = plan_collections_page(&page, None, 3);
    assert!(plan.done);
    assert_eq!(plan.next_since, 3);

    let key = generate_key();
    let page = SyncCollectionResponse {
        collections: vec![encrypted_collection("col-1", b"A", &key, 10)],
        latest_updated_at: 7,
        has_more: false,
    };
    let plan = plan_collections_page(&page, None, 3);
    assert!(!plan.done);
    assert!(plan.collections.is_empty());
    match plan.stop {
        Some(PageStop::Failed(SyncError::NetworkError(m))) => assert_eq!(m, "not authenticated"),
        _ => panic!("expected not authenticated"),
    }
    let plan = plan_collections_page(&page, Some(&key), 3);
    assert!(plan.stop.is_none());
    assert_eq!(plan.next_since, 10);
}

// Cursors and pages.

#[test]
fn cursor_or_zero_defaults() {
    assert_eq!(cursor_or_zero(Ok(Some(1700000000000))), 1700000000000);
    assert_eq!(cursor_or_zero(Ok(None)), 0);
    assert_eq!(cursor_or_zero(Err(SyncError::Offline)), 0);
}

#[test]
fn collection_cursor_key_format() {
    assert_eq!(collection_cursor_key("col-1"), "collection:col-1:since");
}

#[test]
fn plan_files_page_empty_is_done() {
    let page = SyncFilesResponse {
        updated_files: vec![],
        deleted_file_ids: vec![],
        latest_updated_at: 5,
        has_more: false,
    };
    let plan = plan_files_page(&page).unwrap();
    assert!(plan.done);
    assert_eq!(plan.cursor, 5);
}

#[test]
fn plan_files_page_decrypts_with_zero_key_and_archives() {
    let zero = Key256::new([0u8; 32]);
    let metadata = metadata_json(Some("a.jpg"), None, None, None, None, None, None, &[]);
    let wrong = generate_key();
    let page = SyncFilesResponse {
        updated_files: vec![
            make_encrypted_record(1, &zero, &metadata),
            make_encrypted_record(2, &wrong, &metadata),
        ],
        deleted_file_ids: vec![8, 9],
        latest_updated_at: 77,
        has_more: true,
    };
    let plan = plan_files_page(&page).unwrap();
    assert!(!plan.done);
    assert_eq!(plan.decrypted.len(), 1);
    assert_eq!(plan.decrypted[0].record.id, 1);
    assert_eq!(plan.archived_ids, vec![8, 9]);
    assert_eq!(plan.cursor, 77);
    assert!(plan.has_more);
}

#[test]
fn plan_trash_page_archives_every_file() {
    let page = SyncTrashResponse {
        deleted_files: vec![
            DeletedFile { file_id: 1, updation_time: 100 },
            DeletedFile { file_id: 2, updation_time: 200 },
        ],
        latest_updated_at: 300,
        has_more: false,
    };
    let plan = plan_trash_page(&page, 50);
    assert!(!plan.done);
    assert_eq!(plan.file_ids, vec![1, 2]);
    assert_eq!(plan.next_since, 200);
    assert_eq!(plan.cursor, 300);

    let empty = SyncTrashResponse { deleted_files: vec![], latest_updated_at: 0, has_more: false };
    let plan = plan_trash_page(&empty, 50);
    assert!(plan.done);
    assert_eq!(plan.next_since, 50);
}

// Page requests.

#[test]
fn page_addresses() {
    assert_eq!(
        collections_page_url("https://api.example.com", 1700000000000),
        "https://api.example.com/api/sync/collections?since=1700000000000&limit=100"
    );
    assert_eq!(
        files_page_url("http://h", "col-1", 0),
        "http://h/api/sync/files?collection_id=col-1&since=0&limit=100"
    );
    assert_eq!(trash_page_url("http://h", -5), "http://h/api/sync/trash?since=-5&limit=100");
    assert_eq!(DEFAULT_PAGE_SIZE, 100);
}

#[test]
fn session_token_or_error_without_token() {
    assert_eq!(session_token_or_error(Some("t".to_string())).unwrap(), "t");
    match session_token_or_error(None) {
        Err(SyncError::NetworkError(m)) => assert_eq!(m, "not authenticated"),
        _ => panic!("expected a network error"),
    }
}
