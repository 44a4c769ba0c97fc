use oas_core::error::{RecordError, SchemaError};
use oas_core::media::{begin_patch_media, get_media, get_media_data, patch_media, post_media, put_media};
use oas_core::meta::RecordMeta;
use oas_core::patch::parse_patch;
use oas_core::record::UntypedRecord;
use oas_core::types::Media;
use serde_json::Value;

fn json(text: &str) -> Value {
    serde_json::from_str(text).unwrap()
}

fn media(url: &str) -> Media {
    Media { content_url: url.to_string(), content_file: None, encoding_format: None }
}

fn stored(id: &str, value: &str) -> UntypedRecord {
    UntypedRecord::new(id.to_string(), json(value), RecordMeta::new(), Some("1-a".to_string()))
}

#[test]
fn media_is_fetched_under_its_guid() {
    assert_eq!(get_media("abc").as_str(), "media/abc");
}

#[test]
fn post_without_transcribe_requests_no_job() {
    let record = post_media(media("http://x/a.mp3"), None);
    assert_eq!(
        record.guid().as_str(),
        "media/9e25e98f498c41296ae872ff5da4145ab926e82d033228f2a23797fc8ca7cc0e"
    );
    assert_eq!(record.value(), &media("http://x/a.mp3"));
    assert!(record.meta().jobs().settings().is_empty());
    assert_eq!(record.revision(), &None);
}

#[test]
fn post_with_transcribe_requests_speech_recognition() {
    let record = post_media(media("http://x/a.mp3"), Some("true".to_string()));
    assert_eq!(
        record.guid().as_str(),
        "media/9e25e98f498c41296ae872ff5da4145ab926e82d033228f2a23797fc8ca7cc0e"
    );
    assert_eq!(record.value(), &media("http://x/a.mp3"));
    assert_eq!(record.meta().jobs().settings().get("asr"), Some(&Some(Value::Bool(true))));
    assert_eq!(record.meta().jobs().settings().entries().len(), 1);
}

#[test]
fn post_takes_any_transcribe_flag_as_a_request() {
    let record = post_media(media("http://x/a.mp3"), Some(String::new()));
    assert_eq!(record.meta().jobs().settings().get("asr"), Some(&Some(Value::Bool(true))));
    let record = post_media(media("http://x/a.mp3"), Some("false".to_string()));
    assert_eq!(record.meta().jobs().settings().get("asr"), Some(&Some(Value::Bool(true))));
}

#[test]
fn post_of_the_same_content_gives_the_same_guid() {
    let first = post_media(media("http://x/a.mp3"), None);
    let second = post_media(media("http://x/a.mp3"), Some("1".to_string()));
    let other = post_media(media("http://y/b.mp3"), None);
    assert_eq!(first.guid().as_str(), second.guid().as_str());
    assert_ne!(first.guid().as_str(), other.guid().as_str());
}

#[test]
fn put_stores_the_value_under_the_given_guid() {
    let value = Media {
        content_url: "http://x/a.mp3".to_string(),
        content_file: Some("a.mp3".to_string()),
        encoding_format: Some("audio/mpeg".to_string()),
    };
    let record = put_media("media/abc", value.clone()).unwrap();
    assert_eq!(record.guid().as_str(), "media/abc");
    assert_eq!(record.value(), &value);
    assert!(record.meta().jobs().settings().is_empty());
    assert_eq!(record.revision(), &None);
}

#[test]
fn put_rejects_a_guid_of_another_namespace() {
    assert_eq!(put_media("feed/abc", media("u")).err(), Some(RecordError::InvalidIdentifier));
    assert_eq!(put_media("abc", media("u")).err(), Some(RecordError::InvalidIdentifier));
    assert_eq!(put_media("", media("u")).err(), Some(RecordError::InvalidIdentifier));
}

#[test]
fn patch_begins_with_guid_and_parsed_patch() {
    let body = json(r#"[{"op": "replace", "path": "/content_url", "value": "http://y/b.mp3"}]"#);
    let (guid, patch) = begin_patch_media("abc", body.clone()).unwrap();
    assert_eq!(guid.as_str(), "media/abc");
    assert_eq!(serde_json::to_value(&patch).unwrap(), body);
}

#[test]
fn patch_does_not_begin_with_a_malformed_body() {
    let plan = begin_patch_media("abc", json(r#"{"content_url": "http://y/b.mp3"}"#));
    assert_eq!(plan.err(), Some(RecordError::SchemaMismatch(SchemaError::MalformedPatch)));
}

#[test]
fn patch_replaces_the_content_url_and_nothing_else() {
    let existing = stored(
        "media/abc",
        r#"{"content_url": "http://x/a.mp3", "content_file": "a.mp3", "encoding_format": "audio/mpeg"}"#,
    );
    let patch = parse_patch(json(
        r#"[{"op": "replace", "path": "/content_url", "value": "http://y/b.mp3"}]"#,
    ))
    .unwrap();
    let record = patch_media(existing, &patch).unwrap();
    assert_eq!(record.guid().as_str(), "media/abc");
    assert_eq!(
        record.value(),
        &Media {
            content_url: "http://y/b.mp3".to_string(),
            content_file: Some("a.mp3".to_string()),
            encoding_format: Some("audio/mpeg".to_string()),
        }
    );
    assert_eq!(record.revision(), &Some("1-a".to_string()));
    assert!(record.meta().jobs().settings().is_empty());
}

#[test]
fn patch_with_a_failed_test_gives_no_record() {
    let existing = stored("media/abc", r#"{"content_url": "http://x/a.mp3"}"#);
    let patch = parse_patch(json(
        r#"[
            {"op": "test", "path": "/content_url", "value": "http://z/c.mp3"},
            {"op": "replace", "path": "/content_url", "value": "http://y/b.mp3"}
        ]"#,
    ))
    .unwrap();
    assert_eq!(patch_media(existing, &patch).err(), Some(RecordError::PatchTestFailed));
}

#[test]
fn patch_of_a_missing_path_gives_no_record() {
    let existing = stored("media/abc", r#"{"content_url": "http://x/a.mp3"}"#);
    let patch = parse_patch(json(r#"[{"op": "remove", "path": "/duration"}]"#)).unwrap();
    assert_eq!(patch_media(existing, &patch).err(), Some(RecordError::PatchPathNotFound));
}

#[test]
fn patch_that_breaks_the_schema_gives_no_record() {
    let existing = stored("media/abc", r#"{"content_url": "http://x/a.mp3"}"#);
    let patch = parse_patch(json(r#"[{"op": "remove", "path": "/content_url"}]"#)).unwrap();
    assert_eq!(
        patch_media(existing, &patch).err(),
        Some(RecordError::SchemaMismatch(SchemaError::MissingField))
    );
    let existing = stored("media/abc", r#"{"content_url": "http://x/a.mp3"}"#);
    let patch =
        parse_patch(json(r#"[{"op": "replace", "path": "/content_url", "value": 7}]"#)).unwrap();
    assert_eq!(
        patch_media(existing, &patch).err(),
        Some(RecordError::SchemaMismatch(SchemaError::InvalidType))
    );
}

#[test]
fn patch_can_mend_a_document_that_does_not_conform() {
    let existing = stored("media/abc", r#"{"content_url": 5, "title": "t"}"#);
    let patch = parse_patch(json(
        r#"[{"op": "replace", "path": "/content_url", "value": "http://x/a.mp3"}]"#,
    ))
    .unwrap();
    let record = patch_media(existing, &patch).unwrap();
    assert_eq!(record.value(), &media("http://x/a.mp3"));
}

#[test]
fn patch_of_a_document_of_another_type_gives_no_record() {
    let existing = stored("feed/abc", r#"{"content_url": "http://x/a.mp3"}"#);
    let patch = parse_patch(json(r#"[]"#)).unwrap();
    assert_eq!(patch_media(existing, &patch).err(), Some(RecordError::InvalidIdentifier));
}

#[test]
fn content_is_fetched_from_the_content_url() {
    let record = post_media(media("http://x/a.mp3"), None);
    assert_eq!(get_media_data(&record), "http://x/a.mp3");
}
