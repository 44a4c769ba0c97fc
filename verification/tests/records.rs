use oas_core::error::{RecordError, SchemaError};
use oas_core::meta::RecordMeta;
use oas_core::record::{Guid, Record, RevisionPolicy, TypedValue, UntypedRecord};
use oas_core::types::Media;
use serde_json::Value;

fn json(text: &str) -> Value {
    serde_json::from_str(text).unwrap()
}

fn media(url: &str) -> Media {
    Media { content_url: url.to_string(), content_file: None, encoding_format: None }
}

fn full_media() -> Media {
    Media {
        content_url: "http://x/a.mp3".to_string(),
        content_file: Some("a.mp3".to_string()),
        encoding_format: Some("audio/mpeg".to_string()),
    }
}

fn untyped(id: &str, value: &str) -> UntypedRecord {
    UntypedRecord::new(id.to_string(), json(value), RecordMeta::new(), None)
}

fn read_record(revision: &str) -> Record<Media> {
    let mut meta = RecordMeta::new();
    meta.jobs_mut().settings_mut().insert("asr".to_string(), Some(Value::Bool(true)));
    UntypedRecord::new(
        "media/abc".to_string(),
        full_media().encode(),
        meta,
        Some(revision.to_string()),
    )
    .into_typed_record::<Media>()
    .unwrap()
}

#[test]
fn media_namespace_is_media() {
    assert_eq!(Media::name(), "media");
}

#[test]
fn guid_from_local_id_is_type_qualified() {
    let guid = Guid::<Media>::from_id("abc");
    assert_eq!(guid.as_str(), "media/abc");
    assert_eq!(guid.id(), "abc");
    assert_eq!(guid.into_string(), "media/abc");
}

#[test]
fn guid_is_parsed_only_from_its_own_namespace() {
    let guid = Guid::<Media>::parse("media/abc".to_string());
    assert_eq!(guid.ok().map(|g| g.id()), Some("abc".to_string()));
    assert_eq!(Guid::<Media>::parse("feed/abc".to_string()).err(), Some(RecordError::InvalidIdentifier));
    assert_eq!(Guid::<Media>::parse("abc".to_string()).err(), Some(RecordError::InvalidIdentifier));
}

#[test]
fn fresh_record_has_empty_metadata_and_no_revision() {
    let record = Record::from_id_and_value("abc", media("http://x/a.mp3"));
    assert_eq!(record.guid().as_str(), "media/abc");
    assert_eq!(record.id(), "abc");
    assert_eq!(record.value(), &media("http://x/a.mp3"));
    assert!(record.meta().jobs().settings().is_empty());
    assert_eq!(record.revision(), &None);
}

#[test]
fn value_is_replaced_in_place() {
    let mut record = read_record("1-abc");
    record.set_value(media("http://y/b.mp3"));
    assert_eq!(record.guid().as_str(), "media/abc");
    assert_eq!(record.value(), &media("http://y/b.mp3"));
    assert_eq!(record.revision(), &Some("1-abc".to_string()));
    assert_eq!(record.meta().jobs().settings().get("asr"), Some(&Some(Value::Bool(true))));
}

#[test]
fn put_names_the_revision_only_where_it_is_checked() {
    let record = read_record("1-abc");
    assert_eq!(record.revision_to_put(RevisionPolicy::Checked), Some(&"1-abc".to_string()));
    assert_eq!(record.revision_to_put(RevisionPolicy::Overwrite), None);
    let fresh = Record::from_id_and_value("abc", media("http://x/a.mp3"));
    assert_eq!(fresh.revision_to_put(RevisionPolicy::Checked), None);
    assert_eq!(fresh.revision_to_put(RevisionPolicy::Overwrite), None);
}

#[test]
fn media_is_written_as_an_object_of_three_members() {
    assert_eq!(
        full_media().encode(),
        json(r#"{"content_url": "http://x/a.mp3", "content_file": "a.mp3", "encoding_format": "audio/mpeg"}"#)
    );
    assert_eq!(
        media("http://x/a.mp3").encode(),
        json(r#"{"content_url": "http://x/a.mp3", "content_file": null, "encoding_format": null}"#)
    );
}

#[test]
fn media_is_read_from_an_object() {
    assert_eq!(
        Media::decode(&json(
            r#"{"content_url": "http://x/a.mp3", "content_file": "a.mp3", "encoding_format": "audio/mpeg"}"#
        )),
        Ok(full_media())
    );
    assert_eq!(Media::decode(&json(r#"{"content_url": "http://x/a.mp3"}"#)), Ok(media("http://x/a.mp3")));
    assert_eq!(
        Media::decode(&json(r#"{"content_url": "u", "content_file": null, "title": "t", "n": 1.5}"#)),
        Ok(media("u"))
    );
}

#[test]
fn media_without_content_url_misses_a_field() {
    assert_eq!(Media::decode(&json(r#"{}"#)), Err(SchemaError::MissingField));
    assert_eq!(Media::decode(&json(r#"{"content_file": "a.mp3"}"#)), Err(SchemaError::MissingField));
}

#[test]
fn media_with_a_mistyped_member_is_of_invalid_type() {
    assert_eq!(Media::decode(&json(r#"{"content_url": 5}"#)), Err(SchemaError::InvalidType));
    assert_eq!(Media::decode(&json(r#"{"content_url": null}"#)), Err(SchemaError::InvalidType));
    assert_eq!(
        Media::decode(&json(r#"{"content_url": "u", "content_file": 1}"#)),
        Err(SchemaError::InvalidType)
    );
    assert_eq!(
        Media::decode(&json(r#"{"content_url": "u", "encoding_format": ["audio/mpeg"]}"#)),
        Err(SchemaError::InvalidType)
    );
}

#[test]
fn media_is_not_read_from_what_is_no_object() {
    assert_eq!(Media::decode(&json(r#"["http://x/a.mp3"]"#)), Err(SchemaError::NotAnObject));
    assert_eq!(Media::decode(&json(r#""http://x/a.mp3""#)), Err(SchemaError::NotAnObject));
    assert_eq!(Media::decode(&Value::Null), Err(SchemaError::NotAnObject));
}

#[test]
fn untyped_record_holds_its_parts() {
    let mut meta = RecordMeta::new();
    meta.jobs_mut().settings_mut().insert("asr".to_string(), None);
    let record =
        UntypedRecord::new("media/abc".to_string(), json(r#"{"a": 1}"#), meta, Some("2-x".to_string()));
    assert_eq!(record.guid(), "media/abc");
    assert_eq!(record.value(), &json(r#"{"a": 1}"#));
    assert_eq!(record.meta().jobs().settings().get("asr"), Some(&None));
    assert_eq!(record.revision(), &Some("2-x".to_string()));
}

#[test]
fn typed_record_becomes_untyped_with_the_same_parts() {
    let untyped = read_record("3-y").into_untyped_record();
    assert_eq!(untyped.guid(), "media/abc");
    assert_eq!(untyped.value(), &full_media().encode());
    assert_eq!(untyped.meta().jobs().settings().get("asr"), Some(&Some(Value::Bool(true))));
    assert_eq!(untyped.revision(), &Some("3-y".to_string()));
}

#[test]
fn typed_untyped_typed_gives_the_record_back() {
    let record = read_record("3-y");
    let back = record.into_untyped_record().into_typed_record::<Media>().unwrap();
    assert_eq!(back.guid().as_str(), "media/abc");
    assert_eq!(back.value(), &full_media());
    assert_eq!(back.meta().jobs().settings().get("asr"), Some(&Some(Value::Bool(true))));
    assert_eq!(back.meta().jobs().settings().entries().len(), 1);
    assert_eq!(back.revision(), &Some("3-y".to_string()));
}

#[test]
fn untyped_record_of_another_namespace_is_no_media_record() {
    let record = untyped("feed/abc", r#"{"content_url": "http://x/a.mp3"}"#);
    assert_eq!(record.into_typed_record::<Media>().err(), Some(RecordError::InvalidIdentifier));
    let record = untyped("abc", r#"{"content_url": "http://x/a.mp3"}"#);
    assert_eq!(record.into_typed_record::<Media>().err(), Some(RecordError::InvalidIdentifier));
}

#[test]
fn untyped_record_that_does_not_conform_is_a_schema_mismatch() {
    let record = untyped("media/abc", r#"{"title": "t"}"#);
    assert_eq!(
        record.into_typed_record::<Media>().err(),
        Some(RecordError::SchemaMismatch(SchemaError::MissingField))
    );
    let record = untyped("media/abc", r#"{"content_url": true}"#);
    assert_eq!(
        record.into_typed_record::<Media>().err(),
        Some(RecordError::SchemaMismatch(SchemaError::InvalidType))
    );
    let record = untyped("media/abc", r#"[1, 2]"#);
    assert_eq!(
        record.into_typed_record::<Media>().err(),
        Some(RecordError::SchemaMismatch(SchemaError::NotAnObject))
    );
}

#[test]
fn errors_tell_the_caller_from_the_infrastructure() {
    assert!(RecordError::InvalidIdentifier.is_caller_error());
    assert!(RecordError::SchemaMismatch(SchemaError::MissingField).is_caller_error());
    assert!(RecordError::PatchPathNotFound.is_caller_error());
    assert!(RecordError::PatchTestFailed.is_caller_error());
    assert!(!RecordError::StoreUnavailable.is_caller_error());
    assert!(!RecordError::NotFound.is_caller_error());
    assert!(RecordError::StoreUnavailable.is_transient());
    assert!(RecordError::UpstreamFetchFailed.is_transient());
    assert!(!RecordError::Conflict.is_transient());
    assert!(!RecordError::NotFound.is_transient());
    assert!(!RecordError::PatchTestFailed.is_transient());
}

#[test]
fn each_error_has_its_status() {
    assert_eq!(RecordError::NotFound.status_code(), 404);
    assert_eq!(RecordError::InvalidIdentifier.status_code(), 400);
    assert_eq!(RecordError::SchemaMismatch(SchemaError::InvalidType).status_code(), 422);
    assert_eq!(RecordError::SchemaMismatch(SchemaError::MalformedPatch).status_code(), 422);
    assert_eq!(RecordError::PatchPathNotFound.status_code(), 422);
    assert_eq!(RecordError::PatchTestFailed.status_code(), 409);
    assert_eq!(RecordError::Conflict.status_code(), 409);
    assert_eq!(RecordError::StoreUnavailable.status_code(), 503);
    assert_eq!(RecordError::UpstreamFetchFailed.status_code(), 502);
}
