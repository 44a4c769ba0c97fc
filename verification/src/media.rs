//! What each request on media records comes to, short of reaching the
//! store: the identifier to look up, or the record to put.

use vstd::prelude::*;
use json_patch::Patch;
use serde_json::Value;
use crate::error::{RecordError, SchemaError};
use crate::json::{boolean, json_of, Json};
use crate::meta::{JobsMetaView, RecordMetaView, ASR};
use crate::patch::{decoded_patch, parse_patch, patch_ops, spec_apply_patch, PatchOp};
use crate::record::{
    spec_into_typed,
    Guid,
    Record,
    RecordView,
    TypedValue,
    UntypedRecord,
};
use crate::types::{Media, MediaView};
use crate::util::{id_from_hashed_string, is_guid_of, spec_guid_for, spec_id_from_hashed_string};

verus! {

/// The metadata of a new media record: nothing, or the request to
/// transcribe the content with the default settings.
pub open spec fn spec_new_media_meta(transcribe: bool) -> RecordMetaView {
    if transcribe {
        RecordMetaView {
            jobs: JobsMetaView { settings: Map::empty().insert(ASR@, Some(Json::Bool(true))) },
        }
    } else {
        RecordMetaView::empty()
    }
}

/// The record that a patched document comes to: the patch is applied to the
/// payload, and what results is read as a value of type `T`.
pub open spec fn spec_patched<T: TypedValue>(
    existing: RecordView<Json>,
    ops: Seq<PatchOp>,
) -> Result<RecordView<T::V>, RecordError> {
    match spec_apply_patch(existing.value, ops) {
        Ok(tree) => spec_into_typed::<T>(RecordView { value: tree, ..existing }),
        Err(e) => Err(e),
    }
}

/// Reading a media record: the identifier to fetch for the local id `id`.
pub fn get_media(id: &str) -> (guid: Guid<Media>)
    ensures
        guid@ == spec_guid_for(Media::namespace(), id@),
{
    Guid::from_id(id)
}

/// Creating a media record: the record to put for `value`. Its identifier
/// is derived from the address of the content, so that the same content
/// gives the same record. Where `transcribe` is given, whatever it holds,
/// the record asks for speech recognition with the default settings.
pub fn post_media(value: Media, transcribe: Option<String>) -> (record: Record<Media>)
    ensures
        record@ == (RecordView {
            id: spec_guid_for(
                Media::namespace(),
                spec_id_from_hashed_string(value@.content_url),
            ),
            value: value@,
            meta: spec_new_media_meta(transcribe is Some),
            revision: None,
        }),
{
    let id = id_from_hashed_string(value.content_url.as_str());
    let mut record = Record::from_id_and_value(id.as_str(), value);
    if transcribe.is_some() {
        record.meta_mut().jobs_mut().settings_mut().insert(ASR.to_owned(), Some(boolean(true)));
    }
    record
}

/// Replacing a media record: the record to put under the identifier `id`
/// for `value`. An `id` that is no identifier of a media record is invalid.
pub fn put_media(id: &str, value: Media) -> (record: Result<Record<Media>, RecordError>)
    ensures
        match record {
            Ok(r) => is_guid_of(Media::namespace(), id@) && r@ == (RecordView {
                id: id@,
                value: value@,
                meta: RecordMetaView::empty(),
                revision: None,
            }),
            Err(e) => !is_guid_of(Media::namespace(), id@) && e == RecordError::InvalidIdentifier,
        },
{
    match Guid::<Media>::parse(id.to_owned()) {
        Ok(guid) => {
            let local = guid.id();
            Ok(Record::from_id_and_value(local.as_str(), value))
        },
        Err(e) => Err(e),
    }
}

/// Patching a media record, before the store is asked: the identifier to
/// fetch for the local id `id`, and the patch that `body` spells out. A
/// `body` that is no JSON Patch document does not meet the schema.
pub fn begin_patch_media(id: &str, body: Value) -> (plan: Result<(Guid<Media>, Patch), RecordError>)
    ensures
        match plan {
            Ok((guid, patch)) => guid@ == spec_guid_for(Media::namespace(), id@) && decoded_patch(
                json_of(body),
            ) == Some(patch_ops(patch)),
            Err(e) => decoded_patch(json_of(body)) is None && e == RecordError::SchemaMismatch(
                SchemaError::MalformedPatch,
            ),
        },
{
    let guid = Guid::from_id(id);
    match parse_patch(body) {
        Ok(patch) => Ok((guid, patch)),
        Err(e) => Err(e),
    }
}

/// Patching a media record, once the store has given the document: the
/// record to put. The patch is applied to the payload of `existing`, all or
/// nothing, and what results has to be a media file again.
pub fn patch_media(existing: UntypedRecord, patch: &Patch) -> (record: Result<
    Record<Media>,
    RecordError,
>)
    ensures
        match record {
            Ok(r) => spec_patched::<Media>(existing@, patch_ops(*patch)) == Ok::<
                RecordView<MediaView>,
                RecordError,
            >(r@),
            Err(e) => spec_patched::<Media>(existing@, patch_ops(*patch)) == Err::<
                RecordView<MediaView>,
                RecordError,
            >(e),
        },
{
    let mut existing = existing;
    match existing.apply_json_patch(patch) {
        Ok(_) => existing.into_typed_record::<Media>(),
        Err(e) => Err(e),
    }
}

/// Reading the content of a media record: the address to fetch it from.
pub fn get_media_data(record: &Record<Media>) -> (url: &String)
    ensures
        url@ == record@.value.content_url,
{
    &record.value().content_url
}

} // verus!
