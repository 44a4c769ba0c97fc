//! Records: a document as a typed value or as a JSON tree, with its
//! identifier, metadata and revision, and the conversions between the two.

use vstd::prelude::*;
use json_patch::Patch;
use serde_json::Value;
use crate::error::{RecordError, SchemaError};
use crate::json::{json_of, Json};
use crate::meta::{RecordMeta, RecordMetaView};
use crate::patch::{apply_patch, patch_ops, spec_apply_patch};
use crate::util::{
    guid_for,
    is_guid_of,
    is_namespace,
    lemma_checked_guid_is_own,
    lemma_own_guid_accepted,
    spec_guid_for,
    spec_split_and_check_guid,
    split_and_check_guid,
};

verus! {

/// A type of documents: it has a namespace for its identifiers and a JSON
/// form for its values.
pub trait TypedValue: View + Sized {
    /// The namespace of the type's identifiers.
    spec fn namespace() -> Seq<char>;

    /// Whether a value is one that the type's schema admits.
    spec fn conforms(value: Self::V) -> bool;

    /// The JSON tree that stands for a value.
    spec fn encoded(value: Self::V) -> Json;

    /// The value that a JSON tree stands for, or why it stands for none.
    spec fn decoded(tree: Json) -> Result<Self::V, SchemaError>;

    /// The namespace holds no separator.
    proof fn lemma_namespace_is_valid()
        ensures
            is_namespace(Self::namespace()),
    ;

    /// Reading the JSON form of a value that the schema admits gives the
    /// value back.
    proof fn lemma_decoded_encoded(value: Self::V)
        requires
            Self::conforms(value),
        ensures
            Self::decoded(Self::encoded(value)) == Ok::<Self::V, SchemaError>(value),
    ;

    /// The namespace of the type's identifiers.
    fn name() -> (name: &'static str)
        ensures
            name@ == Self::namespace(),
    ;

    /// Writes the value as a JSON tree.
    fn encode(&self) -> (tree: Value)
        ensures
            json_of(tree) == Self::encoded(self@),
    ;

    /// Reads a value from a JSON tree.
    fn decode(tree: &Value) -> (value: Result<Self, SchemaError>)
        ensures
            match value {
                Ok(v) => Self::decoded(json_of(*tree)) == Ok::<Self::V, SchemaError>(v@),
                Err(e) => Self::decoded(json_of(*tree)) == Err::<Self::V, SchemaError>(e),
            },
    ;
}

/// What an optional string says.
pub open spec fn text_of(s: Option<String>) -> Option<Seq<char>> {
    match s {
        Some(s) => Some(s@),
        None => None,
    }
}

/// A record as a mathematical value: identifier, payload, metadata and
/// revision.
pub struct RecordView<V> {
    pub id: Seq<char>,
    pub value: V,
    pub meta: RecordMetaView,
    pub revision: Option<Seq<char>>,
}

/// The untyped form of a typed record: the payload becomes a JSON tree, the
/// rest stays.
pub open spec fn spec_into_untyped<T: TypedValue>(record: RecordView<T::V>) -> RecordView<Json> {
    RecordView {
        id: record.id,
        value: T::encoded(record.value),
        meta: record.meta,
        revision: record.revision,
    }
}

/// The typed form of an untyped record: its identifier has to be one of the
/// type and its payload has to conform; the rest stays.
pub open spec fn spec_into_typed<T: TypedValue>(record: RecordView<Json>) -> Result<
    RecordView<T::V>,
    RecordError,
> {
    if !is_guid_of(T::namespace(), record.id) {
        Err(RecordError::InvalidIdentifier)
    } else {
        match T::decoded(record.value) {
            Ok(value) => Ok(
                RecordView {
                    id: record.id,
                    value: value,
                    meta: record.meta,
                    revision: record.revision,
                },
            ),
            Err(e) => Err(RecordError::SchemaMismatch(e)),
        }
    }
}

/// A typed record that becomes untyped and typed again is the record it was:
/// identifier, value, metadata and revision.
pub proof fn lemma_round_trip<T: TypedValue>(record: RecordView<T::V>)
    requires
        is_guid_of(T::namespace(), record.id),
        T::conforms(record.value),
    ensures
        spec_into_typed::<T>(spec_into_untyped::<T>(record)) == Ok::<
            RecordView<T::V>,
            RecordError,
        >(record),
{
    T::lemma_decoded_encoded(record.value);
}

/// An identifier of a document of type `T`: the namespace of `T`, a
/// separator and a local id.
pub struct Guid<T: TypedValue> {
    raw: String,
    of: core::marker::PhantomData<T>,
}

impl<T: TypedValue> View for Guid<T> {
    type V = Seq<char>;

    closed spec fn view(&self) -> Seq<char> {
        self.raw@
    }
}

impl<T: TypedValue> Guid<T> {
    #[verifier::type_invariant]
    spec fn is_of_type(self) -> bool {
        is_guid_of(T::namespace(), self.raw@)
    }

    /// The identifier of the document of type `T` with the local id `id`.
    pub fn from_id(id: &str) -> (guid: Guid<T>)
        ensures
            guid@ == spec_guid_for(T::namespace(), id@),
    {
        proof {
            T::lemma_namespace_is_valid();
            lemma_own_guid_accepted(T::namespace(), id@);
        }
        Guid { raw: guid_for(T::name(), id), of: core::marker::PhantomData }
    }

    /// Reads `raw` as an identifier of type `T`. Any `raw` that is not the
    /// namespace of `T`, a separator and a local id is invalid.
    pub fn parse(raw: String) -> (guid: Result<Guid<T>, RecordError>)
        ensures
            match guid {
                Ok(g) => is_guid_of(T::namespace(), raw@) && g@ == raw@,
                Err(e) => !is_guid_of(T::namespace(), raw@) && e == RecordError::InvalidIdentifier,
            },
    {
        match split_and_check_guid(T::name(), raw.as_str()) {
            Ok(_) => Ok(Guid { raw, of: core::marker::PhantomData }),
            Err(e) => Err(e),
        }
    }

    /// The identifier as text.
    pub fn as_str(&self) -> (raw: &str)
        ensures
            raw@ == self@,
            is_guid_of(T::namespace(), raw@),
    {
        proof {
            use_type_invariant(self);
        }
        self.raw.as_str()
    }

    /// The local id: the identifier without its namespace and separator.
    pub fn id(&self) -> (id: String)
        ensures
            spec_split_and_check_guid(T::namespace(), self@) == Some(id@),
            self@ == spec_guid_for(T::namespace(), id@),
    {
        proof {
            use_type_invariant(self);
            lemma_checked_guid_is_own(T::namespace(), self.raw@);
        }
        split_and_check_guid(T::name(), self.raw.as_str()).unwrap()
    }

    /// The identifier as text, given away.
    pub fn into_string(self) -> (raw: String)
        ensures
            raw@ == self@,
            is_guid_of(T::namespace(), raw@),
    {
        proof {
            use_type_invariant(&self);
        }
        self.raw
    }
}

/// Whether a put names the revision under which the record was read.
#[derive(Clone, Copy, Debug, PartialEq, Eq, Structural)]
pub enum RevisionPolicy {
    /// The put names the revision, so that the store can refuse it where
    /// the document has changed since.
    Checked,
    /// The put names no revision: it overwrites what the store holds.
    Overwrite,
}

/// The revision that a put names under `policy` for a record that was read
/// under `held`.
pub open spec fn spec_revision_to_put(policy: RevisionPolicy, held: Option<Seq<char>>) -> Option<
    Seq<char>,
> {
    match policy {
        RevisionPolicy::Checked => held,
        RevisionPolicy::Overwrite => None,
    }
}

/// A document of type `T`.
pub struct Record<T: TypedValue> {
    guid: Guid<T>,
    value: T,
    meta: RecordMeta,
    revision: Option<String>,
}

impl<T: TypedValue> View for Record<T> {
    type V = RecordView<T::V>;

    closed spec fn view(&self) -> RecordView<T::V> {
        RecordView {
            id: self.guid@,
            value: self.value@,
            meta: self.meta@,
            revision: text_of(self.revision),
        }
    }
}

impl<T: TypedValue> Record<T> {
    /// A fresh record of `value` under the local id `id`: its identifier is
    /// the one of type `T` for that local id, its metadata is empty and it
    /// has no revision yet.
    pub fn from_id_and_value(id: &str, value: T) -> (record: Record<T>)
        ensures
            record@ == (RecordView {
                id: spec_guid_for(T::namespace(), id@),
                value: value@,
                meta: RecordMetaView::empty(),
                revision: None,
            }),
    {
        Record { guid: Guid::from_id(id), value, meta: RecordMeta::new(), revision: None }
    }

    /// The identifier, which is one of type `T`.
    pub fn guid(&self) -> (guid: &Guid<T>)
        ensures
            guid@ == self@.id,
            is_guid_of(T::namespace(), self@.id),
    {
        proof {
            use_type_invariant(&self.guid);
        }
        &self.guid
    }

    /// The local id: the identifier without its namespace and separator.
    pub fn id(&self) -> (id: String)
        ensures
            spec_split_and_check_guid(T::namespace(), self@.id) == Some(id@),
            self@.id == spec_guid_for(T::namespace(), id@),
    {
        self.guid.id()
    }

    /// The payload.
    pub fn value(&self) -> (value: &T)
        ensures
            value@ == self@.value,
    {
        &self.value
    }

    /// Replaces the payload. Identifier, metadata and revision stay.
    pub fn set_value(&mut self, value: T)
        ensures
            final(self)@ == (RecordView { value: value@, ..old(self)@ }),
    {
        self.value = value;
    }

    /// The metadata.
    pub fn meta(&self) -> (meta: &RecordMeta)
        ensures
            meta@ == self@.meta,
    {
        &self.meta
    }

    /// The metadata, to change it. Identifier, payload and revision stay.
    pub fn meta_mut(&mut self) -> (meta: &mut RecordMeta)
        ensures
            meta@ == old(self)@.meta,
            final(self)@ == (RecordView { meta: final(meta)@, ..old(self)@ }),
    {
        &mut self.meta
    }

    /// The revision under which the store holds the record, if it told one.
    pub fn revision(&self) -> (revision: &Option<String>)
        ensures
            text_of(*revision) == self@.revision,
    {
        &self.revision
    }

    /// The revision that a put of the record names under `policy`.
    pub fn revision_to_put(&self, policy: RevisionPolicy) -> (revision: Option<&String>)
        ensures
            match revision {
                Some(r) => spec_revision_to_put(policy, self@.revision) == Some(r@),
                None => spec_revision_to_put(policy, self@.revision) is None,
            },
    {
        match policy {
            RevisionPolicy::Checked => self.revision.as_ref(),
            RevisionPolicy::Overwrite => None,
        }
    }

    /// The untyped form of the record: the payload as a JSON tree, the rest
    /// as it is. This never fails.
    pub fn into_untyped_record(self) -> (untyped: UntypedRecord)
        ensures
            untyped@ == spec_into_untyped::<T>(self@),
    {
        let value = self.value.encode();
        UntypedRecord {
            id: self.guid.into_string(),
            value,
            meta: self.meta,
            revision: self.revision,
        }
    }
}

/// A document whose payload is a JSON tree of no particular type.
pub struct UntypedRecord {
    id: String,
    value: Value,
    meta: RecordMeta,
    revision: Option<String>,
}

impl View for UntypedRecord {
    type V = RecordView<Json>;

    closed spec fn view(&self) -> RecordView<Json> {
        RecordView {
            id: self.id@,
            value: json_of(self.value),
            meta: self.meta@,
            revision: text_of(self.revision),
        }
    }
}

impl UntypedRecord {
    /// The record of these parts.
    pub fn new(id: String, value: Value, meta: RecordMeta, revision: Option<String>) -> (record:
        UntypedRecord)
        ensures
            record@ == (RecordView {
                id: id@,
                value: json_of(value),
                meta: meta@,
                revision: text_of(revision),
            }),
    {
        UntypedRecord { id, value, meta, revision }
    }

    /// The identifier.
    pub fn guid(&self) -> (guid: &String)
        ensures
            guid@ == self@.id,
    {
        &self.id
    }

    /// The payload.
    pub fn value(&self) -> (value: &Value)
        ensures
            json_of(*value) == self@.value,
    {
        &self.value
    }

    /// The metadata.
    pub fn meta(&self) -> (meta: &RecordMeta)
        ensures
            meta@ == self@.meta,
    {
        &self.meta
    }

    /// The revision under which the store holds the record, if it told one.
    pub fn revision(&self) -> (revision: &Option<String>)
        ensures
            text_of(*revision) == self@.revision,
    {
        &self.revision
    }

    /// Applies `patch` to the payload, all or nothing: either every operation
    /// is applied, or the record stays exactly as it was. Identifier,
    /// metadata and revision stay in both cases.
    pub fn apply_json_patch(&mut self, patch: &Patch) -> (done: Result<(), RecordError>)
        ensures
            match spec_apply_patch(old(self)@.value, patch_ops(*patch)) {
                Ok(tree) => done is Ok && final(self)@ == (RecordView {
                    value: tree,
                    ..old(self)@
                }),
                Err(e) => done == Err::<(), RecordError>(e) && *final(self) == *old(self),
            },
    {
        apply_patch(&mut self.value, patch)
    }

    /// The typed form of the record. Its identifier has to be one of type
    /// `T`, else it is invalid; its payload has to conform to `T`, else the
    /// schema is not met. Identifier, metadata and revision are carried over.
    pub fn into_typed_record<T: TypedValue>(self) -> (typed: Result<Record<T>, RecordError>)
        ensures
            match typed {
                Ok(record) => spec_into_typed::<T>(self@) == Ok::<RecordView<T::V>, RecordError>(
                    record@,
                ),
                Err(e) => spec_into_typed::<T>(self@) == Err::<RecordView<T::V>, RecordError>(e),
            },
    {
        match Guid::parse(self.id) {
            Err(e) => Err(e),
            Ok(guid) => match T::decode(&self.value) {
                Ok(value) => Ok(Record { guid, value, meta: self.meta, revision: self.revision }),
                Err(e) => Err(RecordError::SchemaMismatch(e)),
            },
        }
    }
}

} // verus!
