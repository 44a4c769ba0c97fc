//! The failures a request on a record can end in.

use vstd::prelude::*;

verus! {

/// Why a JSON tree does not conform to the type it was read as.
#[derive(Clone, Copy, Debug, PartialEq, Eq, Structural)]
pub enum SchemaError {
    /// The tree is not a JSON object.
    NotAnObject,
    /// A required member of the object is absent.
    MissingField,
    /// A member of the object holds a value of the wrong JSON type.
    InvalidType,
    /// The tree is not a JSON Patch document.
    MalformedPatch,
}

/// How the application of a JSON Patch document failed.
#[derive(Clone, Copy, Debug, PartialEq, Eq, Structural)]
pub enum PatchFailure {
    /// A `test` operation found another value than the expected one.
    TestFailed,
    /// The `from` pointer of a `move` or `copy` operation leads nowhere.
    InvalidFromPointer,
    /// The `path` pointer of an operation leads nowhere.
    InvalidPointer,
    /// A `move` operation has its target inside its source.
    CannotMoveInsideItself,
    /// A failure of a kind this crate does not know.
    Unrecognized,
}

/// The terminal failures of a request. None of them is retried.
#[derive(Clone, Copy, Debug, PartialEq, Eq, Structural)]
pub enum RecordError {
    /// The store holds no document under the identifier.
    NotFound,
    /// The identifier is malformed or belongs to another type.
    InvalidIdentifier,
    /// A JSON tree does not conform to the expected type.
    SchemaMismatch(SchemaError),
    /// A patch operation addresses a location that does not exist.
    PatchPathNotFound,
    /// A `test` operation of a patch did not hold.
    PatchTestFailed,
    /// The store detected a concurrent modification.
    Conflict,
    /// The store could not be reached or failed.
    StoreUnavailable,
    /// The content behind a media record could not be fetched.
    UpstreamFetchFailed,
}

impl RecordError {
    /// Whether the caller's input is at fault: a bad identifier, a bad patch
    /// or a payload that does not fit the schema.
    pub open spec fn spec_is_caller_error(self) -> bool {
        self is InvalidIdentifier || self is SchemaMismatch || self is PatchPathNotFound
            || self is PatchTestFailed
    }

    /// Whether the infrastructure is at fault, so that the same request may
    /// succeed later.
    pub open spec fn spec_is_transient(self) -> bool {
        self is StoreUnavailable || self is UpstreamFetchFailed
    }

    /// The HTTP status that tells a client of the failure: one of the 4xx
    /// class where the caller is at fault, as for a missing document, and
    /// one of the 5xx class where the infrastructure is.
    pub open spec fn spec_status_code(self) -> u16 {
        match self {
            RecordError::NotFound => 404,
            RecordError::InvalidIdentifier => 400,
            RecordError::SchemaMismatch(_) => 422,
            RecordError::PatchPathNotFound => 422,
            RecordError::PatchTestFailed => 409,
            RecordError::Conflict => 409,
            RecordError::StoreUnavailable => 503,
            RecordError::UpstreamFetchFailed => 502,
        }
    }

    #[verifier::when_used_as_spec(spec_is_caller_error)]
    pub fn is_caller_error(self) -> (b: bool)
        ensures
            b == self.spec_is_caller_error(),
    {
        match self {
            RecordError::InvalidIdentifier
            | RecordError::SchemaMismatch(_)
            | RecordError::PatchPathNotFound
            | RecordError::PatchTestFailed => true,
            _ => false,
        }
    }

    #[verifier::when_used_as_spec(spec_is_transient)]
    pub fn is_transient(self) -> (b: bool)
        ensures
            b == self.spec_is_transient(),
    {
        match self {
            RecordError::StoreUnavailable | RecordError::UpstreamFetchFailed => true,
            _ => false,
        }
    }

    /// The HTTP status that tells a client of the failure.
    #[verifier::when_used_as_spec(spec_status_code)]
    pub fn status_code(self) -> (code: u16)
        ensures
            code == self.spec_status_code(),
            self.spec_is_caller_error() ==> 400 <= code < 500,
            self.spec_is_transient() ==> 500 <= code < 600,
    {
        match self {
            RecordError::NotFound => 404,
            RecordError::InvalidIdentifier => 400,
            RecordError::SchemaMismatch(_) => 422,
            RecordError::PatchPathNotFound => 422,
            RecordError::PatchTestFailed => 409,
            RecordError::Conflict => 409,
            RecordError::StoreUnavailable => 503,
            RecordError::UpstreamFetchFailed => 502,
        }
    }
}

} // verus!
