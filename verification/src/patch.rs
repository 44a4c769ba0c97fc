//! JSON Patch documents, applied to a JSON tree all or nothing.

use vstd::prelude::*;
use json_patch::{Patch, PatchErrorKind};
use serde_json::Value;
use crate::error::{PatchFailure, RecordError, SchemaError};
use crate::json::{json_of, Json};

verus! {

/// One operation of a JSON Patch document. Locations are JSON Pointers in
/// their text form.
pub enum PatchOp {
    /// Puts `value` at `path`.
    Add { path: Seq<char>, value: Json },
    /// Takes away what is at `path`.
    Remove { path: Seq<char> },
    /// Puts `value` in the place of what is at `path`.
    Replace { path: Seq<char>, value: Json },
    /// Takes away what is at `from` and puts it at `path`.
    Move { from: Seq<char>, path: Seq<char> },
    /// Puts a copy of what is at `from` at `path`.
    Copy { from: Seq<char>, path: Seq<char> },
    /// Holds where what is at `path` equals `value`.
    Test { path: Seq<char>, value: Json },
}

/// `json_patch::Patch`, a JSON Patch document in memory. What it holds is
/// known to the proofs only as `patch_ops` tells it.
#[verifier::external_type_specification]
#[verifier::external_body]
pub struct ExPatch(json_patch::Patch);

/// `json_patch::PatchOperation`, one operation of a `json_patch::Patch`.
/// Nothing here handles one by itself.
#[verifier::external_type_specification]
#[verifier::external_body]
pub struct ExPatchOperation(json_patch::PatchOperation);

/// The operations that a `json_patch::Patch` holds, in their order.
pub uninterp spec fn patch_ops(patch: json_patch::Patch) -> Seq<PatchOp>;

/// The operations that a JSON tree spells out as a JSON Patch document;
/// `None` where the tree is no such document.
pub uninterp spec fn decoded_patch(body: Json) -> Option<Seq<PatchOp>>;

/// The tree that results from applying `ops` in their order to `document`,
/// or how the first operation that cannot be applied fails.
pub uninterp spec fn patch_outcome(document: Json, ops: Seq<PatchOp>) -> Result<
    Json,
    PatchFailure,
>;

/// `serde_json::from_value` at the type `json_patch::Patch`: whether `body`
/// is a JSON Patch document, and which operations it holds, depends on the
/// tree of `body` alone.
#[verifier::external_body]
fn patch_from_value(body: Value) -> (patch: Result<Patch, serde_json::Error>)
    ensures
        match patch {
            Ok(p) => decoded_patch(json_of(body)) == Some(patch_ops(p)),
            Err(_) => decoded_patch(json_of(body)) is None,
        },
{
    serde_json::from_value::<json_patch::Patch>(body)
}

/// `json_patch::patch_unsafe`: applies the operations of `patch` in their
/// order to `document`, in place. Whether that succeeds, the tree it leaves
/// on success and the kind of the failure depend on the tree of `document`
/// and the operations alone. Of the tree it leaves on failure nothing is
/// said: operations before the failing one stay applied.
#[verifier::external_body]
fn patch_in_place(document: &mut Value, patch: &Patch) -> (done: Result<(), PatchFailure>)
    ensures
        match done {
            Ok(_) => patch_outcome(json_of(*old(document)), patch_ops(*patch)) == Ok::<
                Json,
                PatchFailure,
            >(json_of(*final(document))),
            Err(failure) => patch_outcome(json_of(*old(document)), patch_ops(*patch)) == Err::<
                Json,
                PatchFailure,
            >(failure),
        },
{
    match json_patch::patch_unsafe(document, patch) {
        Ok(()) => Ok(()),
        Err(e) => Err(
            match e.kind {
                PatchErrorKind::TestFailed => PatchFailure::TestFailed,
                PatchErrorKind::InvalidFromPointer => PatchFailure::InvalidFromPointer,
                PatchErrorKind::InvalidPointer => PatchFailure::InvalidPointer,
                PatchErrorKind::CannotMoveInsideItself => PatchFailure::CannotMoveInsideItself,
                _ => PatchFailure::Unrecognized,
            },
        ),
    }
}

/// The error that a failed patch ends in: a `test` that did not hold is told
/// apart from every structural failure.
pub open spec fn spec_patch_error(failure: PatchFailure) -> RecordError {
    if failure is TestFailed {
        RecordError::PatchTestFailed
    } else {
        RecordError::PatchPathNotFound
    }
}

/// What applying `ops` to `document` comes to: the patched tree, or the
/// error of the first failure.
pub open spec fn spec_apply_patch(document: Json, ops: Seq<PatchOp>) -> Result<Json, RecordError> {
    match patch_outcome(document, ops) {
        Ok(tree) => Ok(tree),
        Err(failure) => Err(spec_patch_error(failure)),
    }
}

/// The error that a failed patch ends in.
#[verifier::when_used_as_spec(spec_patch_error)]
pub fn patch_error(failure: PatchFailure) -> (e: RecordError)
    ensures
        e == spec_patch_error(failure),
{
    match failure {
        PatchFailure::TestFailed => RecordError::PatchTestFailed,
        _ => RecordError::PatchPathNotFound,
    }
}

/// Reads `body` as a JSON Patch document.
pub fn parse_patch(body: Value) -> (patch: Result<Patch, RecordError>)
    ensures
        match patch {
            Ok(p) => decoded_patch(json_of(body)) == Some(patch_ops(p)),
            Err(e) => decoded_patch(json_of(body)) is None && e == RecordError::SchemaMismatch(
                SchemaError::MalformedPatch,
            ),
        },
{
    match patch_from_value(body) {
        Ok(p) => Ok(p),
        Err(_) => Err(RecordError::SchemaMismatch(SchemaError::MalformedPatch)),
    }
}

/// Ends the application of a patch that was tried on a working copy:
/// `outcome` is how the trial ended and `patched` what it left. On success
/// `document` becomes `patched`; on failure `document` stays untouched and
/// the error says why.
pub fn settle_patch(
    document: &mut Value,
    patched: Value,
    outcome: Result<(), PatchFailure>,
) -> (done: Result<(), RecordError>)
    ensures
        match outcome {
            Ok(_) => done is Ok && *final(document) == patched,
            Err(failure) => *final(document) == *old(document) && done == Err::<(), RecordError>(
                spec_patch_error(failure),
            ),
        },
{
    match outcome {
        Ok(_) => {
            *document = patched;
            Ok(())
        },
        Err(failure) => Err(patch_error(failure)),
    }
}

/// Applies `patch` to `document`, all or nothing: either every operation is
/// applied, or `document` stays exactly as it was.
pub fn apply_patch(document: &mut Value, patch: &Patch) -> (done: Result<(), RecordError>)
    ensures
        match spec_apply_patch(json_of(*old(document)), patch_ops(*patch)) {
            Ok(tree) => done is Ok && json_of(*final(document)) == tree,
            Err(e) => done == Err::<(), RecordError>(e) && *final(document) == *old(document),
        },
{
    // The operations run on a copy: a patch that fails leaves its earlier
    // operations applied there, and `document` never sees them.
    let mut working = document.clone();
    let outcome = patch_in_place(&mut working, patch);
    settle_patch(document, working, outcome)
}

} // verus!
