//! Typed records over a schema-free document store.
//!
//! Documents live in the store as JSON trees with a little metadata. This
//! crate derives their type-qualified identifiers, holds them as typed or
//! untyped records, converts between the two forms, and applies JSON Patch
//! documents to the untyped form, all or nothing.

pub mod error;
pub mod json;
pub mod media;
pub mod meta;
pub mod patch;
pub mod record;
pub mod types;
pub mod util;
