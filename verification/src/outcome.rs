//! Per-field tri-state outcomes for hand-written permissive reducers.
//!
//! A field of a companion (permissive) shape never fails its decode:
//! it records success, failure-already-reported, or absence as a value,
//! so sibling fields are still visited.  A reducer inspects the
//! outcomes afterwards and reports a missing-field error for each
//! required field that stayed absent.

use crate::errors::DeserializationError;
use crate::messages::{msg_missing_field, spec_msg_missing_field};
use crate::model::err_at;
use crate::path::Path;
use crate::reporter::ErrorReporter;
use vstd::prelude::*;

verus! {

/// The error reported for a field that was absent from the input.
pub struct MissingFieldError {
    /// The field's name.
    pub field_name: String,
}

impl MissingFieldError {
    /// The message this error renders as: `missing field `<name>``.
    pub fn render(&self) -> (r: String)
        ensures
            r@ == spec_msg_missing_field(self.field_name@),
    {
        msg_missing_field(self.field_name.as_str())
    }
}

/// Tri-state outcome of one field without a default: decoded, decoded
/// with an error already reported, or absent.
pub enum MaybeInvalidOrMissing<T> {
    /// The field decoded without error.
    Valid(core::marker::PhantomData<T>),
    /// The field was present and its errors were already reported.
    Invalid,
    /// The field's entry was absent from the input.
    Missing,
}

/// Two-state outcome of one field with a default: absence collapses
/// into validity.
pub enum MaybeInvalid<T> {
    /// The field decoded without error, or was absent and defaulted.
    Valid(core::marker::PhantomData<T>),
    /// The field was present and its errors were already reported.
    Invalid,
}

impl<T> MaybeInvalidOrMissing<T> {
    /// Reports `missing field `<name>`` at the given position when the
    /// field stayed absent; reports nothing otherwise.
    pub fn push_error_if_missing(&self, field_name: &str, at: &Path, rep: &mut ErrorReporter)
        requires
            old(rep).session_open(),
        ensures
            final(rep).session_open(),
            final(rep).reported() == if *self is Missing {
                old(rep).reported().push(err_at(at@, spec_msg_missing_field(field_name@)))
            } else {
                old(rep).reported()
            },
    {
        if let MaybeInvalidOrMissing::Missing = self {
            let err = DeserializationError::new(
                Some(at.duplicate()),
                msg_missing_field(field_name),
            );
            rep.report(err);
        }
    }
}

impl<T> MaybeInvalid<T> {
    /// A defaulting field is never missing; nothing is reported.  Kept
    /// so both outcome kinds offer the same reducer interface.
    pub fn push_error_if_missing(&self, field_name: &str, at: &Path, rep: &mut ErrorReporter)
        requires
            old(rep).session_open(),
        ensures
            final(rep).session_open(),
            final(rep).reported() == old(rep).reported(),
    {
        let _ = field_name;
        let _ = at;
    }
}

impl<T> Default for MaybeInvalid<T> {
    /// The defaulting outcome starts out valid.
    fn default() -> (r: Self)
        ensures
            r is Valid,
    {
        MaybeInvalid::Valid(core::marker::PhantomData)
    }
}

} // verus!
