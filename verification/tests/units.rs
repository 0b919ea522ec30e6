//! Small units: decimal rendering, byte-level decoding, per-field
//! outcomes.

use eserde::content::Content;
use eserde::json::from_slice;
use eserde::outcome::{MaybeInvalid, MaybeInvalidOrMissing};
use eserde::path::Path;
use eserde::render::u64_string;
use eserde::reporter::ErrorReporter;
use eserde::schema::{FieldSchema, IntWidth, RecordSchema, Schema};

#[test]
fn decimal_rendering() {
    assert_eq!(u64_string(0), "0");
    assert_eq!(u64_string(7), "7");
    assert_eq!(u64_string(10), "10");
    assert_eq!(u64_string(409), "409");
    assert_eq!(u64_string(u64::MAX), "18446744073709551615");
}

#[test]
fn from_slice_matches_from_str() {
    let schema = Schema::Record(RecordSchema {
        fields: vec![FieldSchema::required("n", Schema::UInt(IntWidth::W8))],
        deny_unknown: false,
    });
    assert!(from_slice(br#"{"n": 250}"#, &schema).is_ok());
    let errors = from_slice(br#"{"n": 260}"#, &schema).unwrap_err();
    assert_eq!(errors.len(), 1);
    assert_eq!(
        errors.get(0).message(),
        "invalid value: integer `260`, expected u8"
    );
}

#[test]
fn tri_state_outcomes_report_missing_only() {
    let mut rep = ErrorReporter::new();
    let guard = rep.start_deserialization();
    let at = Path::empty();

    let valid: MaybeInvalidOrMissing<Content> =
        MaybeInvalidOrMissing::Valid(core::marker::PhantomData);
    valid.push_error_if_missing("a", &at, &mut rep);
    assert_eq!(rep.n_errors(), 0);

    let invalid: MaybeInvalidOrMissing<Content> = MaybeInvalidOrMissing::Invalid;
    invalid.push_error_if_missing("b", &at, &mut rep);
    assert_eq!(rep.n_errors(), 0);

    let missing: MaybeInvalidOrMissing<Content> = MaybeInvalidOrMissing::Missing;
    missing.push_error_if_missing("c", &at, &mut rep);
    assert_eq!(rep.n_errors(), 1);

    // The defaulting outcome has no missing state to report.
    let defaulted: MaybeInvalid<Content> = MaybeInvalid::default();
    defaulted.push_error_if_missing("d", &at, &mut rep);
    assert_eq!(rep.n_errors(), 1);

    let errors = rep.take_errors();
    assert_eq!(errors[0].message(), "missing field `c`");
    rep.finish_deserialization(guard);
}
