//! Decode JSON documents against a schema.
//!
//! The wire-format parser is an outside collaborator: it turns the text
//! into a [`Content`] tree.  Everything after that — the fast conformance
//! pass, the accumulating pass, the error report — is the library's own
//! verified logic, shared with every other format binding through
//! [`decode_value`].

use crate::engine::decode_for_errors;
use crate::errors::{errors_view, DeserializationError, DeserializationErrors, ErrorModel};
use crate::model::acc;
use crate::path::Segment;
use crate::reporter::ErrorReporter;
use crate::schema::Schema;
use crate::tracker::PathTracker;
use crate::content::Content;
use vstd::prelude::*;

verus! {

/// The value that parsing the given JSON text yields, or the parse
/// error's message; a function of the text alone.
pub uninterp spec fn parsed_text(s: Seq<char>) -> Result<Content, Seq<char>>;

/// The value that parsing the given JSON bytes yields, or the parse
/// error's message; a function of the bytes alone.
pub uninterp spec fn parsed_bytes(b: Seq<u8>) -> Result<Content, Seq<char>>;

/// Relies on serde_json's `Content` enum: each node maps to the matching
/// library constructor, numbers through `Number::as_u64` / `as_i64`,
/// non-integral numbers to their textual form.
#[verifier::external_body]
fn convert_json_value(v: serde_json::Value) -> Content {
    match v {
        serde_json::Value::Null => Content::Null,
        serde_json::Value::Bool(b) => Content::Bool(b),
        serde_json::Value::Number(n) => match (n.as_u64(), n.as_i64()) {
            (Some(u), _) => Content::UInt(u),
            (None, Some(i)) => Content::NInt(i),
            (None, None) => Content::Decimal(n.to_string()),
        },
        serde_json::Value::String(s) => Content::Text(s),
        serde_json::Value::Array(a) => Content::List(a.into_iter().map(convert_json_value).collect()),
        serde_json::Value::Object(m) => Content::Object(
            m.into_iter().map(|(k, w)| (k, convert_json_value(w))).collect(),
        ),
    }
}

/// Relies on `serde_json::from_str`: parses the text into a value tree,
/// or reports the parse error's message.
#[verifier::external_body]
fn parse_str(s: &str) -> (r: Result<Content, String>)
    ensures
        match parsed_text(s@) {
            Ok(v) => (r matches Ok(w) && w == v),
            Err(m) => (r matches Err(e) && e@ == m),
        },
{
    match serde_json::from_str::<serde_json::Value>(s) {
        Ok(v) => Ok(convert_json_value(v)),
        Err(e) => Err(e.to_string()),
    }
}

/// Relies on `serde_json::from_slice`: parses the bytes into a value
/// tree, or reports the parse error's message.
#[verifier::external_body]
fn parse_slice(b: &[u8]) -> (r: Result<Content, String>)
    ensures
        match parsed_bytes(b@) {
            Ok(v) => (r matches Ok(w) && w == v),
            Err(m) => (r matches Err(e) && e@ == m),
        },
{
    match serde_json::from_slice::<serde_json::Value>(b) {
        Ok(v) => Ok(convert_json_value(v)),
        Err(e) => Err(e.to_string()),
    }
}

/// Decodes an already-parsed value against a schema: the ordinary
/// single pass first, and only when it finds a problem the accumulating
/// session, whose drained error list is returned.
pub fn decode_value(v: Content, schema: &Schema) -> (r: Result<Content, DeserializationErrors>)
    ensures
        ({
            let a = acc(*schema, v, Seq::<Segment>::empty());
            &&& (a.0.len() == 0 ==> (r matches Ok(w) && w == v))
            &&& (a.0.len() > 0 ==> (r matches Err(es) && es@ == a.0))
        }),
{
    let ghost a = acc(*schema, v, Seq::<Segment>::empty());
    let mut fast_tracker = PathTracker::new();
    fast_tracker.init();
    let mut fast_reporter = ErrorReporter::new();
    let fast_guard = fast_reporter.start_deserialization();
    let _ = decode_for_errors(schema, &v, &mut fast_tracker, &mut fast_reporter);
    let mut first_errors = fast_reporter.take_errors();
    fast_reporter.finish_deserialization(fast_guard);
    fast_tracker.try_unset();
    if first_errors.len() == 0 {
        assert(a.0.len() == 0);
        return Ok(v);
    }
    let first_failure = first_errors.remove(0);

    let mut tracker = PathTracker::new();
    tracker.init();
    let mut reporter = ErrorReporter::new();
    let guard = reporter.start_deserialization();
    let _ = decode_for_errors(schema, &v, &mut tracker, &mut reporter);
    let mut errors = reporter.take_errors();
    reporter.finish_deserialization(guard);
    tracker.try_unset();
    if errors.len() == 0 {
        // The accumulating pass runs the same engine, so it cannot come
        // back empty here; the fallback mirrors the ordinary error.
        assert(false);
        errors.push(first_failure);
    }
    assert(errors_view(errors@) =~= a.0);
    Err(DeserializationErrors::new(errors))
}

/// Deserialize JSON text against a schema.
///
/// A syntactically malformed document yields a single error without a
/// path; otherwise the parsed value is decoded with [`decode_value`].
pub fn from_str(s: &str, schema: &Schema) -> (r: Result<Content, DeserializationErrors>)
    ensures
        match parsed_text(s@) {
            Err(m) => (r matches Err(es) && es@ == seq![
                ErrorModel { path: None::<Seq<Segment>>, message: m },
            ]),
            Ok(v) => ({
                let a = acc(*schema, v, Seq::<Segment>::empty());
                &&& (a.0.len() == 0 ==> (r matches Ok(w) && w == v))
                &&& (a.0.len() > 0 ==> (r matches Err(es) && es@ == a.0))
            }),
        },
{
    match parse_str(s) {
        Ok(v) => decode_value(v, schema),
        Err(m) => {
            let mut errs: Vec<DeserializationError> = Vec::new();
            errs.push(DeserializationError::new(None, m));
            proof {
                assert(errors_view(errs@) =~= seq![
                    ErrorModel { path: None::<Seq<Segment>>, message: errs@[0]@.message },
                ]);
            }
            Err(DeserializationErrors::new(errs))
        },
    }
}

/// Deserialize JSON bytes against a schema.
///
/// A syntactically malformed document yields a single error without a
/// path; otherwise the parsed value is decoded with [`decode_value`].
pub fn from_slice(b: &[u8], schema: &Schema) -> (r: Result<Content, DeserializationErrors>)
    ensures
        match parsed_bytes(b@) {
            Err(m) => (r matches Err(es) && es@ == seq![
                ErrorModel { path: None::<Seq<Segment>>, message: m },
            ]),
            Ok(v) => ({
                let a = acc(*schema, v, Seq::<Segment>::empty());
                &&& (a.0.len() == 0 ==> (r matches Ok(w) && w == v))
                &&& (a.0.len() > 0 ==> (r matches Err(es) && es@ == a.0))
            }),
        },
{
    match parse_slice(b) {
        Ok(v) => decode_value(v, schema),
        Err(m) => {
            let mut errs: Vec<DeserializationError> = Vec::new();
            errs.push(DeserializationError::new(None, m));
            proof {
                assert(errors_view(errs@) =~= seq![
                    ErrorModel { path: None::<Seq<Segment>>, message: errs@[0]@.message },
                ]);
            }
            Err(DeserializationErrors::new(errs))
        },
    }
}

} // verus!
