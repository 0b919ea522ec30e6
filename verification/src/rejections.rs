//! Rejection payloads for an HTTP JSON extractor built on the decoding
//! engine.
//!
//! The types here are plain data: the problem-details report, the
//! per-error validation entries with their JSON-pointer-style body
//! paths, and the three ways a request can be rejected.  Turning them
//! into wire responses is I/O and lives outside the library.

use crate::content::Content;
use crate::errors::DeserializationErrors;
use crate::json::from_slice;
use crate::path::{spec_segment_display, Segment};
use crate::render::push_char;
use crate::schema::Schema;
use vstd::prelude::*;
use vstd::string::StringExecFns;

verus! {

/// JSON extractor wrapper: holds the decoded payload.
pub struct Json<T>(pub T);

/// Rejection used when the request body could not be deserialized into
/// the target shape.
pub struct JsonError {
    /// The decode errors of the rejected body.
    pub errors: DeserializationErrors,
}

/// Rejection used when the `Content-Type` header is missing or
/// unreadable.
#[non_exhaustive]
pub struct MissingJsonContentType {
}

/// Rejection used when the `Content-Type` header has an incorrect
/// value.
pub struct JsonContentTypeMismatch {
    /// The header value that was found.
    pub actual: String,
}

/// One reported problem of an invalid request.
pub struct ValidationError {
    /// An explanation of the problem.
    pub detail: String,
    /// The request part where the problem occurred.
    pub source: Source,
}

/// The request part where a problem occurred.
pub enum Source {
    /// The request body, with a pointer at the problematic property
    /// when one was tracked.
    Body {
        /// Slash-separated path to the problematic body property.
        pointer: Option<String>,
    },
    /// A request header.
    Header {
        /// The name of the problematic header.
        name: String,
    },
}

/// The problems of one invalid request.
pub struct ValidationErrors {
    /// The problems, in discovery order.
    pub errors: Vec<ValidationError>,
}

/// A problem-details error report.
pub struct ProblemDetails<Extension> {
    /// The problem type tag.
    pub type_: String,
    /// The HTTP status code.
    pub status: u16,
    /// A short title.
    pub title: String,
    /// A longer explanation.
    pub detail: String,
    /// Problem-specific extra members.
    pub extensions: Option<Extension>,
}

/// The report sent for an invalid request.
pub struct InvalidRequest {
    /// The underlying problem-details report.
    pub details: ProblemDetails<ValidationErrors>,
}

/// How a path renders as a body pointer: one `/` before each segment.
pub open spec fn spec_pointer(s: Seq<Segment>) -> Seq<char>
    decreases s.len(),
{
    if s.len() == 0 {
        Seq::<char>::empty()
    } else {
        spec_pointer(s.drop_last()) + seq!['/'] + spec_segment_display(s.last())
    }
}

/// Builds the body pointer of a path: one `/` before each segment.
pub fn pointer_of(segments: &Vec<Segment>) -> (r: String)
    ensures
        r@ == spec_pointer(segments@),
{
    let mut out = String::new();
    let mut i: usize = 0;
    while i < segments.len()
        invariant
            i <= segments.len(),
            out@ == spec_pointer(segments@.subrange(0, i as int)),
        decreases segments.len() - i,
    {
        let ghost prefix = segments@.subrange(0, i as int);
        push_char(&mut out, '/');
        match &segments[i] {
            Segment::SeqIndex { index } => {
                push_char(&mut out, '[');
                crate::render::append_u64(&mut out, *index as u64);
                push_char(&mut out, ']');
            },
            Segment::MapKey { key } => {
                out.append(key.as_str());
            },
            Segment::EnumVariant { variant } => {
                out.append(variant.as_str());
            },
        }
        proof {
            let next = segments@.subrange(0, (i + 1) as int);
            assert(next.drop_last() =~= prefix);
            assert(next.last() == segments@[i as int]);
            assert(out@ =~= spec_pointer(next));
        }
        i = i + 1;
    }
    proof {
        assert(segments@.subrange(0, segments@.len() as int) =~= segments@);
    }
    out
}

impl JsonError {
    /// Wraps the decode errors of a rejected body.
    pub fn new(err: DeserializationErrors) -> (r: JsonError)
        ensures
            r.errors@ == err@,
    {
        JsonError { errors: err }
    }

    /// The wrapped decode errors.
    pub fn errors(&self) -> (r: &DeserializationErrors)
        ensures
            r@ == self.errors@,
    {
        &self.errors
    }

    /// The validation entries of this rejection: one per decode error,
    /// with the error's message and the body pointer of its path.
    pub fn to_validation_errors(&self) -> (r: ValidationErrors)
        ensures
            r.errors@.len() == self.errors@.len(),
            forall|i: int|
                0 <= i < r.errors@.len() ==> ((#[trigger] r.errors@[i]).detail@
                    == self.errors@[i].message && (r.errors@[i].source matches Source::Body {
                    pointer,
                } && (match self.errors@[i].path {
                    Some(p) => (pointer matches Some(pt) && pt@ == spec_pointer(p)),
                    None => pointer is None,
                }))),
    {
        let mut out: Vec<ValidationError> = Vec::new();
        let n = self.errors.len();
        let mut i: usize = 0;
        while i < n
            invariant
                i <= n,
                n == self.errors@.len(),
                out@.len() == i,
                forall|k: int|
                    0 <= k < i ==> ((#[trigger] out@[k]).detail@ == self.errors@[k].message
                        && (out@[k].source matches Source::Body { pointer } && (
                    match self.errors@[k].path {
                        Some(p) => (pointer matches Some(pt) && pt@ == spec_pointer(p)),
                        None => pointer is None,
                    }))),
            decreases n - i,
        {
            let e = self.errors.get(i);
            let pointer = match e.path() {
                Some(p) => Some(pointer_of(p.segments())),
                None => None,
            };
            let detail = e.message().to_owned();
            out.push(ValidationError { detail, source: Source::Body { pointer } });
            i = i + 1;
        }
        ValidationErrors { errors: out }
    }
}

/// The HTTP status every invalid-request report carries.
pub fn invalid_request_status() -> (r: u16)
    ensures
        r == 400,
{
    400
}

impl InvalidRequest {
    /// A problem-details report for an invalid request, carrying the
    /// given validation entries.
    pub fn new(errors: ValidationErrors) -> (r: InvalidRequest)
        ensures
            r.details.type_@ == "invalid_request"@,
            r.details.status == 400,
            r.details.title@ == "The request is invalid"@,
            r.details.detail@ == "The request is either malformed or doesn't match the expected schema"@,
            (r.details.extensions matches Some(e) && e.errors@ == errors.errors@),
    {
        InvalidRequest {
            details: ProblemDetails {
                type_: String::from_str("invalid_request"),
                status: invalid_request_status(),
                title: String::from_str("The request is invalid"),
                detail: String::from_str(
                    "The request is either malformed or doesn't match the expected schema",
                ),
                extensions: Some(errors),
            },
        }
    }

    /// Unwraps the underlying problem-details report.
    pub fn into_inner(self) -> (r: ProblemDetails<ValidationErrors>)
        ensures
            r == self.details,
    {
        self.details
    }
}

/// The `Content-Type` rejections a request can earn before its body is
/// read.
pub enum ContentTypeRejection {
    /// No readable `Content-Type` header was given.
    Missing(MissingJsonContentType),
    /// The `Content-Type` header names a non-JSON media type.
    Mismatch(JsonContentTypeMismatch),
}

/// The type, subtype and suffix that parsing the given media-type text
/// yields; a function of the text alone.
pub uninterp spec fn mime_parts(s: Seq<char>) -> Option<(Seq<char>, Seq<char>, Option<Seq<char>>)>;

/// Relies on the mime crate's `Mime` parser: the essence of a valid
/// media type, split into type, subtype and optional suffix.
#[verifier::external_body]
fn parse_mime_parts(s: &str) -> (r: Option<(String, String, Option<String>)>)
    ensures
        match mime_parts(s@) {
            Some(parts) => (r matches Some(q) && q.0@ == parts.0 && q.1@ == parts.1 && (
            match parts.2 {
                Some(sf) => (q.2 matches Some(x) && x@ == sf),
                None => q.2 is None,
            })),
            None => r is None,
        },
{
    match s.parse::<mime::Mime>() {
        Ok(m) => Some(
            (
                m.type_().as_str().to_owned(),
                m.subtype().as_str().to_owned(),
                m.suffix().map(|n| n.as_str().to_owned()),
            ),
        ),
        Err(_) => None,
    }
}

/// Whether a parsed media type is JSON: type `application` and either
/// subtype `json` or a `+json` suffix.
pub open spec fn spec_is_json_media_type(
    parts: (Seq<char>, Seq<char>, Option<Seq<char>>),
) -> bool {
    parts.0 == "application"@ && (parts.1 == "json"@ || (parts.2 matches Some(sf) && sf
        == "json"@))
}

/// Checks that a `Content-Type` header value, when present, names
/// `application/json` or another `application/*+json` media type.
pub fn check_json_content_type(content_type: Option<&str>) -> (r: Result<
    (),
    ContentTypeRejection,
>)
    ensures
        match content_type {
            None => (r matches Err(ContentTypeRejection::Missing(_))),
            Some(s) => match mime_parts(s@) {
                None => (r matches Err(ContentTypeRejection::Mismatch(m)) && m.actual@ == s@),
                Some(parts) => if spec_is_json_media_type(parts) {
                    r is Ok
                } else {
                    (r matches Err(ContentTypeRejection::Mismatch(m)) && m.actual@ == s@)
                },
            },
        },
{
    let s = match content_type {
        None => {
            return Err(ContentTypeRejection::Missing(MissingJsonContentType {  }));
        },
        Some(s) => s,
    };
    let parts = match parse_mime_parts(s) {
        None => {
            return Err(
                ContentTypeRejection::Mismatch(JsonContentTypeMismatch { actual: s.to_owned() }),
            );
        },
        Some(p) => p,
    };
    let is_json = parts.0 == String::from_str("application") && (parts.1 == String::from_str(
        "json",
    ) || (match &parts.2 {
        Some(sf) => *sf == String::from_str("json"),
        None => false,
    }));
    if is_json {
        Ok(())
    } else {
        Err(ContentTypeRejection::Mismatch(JsonContentTypeMismatch { actual: s.to_owned() }))
    }
}

impl Json<Content> {
    /// Constructs a `Json` payload from body bytes, or the rejection
    /// holding every decode error.
    pub fn from_bytes(bytes: &[u8], schema: &Schema) -> (r: Result<Json<Content>, JsonError>)
        ensures
            match crate::json::parsed_bytes(bytes@) {
                Err(m) => (r matches Err(e) && e.errors@.len() == 1),
                Ok(v) => ({
                    let a = crate::model::acc(*schema, v, Seq::<Segment>::empty());
                    &&& (a.0.len() == 0 ==> (r matches Ok(j) && j.0 == v))
                    &&& (a.0.len() > 0 ==> (r matches Err(e) && e.errors@ == a.0))
                }),
            },
    {
        match from_slice(bytes, schema) {
            Ok(v) => Ok(Json(v)),
            Err(errors) => Err(JsonError::new(errors)),
        }
    }
}

} // verus!
