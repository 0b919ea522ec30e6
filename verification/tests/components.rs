//! Component behavior: path tracking, stashing, reporting, rendering,
//! rejections, fixtures and the test helper.

use eserde::content::Content;
use eserde::errors::DeserializationError;
use eserde::helper::TestHelper;
use eserde::json::from_str;
use eserde::path::{Path, Segment};
use eserde::rejections::{
    check_json_content_type, ContentTypeRejection, Json, JsonError, Source,
};
use eserde::reporter::ErrorReporter;
use eserde::schema::{FieldSchema, IntWidth, RecordSchema, Schema};
use eserde::tracker::PathTracker;

fn seg_key(key: &str) -> Segment {
    Segment::MapKey {
        key: key.to_owned(),
    }
}

#[test]
fn tracker_push_pop_discipline() {
    let mut t = PathTracker::new();
    assert!(t.current_path().is_none());
    t.init();
    let p = t.current_path().unwrap();
    assert!(p.is_empty());
    t.push(seg_key("a"));
    t.push(Segment::SeqIndex { index: 3 });
    let p = t.current_path().unwrap();
    assert_eq!(p.to_display_string(), "a[3]");
    t.pop();
    let p = t.current_path().unwrap();
    assert_eq!(p.to_display_string(), "a");
    t.try_unset();
    assert!(t.current_path().is_none());
}

#[test]
fn stash_prefers_deepest_path() {
    let mut t = PathTracker::new();
    t.init();
    t.push(seg_key("a"));
    t.push(seg_key("b"));
    // The error surfaces deep down; the deep path is stashed.
    t.stash_current_path_for_error();
    t.pop();
    // Unwinding stashes again from a shallower position: the deeper
    // path must be retained, never its prefix.
    t.stash_current_path_for_error();
    t.pop();
    t.stash_current_path_for_error();
    let stashed = t.unstash_current_path_for_error().unwrap();
    assert_eq!(stashed.to_display_string(), "a.b");
    // The stash is drained now.
    assert!(t.unstash_current_path_for_error().is_none());
}

#[test]
fn stash_replaces_sibling_path() {
    let mut t = PathTracker::new();
    t.init();
    t.push(seg_key("a"));
    t.stash_current_path_for_error();
    t.pop();
    t.push(seg_key("z"));
    // A path that is not a prefix relation replaces the stash.
    t.stash_current_path_for_error();
    let stashed = t.unstash_current_path_for_error().unwrap();
    assert_eq!(stashed.to_display_string(), "z");
}

#[test]
fn reporter_session_lifecycle() {
    let mut rep = ErrorReporter::new();
    let guard = rep.start_deserialization();
    assert_eq!(rep.n_errors(), 0);
    rep.report(DeserializationError::new(
        None,
        "first problem".to_owned(),
    ));
    rep.report(DeserializationError::new(
        Some(Path::from_segments(vec![seg_key("x")])),
        "second problem".to_owned(),
    ));
    assert_eq!(rep.n_errors(), 2);
    let errors = rep.take_errors();
    assert_eq!(errors.len(), 2);
    assert_eq!(errors[0].message(), "first problem");
    assert!(errors[0].path().is_none());
    assert_eq!(errors[1].path().unwrap().to_display_string(), "x");
    // Draining resets the buffer; the session stays open.
    assert_eq!(rep.n_errors(), 0);
    rep.finish_deserialization(guard);
}

#[test]
fn path_display_forms() {
    let empty = Path::empty();
    assert_eq!(empty.to_display_string(), ".");
    let p = Path::from_segments(vec![
        seg_key("dependencies"),
        Segment::SeqIndex { index: 0 },
        seg_key("version"),
    ]);
    assert_eq!(p.to_display_string(), "dependencies[0].version");
    let q = Path::from_segments(vec![
        Segment::SeqIndex { index: 1 },
        Segment::EnumVariant {
            variant: "Struct".to_owned(),
        },
    ]);
    assert_eq!(q.to_display_string(), "[1].Struct");
    assert_eq!(q.len(), 2);

    let mut it = q.iter();
    assert_eq!(it.len(), 2);
    assert!(matches!(it.next(), Some(Segment::SeqIndex { index: 1 })));
    assert!(matches!(it.next(), Some(Segment::EnumVariant { .. })));
    assert!(it.next().is_none());
}

#[test]
fn error_display_forms() {
    let with_path = DeserializationError::new(
        Some(Path::from_segments(vec![seg_key("a"), seg_key("b")])),
        "went wrong".to_owned(),
    );
    assert_eq!(with_path.to_display_string(), "a.b: went wrong");
    let rootless = DeserializationError::new(None, "went wrong".to_owned());
    assert_eq!(rootless.to_display_string(), "went wrong");
    let empty_path = DeserializationError::new(Some(Path::empty()), "went wrong".to_owned());
    assert_eq!(empty_path.to_display_string(), "went wrong");
}

#[test]
fn content_type_checking() {
    assert!(check_json_content_type(Some("application/json")).is_ok());
    assert!(check_json_content_type(Some("application/json; charset=utf-8")).is_ok());
    assert!(check_json_content_type(Some("application/problem+json")).is_ok());
    match check_json_content_type(Some("text/html")) {
        Err(ContentTypeRejection::Mismatch(m)) => assert_eq!(m.actual, "text/html"),
        _ => panic!("expected a mismatch"),
    }
    match check_json_content_type(None) {
        Err(ContentTypeRejection::Missing(_)) => {}
        _ => panic!("expected a missing content type"),
    }
}

#[test]
fn rejection_pointers() {
    let schema = Schema::Record(RecordSchema {
        fields: vec![FieldSchema::required(
            "items",
            Schema::sequence(Schema::UInt(IntWidth::W8)),
        )],
        deny_unknown: false,
    });
    let json = Json::<Content>::from_bytes(br#"{"items": [0, "x"]}"#, &schema);
    let rejection = match json {
        Err(e) => e,
        Ok(_) => panic!("expected a rejection"),
    };
    let validation = rejection.to_validation_errors();
    assert_eq!(validation.errors.len(), 1);
    match &validation.errors[0].source {
        Source::Body { pointer } => {
            assert_eq!(pointer.as_deref(), Some("/items/[1]"));
        }
        _ => panic!("expected a body source"),
    }
}

#[test]
fn invalid_request_report() {
    let errors = JsonError::new(
        from_str(
            r#"{"a": 1}"#,
            &Schema::Record(RecordSchema {
                fields: vec![FieldSchema::required("a", Schema::Text)],
                deny_unknown: false,
            }),
        )
        .unwrap_err(),
    );
    let report = eserde::rejections::InvalidRequest::new(errors.to_validation_errors());
    let details = report.into_inner();
    assert_eq!(details.type_, "invalid_request");
    assert_eq!(details.status, 400);
    assert_eq!(details.title, "The request is invalid");
    assert_eq!(details.extensions.unwrap().errors.len(), 1);
}

#[test]
fn fixture_schemas_decode() {
    assert!(from_str(
        r#"{"foo": "hi", "bar": true}"#,
        &eserde::fixtures::structs::NormalStruct::schema()
    )
    .is_ok());
    assert!(from_str(
        r#"{"camelCase": -3, "new_name": 7}"#,
        &eserde::fixtures::structs::RenamedFields::schema()
    )
    .is_ok());
    let errors = from_str(
        r#"{"foo": "hi", "bar": true, "baz": 0}"#,
        &eserde::fixtures::structs::DenyUnknownFields::schema(),
    )
    .unwrap_err();
    assert_eq!(errors.get(0).path().unwrap().to_display_string(), "baz");

    assert!(from_str(r#""unitOne""#, &eserde::fixtures::enums::External::schema()).is_ok());
    assert!(from_str(
        r#"{"struct": {"foo": 1, "bar": false}}"#,
        &eserde::fixtures::enums::External::schema()
    )
    .is_ok());
    assert!(from_str(
        r#"{"custom name variant": {"custom name field": "v"}}"#,
        &eserde::fixtures::enums::Renamed::schema()
    )
    .is_ok());

    assert!(from_str(
        r#"{"b": 3, "c": [[null, 1, 2]]}"#,
        &eserde::fixtures::extra::NamedStruct::schema()
    )
    .is_ok());
    let errors = from_str(
        r#"{"TupleMultiple": [1, true]}"#,
        &eserde::fixtures::extra::EnumWithBothNamedAndTupleVariants::schema(),
    )
    .unwrap_err();
    assert_eq!(
        errors.get(0).path().unwrap().to_display_string(),
        "TupleMultiple[1]"
    );
}

#[test]
fn deny_payload_inside_enum() {
    let schema = eserde::fixtures::enums_deny_unknown_fields::External::schema();
    // An unknown key inside the denied payload is reported at its own
    // path; with no enclosing field to catch the aborted decode, no
    // second report is added.
    let errors = from_str(
        r#"{"StructDenyUnknownFieldsNewType": {"baz": 1, "foobar": true, "nope": 0}}"#,
        &schema,
    )
    .unwrap_err();
    assert_eq!(errors.len(), 1);
    assert_eq!(
        errors.get(0).path().unwrap().to_display_string(),
        "StructDenyUnknownFieldsNewType.nope"
    );
    assert!(from_str(r#"{"B": true}"#, &eserde::fixtures::enums_flattened::Enum1::schema()).is_ok());
}

#[test]
fn helper_round_trip() {
    let helper: TestHelper<Content> = TestHelper::new_serialized(
        "group/case".to_owned(),
        "tests".to_owned(),
        r#"{"n": 1}"#.to_owned(),
    );
    assert_eq!(helper.name(), "group/case");
    assert_eq!(helper.test_dir(), "tests");
    let schema = Schema::Record(RecordSchema {
        fields: vec![FieldSchema::required("n", Schema::UInt(IntWidth::W8))],
        deny_unknown: false,
    });
    assert!(helper.from_json(&schema).is_ok());
    assert_eq!(
        TestHelper::<Content>::cache_file_path("tests", "group/case", "json"),
        "tests/serialized/group__case.json"
    );
}
