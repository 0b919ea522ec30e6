//! Behavior of the two-pass decode on concrete documents: happy path,
//! completeness, discovery order, count mismatches, session isolation.

use eserde::content::Content;
use eserde::json::from_str;
use eserde::schema::{FieldSchema, IntWidth, RecordSchema, Schema};

fn record(fields: Vec<FieldSchema>) -> Schema {
    Schema::Record(RecordSchema {
        fields,
        deny_unknown: false,
    })
}

#[test]
fn happy_path_returns_value() {
    let schema = record(vec![
        FieldSchema::required("name", Schema::Text),
        FieldSchema::required("count", Schema::UInt(IntWidth::W32)),
    ]);
    let value = from_str(r#"{"name": "demo", "count": 3}"#, &schema).unwrap();
    match value {
        Content::Object(entries) => {
            assert_eq!(entries.len(), 2);
            assert_eq!(entries[0].0, "name");
            assert!(matches!(&entries[0].1, Content::Text(s) if s == "demo"));
            assert_eq!(entries[1].0, "count");
            assert!(matches!(entries[1].1, Content::UInt(3)));
        }
        _ => panic!("expected an object"),
    }
}

#[test]
fn completeness_one_error_per_invalid_field() {
    let schema = record(vec![
        FieldSchema::required("a", Schema::UInt(IntWidth::W64)),
        FieldSchema::required("b", Schema::Bool),
        FieldSchema::required("c", Schema::Text),
    ]);
    let errors = from_str(r#"{"a": "x", "b": 1, "c": false}"#, &schema).unwrap_err();
    assert_eq!(errors.len(), 3);
    assert_eq!(errors.get(0).path().unwrap().to_display_string(), "a");
    assert_eq!(errors.get(1).path().unwrap().to_display_string(), "b");
    assert_eq!(errors.get(2).path().unwrap().to_display_string(), "c");
    assert_eq!(
        errors.get(0).message(),
        "invalid type: string \"x\", expected u64"
    );
    assert_eq!(
        errors.get(1).message(),
        "invalid type: integer `1`, expected a boolean"
    );
    assert_eq!(
        errors.get(2).message(),
        "invalid type: boolean `false`, expected a string"
    );
}

#[test]
fn missing_and_invalid_in_discovery_order() {
    let inner = record(vec![FieldSchema::required(
        "a2",
        Schema::UInt(IntWidth::W32),
    )]);
    let schema = record(vec![
        FieldSchema::required("a", inner),
        FieldSchema::required("b", Schema::UInt(IntWidth::W64)),
        FieldSchema::required("c", Schema::Text),
    ]);
    let errors = from_str(r#"{"a":{"a2":-5},"c":8}"#, &schema).unwrap_err();
    assert_eq!(errors.len(), 3);
    assert_eq!(errors.get(0).path().unwrap().to_display_string(), "a.a2");
    assert_eq!(
        errors.get(0).message(),
        "invalid value: integer `-5`, expected u32"
    );
    assert_eq!(errors.get(1).path().unwrap().to_display_string(), "c");
    assert_eq!(
        errors.get(1).message(),
        "invalid type: integer `8`, expected a string"
    );
    assert_eq!(errors.get(2).path().unwrap().to_display_string(), ".");
    assert!(errors.get(2).path().unwrap().is_empty());
    assert_eq!(errors.get(2).message(), "missing field `b`");
}

#[test]
fn count_mismatch_reported_alongside_element_errors() {
    let schema = Schema::FixedArray(Box::new(Schema::UInt(IntWidth::W64)), 3);

    // All elements fine: only the count mismatch.
    let errors = from_str(r#"[1, 2, 3, 4]"#, &schema).unwrap_err();
    assert_eq!(errors.len(), 1);
    assert_eq!(
        errors.get(0).message(),
        "expected sequence of 3 elements, found 4 elements"
    );

    // One element bad: its error comes first, the count mismatch after.
    let errors = from_str(r#"[1, true, 3, 4]"#, &schema).unwrap_err();
    assert_eq!(errors.len(), 2);
    assert_eq!(errors.get(0).path().unwrap().to_display_string(), "[1]");
    assert_eq!(
        errors.get(1).message(),
        "expected sequence of 3 elements, found 4 elements"
    );
}

#[test]
fn idempotent_session() {
    let schema = record(vec![
        FieldSchema::required("a", Schema::UInt(IntWidth::W64)),
        FieldSchema::required("b", Schema::Bool),
    ]);
    let json = r#"{"a": "x"}"#;
    let first = from_str(json, &schema).unwrap_err();
    let second = from_str(json, &schema).unwrap_err();
    assert_eq!(first.len(), second.len());
    let mut i = 0;
    while i < first.len() {
        assert_eq!(first.get(i).message(), second.get(i).message());
        assert_eq!(
            first.get(i).path().unwrap().to_display_string(),
            second.get(i).path().unwrap().to_display_string()
        );
        i += 1;
    }
    // A clean decode right after an erroring one sees no leftover state.
    let ok = from_str(r#"{"a": 1, "b": true}"#, &schema);
    assert!(ok.is_ok());
}

#[test]
fn syntax_error_yields_single_pathless_error() {
    let schema = record(vec![FieldSchema::required("a", Schema::Text)]);
    let errors = from_str(r#"{"a": }"#, &schema).unwrap_err();
    assert_eq!(errors.len(), 1);
    assert!(errors.get(0).path().is_none());
}

#[test]
fn defaulted_and_optional_fields_may_be_absent() {
    let schema = record(vec![
        FieldSchema::defaulted("route", Schema::Text),
        FieldSchema::required("opt", Schema::optional(Schema::Bool)),
        FieldSchema::required("name", Schema::Text),
    ]);
    let value = from_str(r#"{"name": "demo"}"#, &schema);
    assert!(value.is_ok());
}

#[test]
fn compat_field_reports_single_deep_error() {
    let inner = record(vec![
        FieldSchema::required("x", Schema::UInt(IntWidth::W32)),
        FieldSchema::required("y", Schema::UInt(IntWidth::W32)),
    ]);
    let schema = record(vec![FieldSchema::compat("d", inner)]);
    // Both nested fields are bad, but a compat field surfaces only the
    // first problem, at its deep path.
    let errors = from_str(r#"{"d": {"x": true, "y": false}}"#, &schema).unwrap_err();
    assert_eq!(errors.len(), 1);
    assert_eq!(errors.get(0).path().unwrap().to_display_string(), "d.x");
}

#[test]
fn unsigned_range_errors() {
    let schema = record(vec![FieldSchema::required(
        "n",
        Schema::UInt(IntWidth::W8),
    )]);
    let errors = from_str(r#"{"n": 256}"#, &schema).unwrap_err();
    assert_eq!(errors.len(), 1);
    assert_eq!(
        errors.get(0).message(),
        "invalid value: integer `256`, expected u8"
    );
    assert!(from_str(r#"{"n": 255}"#, &schema).is_ok());
}

#[test]
fn signed_range_errors() {
    let schema = record(vec![FieldSchema::required(
        "n",
        Schema::SInt(IntWidth::W16),
    )]);
    let errors = from_str(r#"{"n": -32769}"#, &schema).unwrap_err();
    assert_eq!(errors.len(), 1);
    assert_eq!(
        errors.get(0).message(),
        "invalid value: integer `-32769`, expected i16"
    );
    assert!(from_str(r#"{"n": -32768}"#, &schema).is_ok());
}

#[test]
fn floating_point_rejected_for_integers() {
    let schema = Schema::mapping(Schema::UInt(IntWidth::W64));
    let errors = from_str(r#"{"a": true, "b": 5.5, "c": -5}"#, &schema).unwrap_err();
    assert_eq!(errors.len(), 3);
    assert_eq!(
        errors.get(0).message(),
        "invalid type: boolean `true`, expected u64"
    );
    assert_eq!(
        errors.get(1).message(),
        "invalid type: floating point `5.5`, expected u64"
    );
    assert_eq!(
        errors.get(2).message(),
        "invalid value: integer `-5`, expected u64"
    );
}

#[test]
fn unknown_variant_is_reported() {
    let schema = Schema::Enumeration(vec![
        eserde::schema::VariantSchema::unit("A"),
        eserde::schema::VariantSchema::unit("B"),
    ]);
    let errors = from_str(r#""C""#, &schema).unwrap_err();
    assert_eq!(errors.len(), 1);
    assert_eq!(errors.get(0).message(), "unknown variant `C`");
    assert_eq!(errors.get(0).path().unwrap().to_display_string(), "C");
    assert!(from_str(r#""B""#, &schema).is_ok());
}

#[test]
fn report_renders_as_bulleted_list() {
    let schema = record(vec![
        FieldSchema::required("a", Schema::Bool),
        FieldSchema::required("b", Schema::Text),
    ]);
    let errors = from_str(r#"{"a": 1, "b": 2}"#, &schema).unwrap_err();
    assert!(!errors.is_empty());
    let mut it = errors.iter();
    assert_eq!(it.next().unwrap().path().unwrap().to_display_string(), "a");
    assert_eq!(it.next().unwrap().path().unwrap().to_display_string(), "b");
    assert!(it.next().is_none());
    assert_eq!(
        errors.to_display_string(),
        "Something went wrong during deserialization:\n\
         - a: invalid type: integer `1`, expected a boolean\n\
         - b: invalid type: integer `2`, expected a string\n"
    );
}
