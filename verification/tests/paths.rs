//! Path correctness of the accumulating decode, on concrete documents.

use eserde::json::from_str;
use eserde::schema::{FieldSchema, RecordSchema, Schema, VariantSchema};

fn record(fields: Vec<FieldSchema>) -> Schema {
    Schema::Record(RecordSchema {
        fields,
        deny_unknown: false,
    })
}

fn deny_record(fields: Vec<FieldSchema>) -> Schema {
    Schema::Record(RecordSchema {
        fields,
        deny_unknown: true,
    })
}

/// Decodes `json` against `schema`, expects exactly one error, and
/// checks its rendered path.
fn test(json: &str, schema: &Schema, expected: &str) {
    let errors = from_str(json, schema).unwrap_err();
    assert_eq!(errors.len(), 1);
    let error = errors.get(0);
    let path = error.path().expect("No path on error");
    assert_eq!(path.to_display_string(), expected);
}

/// Decodes `json` against `schema` and checks every rendered error
/// path, in order.
fn test_many(json: &str, schema: &Schema, expected: &[&str]) {
    let errors = from_str(json, schema).unwrap_err();
    assert_eq!(errors.len(), expected.len());
    let mut i = 0;
    while i < expected.len() {
        let path = errors.get(i).path().expect("No path on error");
        assert_eq!(path.to_display_string(), expected[i]);
        i += 1;
    }
}

fn dependency_schema() -> Schema {
    record(vec![FieldSchema::required("version", Schema::Text)])
}

#[test]
fn test_struct() {
    let package = record(vec![
        FieldSchema::required("name", Schema::Text),
        FieldSchema::required("dependencies", Schema::mapping(dependency_schema())),
    ]);

    let j = r#"{
        "name": "demo",
        "dependencies": {
            "serde": {
                "version": 1
            }
        }
    }"#;

    test(j, &package, "dependencies.serde.version");
}

#[test]
fn test_vec() {
    let dependency = record(vec![
        FieldSchema::required("name", Schema::Text),
        FieldSchema::required("version", Schema::Text),
    ]);
    let package = record(vec![FieldSchema::required(
        "dependencies",
        Schema::sequence(dependency),
    )]);

    let j = r#"{
        "dependencies": [
            {
                "name": "serde",
                "version": "1.0"
            },
            {
                "name": "serde_json",
                "version": 1
            }
        ]
    }"#;

    test(j, &package, "dependencies[1].version");
}

#[test]
fn test_option() {
    let package = record(vec![FieldSchema::required(
        "dependency",
        Schema::optional(dependency_schema()),
    )]);

    let j = r#"{
        "dependency": {
            "version": 1
        }
    }"#;

    test(j, &package, "dependency.version");
}

#[test]
fn test_struct_variant() {
    let dependency = Schema::Enumeration(vec![VariantSchema::record(
        "Struct",
        RecordSchema {
            fields: vec![FieldSchema::required("version", Schema::Text)],
            deny_unknown: false,
        },
    )]);
    let package = record(vec![FieldSchema::required("dependency", dependency)]);

    let j = r#"{
        "dependency": {
            "Struct": {
                "version": 1
            }
        }
    }"#;

    test(j, &package, "dependency.Struct.version");
}

#[test]
fn test_tuple_variant() {
    let dependency = Schema::Enumeration(vec![VariantSchema::tuple(
        "Tuple",
        vec![Schema::Text, Schema::Text],
    )]);
    let package = record(vec![FieldSchema::required("dependency", dependency)]);

    let j = r#"{
        "dependency": {
            "Tuple": ["serde", 1]
        }
    }"#;

    test(j, &package, "dependency.Tuple[1]");
}

#[test]
fn test_multiple_tuple_variant() {
    let dependency = || {
        Schema::Enumeration(vec![
            VariantSchema::tuple("Tuple", vec![Schema::Text, Schema::Text]),
            VariantSchema::newtype("Single", Schema::Text),
        ])
    };
    let package = record(vec![
        FieldSchema::required("dependency", dependency()),
        FieldSchema::required("another_dependency", dependency()),
    ]);

    let j = r#"{
        "dependency": {
            "Tuple": ["serde", 1]
        },
        "another_dependency": {
            "Single": 2
        }
    }"#;

    test_many(
        j,
        &package,
        &["dependency.Tuple[1]", "another_dependency.Single"],
    );
}

#[test]
fn test_unknown_field() {
    let dependency = deny_record(vec![FieldSchema::required("version", Schema::Text)]);
    let package = record(vec![FieldSchema::required("dependency", dependency)]);

    let j = r#"{
        "dependency": {
            "version": "1.0",
            "name": "serde"
        }
    }"#;

    test_many(j, &package, &["dependency.name", "dependency"]);
}

#[test]
fn test_invalid_length() {
    let dependency = Schema::Tuple(vec![Schema::Text, Schema::Text]);
    let package = record(vec![FieldSchema::required("dependency", dependency)]);

    let j = r#"{
        "dependency": ["serde"]
    }"#;

    test(j, &package, "dependency");
}

#[test]
fn test_map_nonstring_key() {
    let schema = Schema::mapping(dependency_schema());

    let j = r#"{
        "100": {
            "version": false
        }
    }"#;

    test(j, &schema, "100.version");
}
