//! Shapes whose wire contract departs from their declaration: renamed
//! keys and tags, skipped positions, denied unknown keys.

use crate::schema::{FieldSchema, RecordSchema, Schema, VariantSchema};
use vstd::prelude::*;

verus! {

/// A struct carried with screaming-kebab-cased keys that rejects
/// unknown keys.
#[derive(Debug)]
pub struct StructDenyUnknownFields {
    /// Carried as `WRITE-ONLY`.
    pub write_only: bool,
    /// Carried as `DEFAULT`; absence falls back to the default.
    pub default: bool,
    /// Carried as `SKIP-SERIALIZING-IF`.
    pub skip_serializing_if: bool,
    /// Carried as `renamed`.
    pub renamed: bool,
    /// Carried as `OPTION`; may be null or absent.
    pub option: Option<bool>,
}

/// A struct that spreads an inner struct's keys into its own map; its
/// decode needs key flattening, which is out of the engine's scope.
#[derive(Debug)]
pub struct StructAllowUnknownFields {
    /// The spread inner struct.
    pub inner: StructDenyUnknownFields,
}

/// A tuple struct with one skipped position: three values travel on
/// the wire.
#[derive(Debug)]
pub struct TupleStruct(pub String, pub bool, pub String, pub String);

/// An externally tagged enum with renamed tags and pascal-cased
/// payload keys.
#[derive(Debug)]
pub enum ExternalEnum {
    /// Carried with the tag `WRITE-ONLY-STRUCT` and the field `I`.
    WriteOnlyStruct {
        /// An integer field, carried as `I`.
        i: isize,
    },
    /// Carried with the tag `renamed_unit`.
    RenamedUnit,
    /// Carried with the tag `renamed_struct` and the field `B`.
    RenamedStruct {
        /// A boolean field, carried as `B`.
        b: bool,
    },
}

/// An internally tagged enum; its decode is out of the engine's scope.
#[derive(Debug)]
pub enum InternalEnum {
    /// Carried with the tag `renamed_unit`.
    RenamedUnit,
    /// Carried with the tag `renamed_struct`.
    RenamedStruct {
        /// A boolean field.
        b: bool,
    },
}

/// An adjacently tagged enum; its decode is out of the engine's scope.
#[derive(Debug)]
pub enum AdjacentEnum {
    /// Carried with the tag `renamed_unit`.
    RenamedUnit,
    /// Carried with the tag `renamed_struct`.
    RenamedStruct {
        /// A boolean field.
        b: bool,
    },
}

impl StructDenyUnknownFields {
    /// The wire shape: renamed keys, a defaulting field, an optional
    /// field, unknown keys denied.
    pub fn schema() -> (r: Schema)
        ensures
            (r matches Schema::Record(rs) && rs.deny_unknown),
    {
        let mut fields: Vec<FieldSchema> = Vec::new();
        fields.push(FieldSchema::required("WRITE-ONLY", Schema::Bool));
        fields.push(FieldSchema::defaulted("DEFAULT", Schema::Bool));
        fields.push(FieldSchema::required("SKIP-SERIALIZING-IF", Schema::Bool));
        fields.push(FieldSchema::required("renamed", Schema::Bool));
        fields.push(FieldSchema::required("OPTION", Schema::optional(Schema::Bool)));
        Schema::Record(RecordSchema { fields, deny_unknown: true })
    }
}

impl TupleStruct {
    /// The wire shape: the three unskipped positions.
    pub fn schema() -> Schema {
        let mut elements: Vec<Schema> = Vec::new();
        elements.push(Schema::Text);
        elements.push(Schema::Text);
        elements.push(Schema::Text);
        Schema::Tuple(elements)
    }
}

impl ExternalEnum {
    /// The wire shape: renamed tags over pascal-cased payload keys.
    pub fn schema() -> Schema {
        let mut vars: Vec<VariantSchema> = Vec::new();
        let mut write_only_fields: Vec<FieldSchema> = Vec::new();
        write_only_fields.push(FieldSchema::required("I", Schema::SInt(crate::schema::IntWidth::W64)));
        vars.push(
            VariantSchema::record(
                "WRITE-ONLY-STRUCT",
                RecordSchema { fields: write_only_fields, deny_unknown: false },
            ),
        );
        vars.push(VariantSchema::unit("renamed_unit"));
        let mut renamed_fields: Vec<FieldSchema> = Vec::new();
        renamed_fields.push(FieldSchema::required("B", Schema::Bool));
        vars.push(
            VariantSchema::record(
                "renamed_struct",
                RecordSchema { fields: renamed_fields, deny_unknown: false },
            ),
        );
        Schema::Enumeration(vars)
    }
}

} // verus!
