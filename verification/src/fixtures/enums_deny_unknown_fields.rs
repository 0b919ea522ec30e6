//! Enum shapes whose record payloads reject unknown keys.

use crate::schema::{FieldSchema, RecordSchema, Schema, VariantSchema};
use vstd::prelude::*;

verus! {

/// A struct of two plain fields, used as a newtype payload.
#[derive(Debug)]
pub struct Struct {
    /// An integer field.
    pub foo: i32,
    /// A boolean field.
    pub bar: bool,
}

/// A struct that rejects unknown keys, used as a newtype payload.
#[derive(Debug)]
pub struct StructDenyUnknownFields {
    /// An integer field.
    pub baz: i32,
    /// A boolean field.
    pub foobar: bool,
}

/// An externally tagged enum over the two structs.
#[derive(Debug)]
pub enum External {
    /// A unit variant.
    Unit,
    /// A map payload.
    StringMap(Vec<(String, String)>),
    /// A plain struct payload.
    StructNewType(Struct),
    /// A payload that rejects unknown keys.
    StructDenyUnknownFieldsNewType(StructDenyUnknownFields),
    /// Named payload fields.
    Struct {
        /// An integer field.
        foo: i32,
        /// A boolean field.
        bar: bool,
    },
}

/// An internally tagged enum; its decode is out of the engine's scope.
#[derive(Debug)]
pub enum Internal {
    /// A unit variant.
    Unit,
    /// A plain struct payload.
    StructNewType(Struct),
}

/// An adjacently tagged enum; its decode is out of the engine's scope.
#[derive(Debug)]
pub enum Adjacent {
    /// A unit variant.
    Unit,
    /// A plain struct payload.
    StructNewType(Struct),
}

impl Struct {
    /// The wire shape: a map with `foo` and `bar`.
    pub fn schema() -> Schema {
        let mut fields: Vec<FieldSchema> = Vec::new();
        fields.push(FieldSchema::required("foo", Schema::SInt(crate::schema::IntWidth::W32)));
        fields.push(FieldSchema::required("bar", Schema::Bool));
        Schema::Record(RecordSchema { fields, deny_unknown: false })
    }
}

impl StructDenyUnknownFields {
    /// The wire shape: `baz` and `foobar`, unknown keys denied.
    pub fn schema() -> (r: Schema)
        ensures
            (r matches Schema::Record(rs) && rs.deny_unknown),
    {
        let mut fields: Vec<FieldSchema> = Vec::new();
        fields.push(FieldSchema::required("baz", Schema::SInt(crate::schema::IntWidth::W32)));
        fields.push(FieldSchema::required("foobar", Schema::Bool));
        Schema::Record(RecordSchema { fields, deny_unknown: true })
    }
}

impl External {
    /// The wire shape: an externally tagged choice over the payloads.
    pub fn schema() -> Schema {
        let mut vars: Vec<VariantSchema> = Vec::new();
        vars.push(VariantSchema::unit("Unit"));
        vars.push(VariantSchema::newtype("StringMap", Schema::mapping(Schema::Text)));
        vars.push(VariantSchema::newtype("StructNewType", Struct::schema()));
        vars.push(
            VariantSchema::newtype(
                "StructDenyUnknownFieldsNewType",
                StructDenyUnknownFields::schema(),
            ),
        );
        let mut fields: Vec<FieldSchema> = Vec::new();
        fields.push(FieldSchema::required("foo", Schema::SInt(crate::schema::IntWidth::W32)));
        fields.push(FieldSchema::required("bar", Schema::Bool));
        vars.push(VariantSchema::record("Struct", RecordSchema { fields, deny_unknown: false }));
        Schema::Enumeration(vars)
    }
}

} // verus!
