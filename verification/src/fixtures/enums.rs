//! Enum shapes of every tagging style.  Only external tagging has a
//! schema: internally tagged, adjacently tagged and untagged inputs
//! lose precise path information once the decode buffers their
//! content, a documented limitation, so the engine does not model
//! them.

use crate::schema::{FieldSchema, IntWidth, RecordSchema, Schema, VariantSchema};
use vstd::prelude::*;

verus! {

/// A struct without fields, used as a newtype payload.
#[derive(Debug)]
pub struct UnitStruct;

/// A struct of two plain fields, used as a newtype payload.
#[derive(Debug)]
pub struct Struct {
    /// An integer field.
    pub foo: i32,
    /// A boolean field.
    pub bar: bool,
}

/// An externally tagged enum with unit, newtype, struct and tuple
/// variants, carried on the wire with camel-cased tags.
#[derive(Debug)]
pub enum External {
    /// A unit variant.
    UnitOne,
    /// A map payload.
    StringMap(Vec<(String, String)>),
    /// A unit-struct payload.
    UnitStructNewType(UnitStruct),
    /// A struct payload behind a newtype.
    StructNewType(Struct),
    /// Named payload fields.
    Struct {
        /// An integer field.
        foo: i32,
        /// A boolean field.
        bar: bool,
    },
    /// Positional payload values.
    Tuple(i32, bool),
    /// A second unit variant.
    UnitTwo,
}

/// An internally tagged enum; its decode is out of the engine's scope.
#[derive(Debug)]
pub enum Internal {
    /// A unit variant.
    UnitOne,
    /// A second unit variant.
    UnitTwo,
}

/// An adjacently tagged enum; its decode is out of the engine's scope.
#[derive(Debug)]
pub enum Adjacent {
    /// A unit variant.
    UnitOne,
    /// A second unit variant.
    UnitTwo,
}

/// An untagged enum; its decode is out of the engine's scope.
#[derive(Debug)]
pub enum Untagged {
    /// A unit variant.
    UnitOne,
    /// A second unit variant.
    UnitTwo,
}

/// A newtype around an untagged enum, decoded by the ordinary single
/// pass.
#[derive(Debug)]
pub struct UntaggedWrapper(pub Untagged);

/// An enum whose variants and fields are renamed on the wire.
#[derive(Debug)]
pub enum Renamed {
    /// Carried with the tag `struct_variant` and the field `FIELD`.
    StructVariant {
        /// A string field, carried as `FIELD`.
        field: String,
    },
    /// Carried with the tag `custom name variant` and the field
    /// `custom name field`.
    RenamedStructVariant {
        /// A string field, carried as `custom name field`.
        field: String,
    },
}

/// The record payload shared by the struct-shaped variants.
fn foo_bar_fields() -> RecordSchema {
    let mut fields: Vec<FieldSchema> = Vec::new();
    fields.push(FieldSchema::required("foo", Schema::SInt(IntWidth::W32)));
    fields.push(FieldSchema::required("bar", Schema::Bool));
    RecordSchema { fields, deny_unknown: false }
}

impl Struct {
    /// The wire shape: a map with `foo` and `bar`.
    pub fn schema() -> Schema {
        Schema::Record(foo_bar_fields())
    }
}

impl External {
    /// The wire shape: an externally tagged choice over camel-cased
    /// tags.
    pub fn schema() -> Schema {
        let mut vars: Vec<VariantSchema> = Vec::new();
        vars.push(VariantSchema::unit("unitOne"));
        vars.push(VariantSchema::newtype("stringMap", Schema::mapping(Schema::Text)));
        vars.push(VariantSchema::newtype("unitStructNewType", Schema::Null));
        vars.push(VariantSchema::newtype("structNewType", Struct::schema()));
        vars.push(VariantSchema::record("struct", foo_bar_fields()));
        let mut tuple_elements: Vec<Schema> = Vec::new();
        tuple_elements.push(Schema::SInt(IntWidth::W32));
        tuple_elements.push(Schema::Bool);
        vars.push(VariantSchema::tuple("tuple", tuple_elements));
        vars.push(VariantSchema::unit("unitTwo"));
        Schema::Enumeration(vars)
    }
}

impl Renamed {
    /// The wire shape: snake-cased and custom tags over renamed fields.
    pub fn schema() -> Schema {
        let mut vars: Vec<VariantSchema> = Vec::new();
        let mut fields1: Vec<FieldSchema> = Vec::new();
        fields1.push(FieldSchema::required("FIELD", Schema::Text));
        vars.push(
            VariantSchema::record(
                "struct_variant",
                RecordSchema { fields: fields1, deny_unknown: false },
            ),
        );
        let mut fields2: Vec<FieldSchema> = Vec::new();
        fields2.push(FieldSchema::required("custom name field", Schema::Text));
        vars.push(
            VariantSchema::record(
                "custom name variant",
                RecordSchema { fields: fields2, deny_unknown: false },
            ),
        );
        Schema::Enumeration(vars)
    }
}

} // verus!
