//! Plain struct shapes.

use crate::schema::{FieldSchema, IntWidth, RecordSchema, Schema};
use vstd::prelude::*;

verus! {

/// A struct without fields; decoded from null.
#[derive(Debug)]
pub struct UnitStruct;

/// A struct of two plain fields.
#[derive(Debug)]
pub struct NormalStruct {
    /// A string field.
    pub foo: String,
    /// A boolean field.
    pub bar: bool,
}

/// A struct wrapping one unnamed value; decoded as the value itself.
#[derive(Debug)]
pub struct NewType(pub String);

/// A struct of two unnamed values; decoded from a two-element sequence.
#[derive(Debug)]
pub struct TupleStruct(pub String, pub bool);

/// A struct whose wire keys differ from its field names.
#[derive(Debug)]
pub struct RenamedFields {
    /// Carried on the wire as `camelCase`.
    pub camel_case: i32,
    /// Carried on the wire as `new_name`.
    pub old_name: i32,
}

/// A struct that rejects keys matching no field.
#[derive(Debug)]
pub struct DenyUnknownFields {
    /// A string field.
    pub foo: String,
    /// A boolean field.
    pub bar: bool,
}

impl UnitStruct {
    /// The wire shape of a unit struct.
    pub fn schema() -> Schema {
        Schema::Null
    }
}

impl NormalStruct {
    /// The wire shape: a map with `foo` and `bar`.
    pub fn schema() -> Schema {
        let mut fields: Vec<FieldSchema> = Vec::new();
        fields.push(FieldSchema::required("foo", Schema::Text));
        fields.push(FieldSchema::required("bar", Schema::Bool));
        Schema::Record(RecordSchema { fields, deny_unknown: false })
    }
}

impl NewType {
    /// The wire shape: the inner string itself.
    pub fn schema() -> Schema {
        Schema::Text
    }
}

impl TupleStruct {
    /// The wire shape: a two-element sequence.
    pub fn schema() -> Schema {
        let mut elements: Vec<Schema> = Vec::new();
        elements.push(Schema::Text);
        elements.push(Schema::Bool);
        Schema::Tuple(elements)
    }
}

impl RenamedFields {
    /// The wire shape: a map keyed by the renamed keys.
    pub fn schema() -> Schema {
        let mut fields: Vec<FieldSchema> = Vec::new();
        fields.push(FieldSchema::required("camelCase", Schema::SInt(IntWidth::W32)));
        fields.push(FieldSchema::required("new_name", Schema::SInt(IntWidth::W32)));
        Schema::Record(RecordSchema { fields, deny_unknown: false })
    }
}

impl DenyUnknownFields {
    /// The wire shape: as [`NormalStruct`], with unknown keys denied.
    pub fn schema() -> (r: Schema)
        ensures
            (r matches Schema::Record(rs) && rs.deny_unknown),
    {
        let mut fields: Vec<FieldSchema> = Vec::new();
        fields.push(FieldSchema::required("foo", Schema::Text));
        fields.push(FieldSchema::required("bar", Schema::Bool));
        Schema::Record(RecordSchema { fields, deny_unknown: true })
    }
}

} // verus!
