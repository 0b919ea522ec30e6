//! Description of the shape a decoded value must have.
//!
//! A [`Schema`] plays the role that a derived implementation plays in a
//! reflection-based deserializer: it fixes, once per composite type, the
//! expected fields, their handling strategy, and the nesting of
//! containers.  Both decode passes interpret the same schema.

use vstd::prelude::*;

verus! {

/// Width of an integer field.
#[derive(Debug)]
pub enum IntWidth {
    /// 8 bits.
    W8,
    /// 16 bits.
    W16,
    /// 32 bits.
    W32,
    /// 64 bits.
    W64,
}

/// The largest value an unsigned integer of the width admits.
pub open spec fn spec_umax(w: IntWidth) -> int {
    match w {
        IntWidth::W8 => 0xff,
        IntWidth::W16 => 0xffff,
        IntWidth::W32 => 0xffff_ffff,
        IntWidth::W64 => 0xffff_ffff_ffff_ffff,
    }
}

/// The largest value a signed integer of the width admits.
pub open spec fn spec_imax(w: IntWidth) -> int {
    match w {
        IntWidth::W8 => 0x7f,
        IntWidth::W16 => 0x7fff,
        IntWidth::W32 => 0x7fff_ffff,
        IntWidth::W64 => 0x7fff_ffff_ffff_ffff,
    }
}

/// The smallest value a signed integer of the width admits.
pub open spec fn spec_imin(w: IntWidth) -> int {
    match w {
        IntWidth::W8 => -0x80,
        IntWidth::W16 => -0x8000,
        IntWidth::W32 => -0x8000_0000,
        IntWidth::W64 => -0x8000_0000_0000_0000,
    }
}

/// The expected shape of a value.
#[derive(Debug)]
pub enum Schema {
    /// A boolean.
    Bool,
    /// An unsigned integer of the given width.
    UInt(IntWidth),
    /// A signed integer of the given width.
    SInt(IntWidth),
    /// A string.
    Text,
    /// An explicit null (the unit type).
    Null,
    /// An optional value: null or the inner shape.
    Optional(Box<Schema>),
    /// A sequence of arbitrary length.
    Sequence(Box<Schema>),
    /// A sequence of exactly the given length.
    FixedArray(Box<Schema>, usize),
    /// A fixed run of positionally typed elements, as in a tuple struct.
    Tuple(Vec<Schema>),
    /// A map with string keys and uniform values.
    Mapping(Box<Schema>),
    /// A struct with named fields.
    Record(RecordSchema),
    /// An externally tagged enum.
    Enumeration(Vec<VariantSchema>),
}

/// The named fields of a struct shape.
#[derive(Debug)]
pub struct RecordSchema {
    /// The fields, in declaration order.
    pub fields: Vec<FieldSchema>,
    /// Whether a key matching no field is an error.
    pub deny_unknown: bool,
}

/// One named field of a struct shape.
#[derive(Debug)]
pub struct FieldSchema {
    /// The field's key in the input.
    pub name: String,
    /// The shape of the field's value.
    pub schema: Schema,
    /// Whether a missing entry falls back to a default instead of being
    /// an error.
    pub default: bool,
    /// Whether the field falls back to ordinary single-pass decoding,
    /// contributing at most one error.
    pub compat: bool,
}

/// One variant of an externally tagged enum shape.
#[derive(Debug)]
pub struct VariantSchema {
    /// The variant's tag.
    pub name: String,
    /// The shape of the variant's payload.
    pub payload: PayloadSchema,
}

/// The payload carried by an enum variant.
#[derive(Debug)]
pub enum PayloadSchema {
    /// No payload.
    Unit,
    /// A single unnamed payload value.
    Newtype(Box<Schema>),
    /// A run of positionally typed payload values.
    Tuple(Vec<Schema>),
    /// Named payload fields.
    Struct(RecordSchema),
}

impl Schema {
    /// Convenience constructor for an optional shape.
    pub fn optional(inner: Schema) -> (r: Schema)
        ensures
            r == Schema::Optional(Box::new(inner)),
    {
        Schema::Optional(Box::new(inner))
    }

    /// Convenience constructor for a sequence shape.
    pub fn sequence(element: Schema) -> (r: Schema)
        ensures
            r == Schema::Sequence(Box::new(element)),
    {
        Schema::Sequence(Box::new(element))
    }

    /// Convenience constructor for a map shape.
    pub fn mapping(value: Schema) -> (r: Schema)
        ensures
            r == Schema::Mapping(Box::new(value)),
    {
        Schema::Mapping(Box::new(value))
    }
}

impl FieldSchema {
    /// A required field decoded with full error accumulation.
    pub fn required(name: &str, schema: Schema) -> (r: FieldSchema)
        ensures
            r.name@ == name@,
            r.schema == schema,
            !r.default,
            !r.compat,
    {
        FieldSchema { name: name.to_owned(), schema, default: false, compat: false }
    }

    /// A field whose absence falls back to a default.
    pub fn defaulted(name: &str, schema: Schema) -> (r: FieldSchema)
        ensures
            r.name@ == name@,
            r.schema == schema,
            r.default,
            !r.compat,
    {
        FieldSchema { name: name.to_owned(), schema, default: true, compat: false }
    }

    /// A required field decoded by the ordinary single pass,
    /// contributing at most one error.
    pub fn compat(name: &str, schema: Schema) -> (r: FieldSchema)
        ensures
            r.name@ == name@,
            r.schema == schema,
            !r.default,
            r.compat,
    {
        FieldSchema { name: name.to_owned(), schema, default: false, compat: true }
    }
}

impl VariantSchema {
    /// A variant without payload.
    pub fn unit(name: &str) -> (r: VariantSchema)
        ensures
            r.name@ == name@,
            r.payload is Unit,
    {
        VariantSchema { name: name.to_owned(), payload: PayloadSchema::Unit }
    }

    /// A variant with a single unnamed payload value.
    pub fn newtype(name: &str, inner: Schema) -> (r: VariantSchema)
        ensures
            r.name@ == name@,
            r.payload == PayloadSchema::Newtype(Box::new(inner)),
    {
        VariantSchema { name: name.to_owned(), payload: PayloadSchema::Newtype(Box::new(inner)) }
    }

    /// A variant with positionally typed payload values.
    pub fn tuple(name: &str, elements: Vec<Schema>) -> (r: VariantSchema)
        ensures
            r.name@ == name@,
            r.payload == PayloadSchema::Tuple(elements),
    {
        VariantSchema { name: name.to_owned(), payload: PayloadSchema::Tuple(elements) }
    }

    /// A variant with named payload fields.
    pub fn record(name: &str, fields: RecordSchema) -> (r: VariantSchema)
        ensures
            r.name@ == name@,
            r.payload == PayloadSchema::Struct(fields),
    {
        VariantSchema { name: name.to_owned(), payload: PayloadSchema::Struct(fields) }
    }
}

} // verus!
