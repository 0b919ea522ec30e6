//! Further shapes: optional and defaulting fields, generic structs,
//! borrowed fields, and enums mixing payload kinds.

use crate::schema::{FieldSchema, IntWidth, RecordSchema, Schema, VariantSchema};
use vstd::prelude::*;

verus! {

/// A struct with a defaulting optional field, a newtype field and a
/// sequence field.
#[derive(Debug)]
pub struct NamedStruct {
    /// A defaulting optional field.
    pub a: Option<u32>,
    /// A newtype field.
    pub b: TupleStructOneField,
    /// A sequence of tuple structs.
    pub c: Vec<TupleStructMultipleFields>,
}

/// A struct generic over two field types, the second decoded by the
/// ordinary single pass.
#[derive(Debug)]
pub struct GenericStruct<T, S> {
    /// A field of the first type.
    pub a: T,
    /// A field of the second type, decoded by the ordinary single pass.
    pub b: S,
}

/// A struct of borrowed fields under several lifetimes.
#[derive(Debug)]
pub struct LifetimeGenericStruct<'a, 'b, 'c, 'd, 'e> {
    /// A borrowed string.
    pub a: &'a str,
    /// A borrowed string.
    pub b: &'b str,
    /// Borrowed bytes.
    pub c: &'c [u8],
    /// A borrowed string.
    pub d: &'d str,
    /// A borrowed string.
    pub e: &'e str,
}

/// A one-field tuple struct whose field defaults; decoded as the inner
/// optional value.
#[derive(Debug)]
pub struct TupleStructOneField(pub Option<u32>);

/// A three-field tuple struct.
#[derive(Debug)]
pub struct TupleStructMultipleFields(pub Option<u32>, pub u32, pub u64);

/// An enum with a single unit variant.
#[derive(Debug)]
pub enum CLikeEnumOneVariant {
    /// The only variant.
    A,
}

/// An enum with two unit variants.
#[derive(Debug)]
pub enum CLikeEnumMultipleVariants {
    /// The first variant.
    A,
    /// The second variant.
    B,
}

/// An enum mixing unit, named and positional payloads.
#[derive(Debug)]
pub enum EnumWithBothNamedAndTupleVariants {
    /// One named payload field.
    Named {
        /// An integer field.
        a: u32,
    },
    /// Two named payload fields.
    NamedMultiple {
        /// An integer field.
        a: u32,
        /// A wider integer field.
        b: u64,
    },
    /// One positional payload value.
    Tuple(u32),
    /// Two positional payload values.
    TupleMultiple(u32, u64),
    /// No payload.
    Unit,
}

impl TupleStructOneField {
    /// The wire shape: the inner optional value itself.
    pub fn schema() -> Schema {
        Schema::optional(Schema::UInt(IntWidth::W32))
    }
}

impl TupleStructMultipleFields {
    /// The wire shape: a three-element sequence.
    pub fn schema() -> Schema {
        let mut elements: Vec<Schema> = Vec::new();
        elements.push(Schema::optional(Schema::UInt(IntWidth::W32)));
        elements.push(Schema::UInt(IntWidth::W32));
        elements.push(Schema::UInt(IntWidth::W64));
        Schema::Tuple(elements)
    }
}

impl NamedStruct {
    /// The wire shape: `a` defaulting, `b` a newtype, `c` a sequence.
    pub fn schema() -> Schema {
        let mut fields: Vec<FieldSchema> = Vec::new();
        fields.push(
            FieldSchema::defaulted("a", Schema::optional(Schema::UInt(IntWidth::W32))),
        );
        fields.push(FieldSchema::required("b", TupleStructOneField::schema()));
        fields.push(
            FieldSchema::required("c", Schema::sequence(TupleStructMultipleFields::schema())),
        );
        Schema::Record(RecordSchema { fields, deny_unknown: false })
    }
}

impl<T, S> GenericStruct<T, S> {
    /// The wire shape, given the shapes of the two field types; the
    /// second field falls back to the ordinary single pass.
    pub fn schema(a: Schema, b: Schema) -> Schema {
        let mut fields: Vec<FieldSchema> = Vec::new();
        fields.push(FieldSchema::required("a", a));
        fields.push(FieldSchema::compat("b", b));
        Schema::Record(RecordSchema { fields, deny_unknown: false })
    }
}

impl CLikeEnumOneVariant {
    /// The wire shape: one unit tag.
    pub fn schema() -> Schema {
        let mut vars: Vec<VariantSchema> = Vec::new();
        vars.push(VariantSchema::unit("A"));
        Schema::Enumeration(vars)
    }
}

impl CLikeEnumMultipleVariants {
    /// The wire shape: two unit tags.
    pub fn schema() -> Schema {
        let mut vars: Vec<VariantSchema> = Vec::new();
        vars.push(VariantSchema::unit("A"));
        vars.push(VariantSchema::unit("B"));
        Schema::Enumeration(vars)
    }
}

impl EnumWithBothNamedAndTupleVariants {
    /// The wire shape: unit, named and positional payloads side by
    /// side.
    pub fn schema() -> Schema {
        let mut vars: Vec<VariantSchema> = Vec::new();
        let mut named_fields: Vec<FieldSchema> = Vec::new();
        named_fields.push(FieldSchema::required("a", Schema::UInt(IntWidth::W32)));
        vars.push(
            VariantSchema::record(
                "Named",
                RecordSchema { fields: named_fields, deny_unknown: false },
            ),
        );
        let mut multi_fields: Vec<FieldSchema> = Vec::new();
        multi_fields.push(FieldSchema::required("a", Schema::UInt(IntWidth::W32)));
        multi_fields.push(FieldSchema::required("b", Schema::UInt(IntWidth::W64)));
        vars.push(
            VariantSchema::record(
                "NamedMultiple",
                RecordSchema { fields: multi_fields, deny_unknown: false },
            ),
        );
        vars.push(VariantSchema::newtype("Tuple", Schema::UInt(IntWidth::W32)));
        let mut pair: Vec<Schema> = Vec::new();
        pair.push(Schema::UInt(IntWidth::W32));
        pair.push(Schema::UInt(IntWidth::W64));
        vars.push(VariantSchema::tuple("TupleMultiple", pair));
        vars.push(VariantSchema::unit("Unit"));
        Schema::Enumeration(vars)
    }
}

} // verus!
