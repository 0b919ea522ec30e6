//! Externally tagged enums that elsewhere travel flattened into one
//! map.  Each has a schema for its own tagged form; the flattened
//! container form is out of the engine's scope.

use crate::schema::{Schema, VariantSchema};
use vstd::prelude::*;

verus! {

/// A two-variant enum over a boolean or a string.
#[derive(Debug)]
pub enum Enum1 {
    /// A boolean payload.
    B(bool),
    /// A string payload.
    S(String),
}

/// A second two-variant enum over a boolean or a string.
#[derive(Debug)]
pub enum Enum3 {
    /// A boolean payload.
    B2(bool),
    /// A string payload.
    S2(String),
}

/// A third two-variant enum over a boolean or a string.
#[derive(Debug)]
pub enum Enum5 {
    /// A boolean payload.
    B3(bool),
    /// A string payload.
    S3(String),
}

impl Enum1 {
    /// The wire shape of the tagged form.
    pub fn schema() -> Schema {
        let mut vars: Vec<VariantSchema> = Vec::new();
        vars.push(VariantSchema::newtype("B", Schema::Bool));
        vars.push(VariantSchema::newtype("S", Schema::Text));
        Schema::Enumeration(vars)
    }
}

impl Enum3 {
    /// The wire shape of the tagged form.
    pub fn schema() -> Schema {
        let mut vars: Vec<VariantSchema> = Vec::new();
        vars.push(VariantSchema::newtype("B2", Schema::Bool));
        vars.push(VariantSchema::newtype("S2", Schema::Text));
        Schema::Enumeration(vars)
    }
}

impl Enum5 {
    /// The wire shape of the tagged form.
    pub fn schema() -> Schema {
        let mut vars: Vec<VariantSchema> = Vec::new();
        vars.push(VariantSchema::newtype("B3", Schema::Bool));
        vars.push(VariantSchema::newtype("S3", Schema::Text));
        Schema::Enumeration(vars)
    }
}

} // verus!
