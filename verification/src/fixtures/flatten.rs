//! Shapes built for key flattening.  Spreading an inner struct's keys
//! into the outer map needs content buffering, which loses precise
//! paths — a documented limitation — so these shapes carry no schema
//! for their flattened wire form.

use vstd::prelude::*;

verus! {

/// The middle layer of a flattened nesting.
#[derive(Debug)]
pub struct Deep2 {
    /// A boolean field.
    pub b: bool,
    /// The innermost layer, spread into the same map when present.
    pub deep3: Option<Deep3>,
}

/// The innermost layer of a flattened nesting.
#[derive(Debug)]
pub struct Deep3 {
    /// A string field.
    pub s: String,
}

} // verus!
