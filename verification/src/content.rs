//! The library's model of structured input: a tree of plain values.
//!
//! A wire-format parser (outside the library) turns input text into a
//! [`Content`]; the decoding engine then walks the tree.  Map entries keep
//! the order in which the document supplied them.

use vstd::prelude::*;

verus! {

/// One node of parsed structured input.
#[derive(Debug)]
pub enum Content {
    /// An explicit null.
    Null,
    /// A boolean.
    Bool(bool),
    /// A non-negative integer.
    UInt(u64),
    /// An integer that does not fit `u64`, in practice a negative one.
    NInt(i64),
    /// A number that is not an integer, kept as its textual form.
    Decimal(String),
    /// A string.
    Text(String),
    /// A sequence of values.
    List(Vec<Content>),
    /// A map, as key/value entries (key first) in document order.
    Object(Vec<(String, Content)>),
}

} // verus!
