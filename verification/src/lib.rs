//! Error-accumulating deserialization with logical paths.
//!
//! Ordinary structured-data decoding stops at the first malformed field.
//! This crate visits the whole input and collects every independent
//! problem, each tagged with the logical path at which it occurred
//! (`dependencies.serde.version`, `items[1].name`, ...).
//!
//! The input is modelled as a [`content::Content`] tree; the expected
//! shape is a [`schema::Schema`].  A fast single pass checks
//! conformance; only when it finds a problem does a second, permissive
//! pass walk the tree again and gather one error per independent defect
//! into a [`DeserializationErrors`] report.

pub mod content;
pub mod engine;
pub mod errors;
pub mod fixtures;
pub mod helper;
pub mod json;
pub mod laws;
pub mod messages;
pub mod model;
pub mod outcome;
pub mod outside;
pub mod path;
pub mod rejections;
pub mod render;
pub mod reporter;
pub mod schema;
pub mod tracker;

pub use errors::{DeserializationError, DeserializationErrors};

pub use path::{Path, Segment, Segments};
