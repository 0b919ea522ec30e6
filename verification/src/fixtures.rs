//! Sample shapes exercised by the test suite: plain structs, tuple
//! structs, and enums of every payload kind, each beside the schema
//! that describes its wire shape.

pub mod contract;
pub mod enums;
pub mod enums_deny_unknown_fields;
pub mod enums_flattened;
pub mod extra;
pub mod flatten;
pub mod structs;
