//! The texts of the errors the decoding engine reports.

use crate::render::{append_i64, append_u64, dec_rep, int_rep, push_char};
use crate::schema::{IntWidth, PayloadSchema, Schema};
use crate::content::Content;
use vstd::prelude::*;
use vstd::string::StringExecFns;

verus! {

/// How an input value is described in an error message.
pub open spec fn spec_value_desc(v: Content) -> Seq<char> {
    match v {
        Content::Null => "null"@,
        Content::Bool(b) => if b {
            "boolean `true`"@
        } else {
            "boolean `false`"@
        },
        Content::UInt(u) => "integer `"@ + dec_rep(u as int) + "`"@,
        Content::NInt(i) => "integer `"@ + int_rep(i as int) + "`"@,
        Content::Decimal(d) => "floating point `"@ + d@ + "`"@,
        Content::Text(s) => "string \""@ + s@ + "\""@,
        Content::List(_) => "sequence"@,
        Content::Object(_) => "map"@,
    }
}

/// The name of an unsigned integer type of the given width.
pub open spec fn spec_uint_name(w: IntWidth) -> Seq<char> {
    match w {
        IntWidth::W8 => "u8"@,
        IntWidth::W16 => "u16"@,
        IntWidth::W32 => "u32"@,
        IntWidth::W64 => "u64"@,
    }
}

/// The name of a signed integer type of the given width.
pub open spec fn spec_sint_name(w: IntWidth) -> Seq<char> {
    match w {
        IntWidth::W8 => "i8"@,
        IntWidth::W16 => "i16"@,
        IntWidth::W32 => "i32"@,
        IntWidth::W64 => "i64"@,
    }
}

/// How the expected shape is described in a type-mismatch message.
pub open spec fn spec_schema_desc(s: Schema) -> Seq<char> {
    match s {
        Schema::Bool => "a boolean"@,
        Schema::UInt(w) => spec_uint_name(w),
        Schema::SInt(w) => spec_sint_name(w),
        Schema::Text => "a string"@,
        Schema::Null => "null"@,
        Schema::Optional(_) => "option"@,
        Schema::Sequence(_) => "a sequence"@,
        Schema::FixedArray(_, n) => "a sequence of "@ + dec_rep(n as int) + " elements"@,
        Schema::Tuple(ss) => "a tuple of "@ + dec_rep(ss.len() as int) + " elements"@,
        Schema::Mapping(_) => "a map"@,
        Schema::Record(_) => "a map"@,
        Schema::Enumeration(_) => "an enum variant"@,
    }
}

/// How a variant payload shape is described when a unit tag was given
/// for a variant that carries data.
pub open spec fn spec_payload_desc(p: PayloadSchema) -> Seq<char> {
    match p {
        PayloadSchema::Unit => "a unit variant"@,
        PayloadSchema::Newtype(_) => "a newtype variant"@,
        PayloadSchema::Tuple(_) => "a tuple variant"@,
        PayloadSchema::Struct(_) => "a struct variant"@,
    }
}

/// `invalid type: <found>, expected <expected>`.
pub open spec fn spec_msg_invalid_type(found: Seq<char>, expected: Seq<char>) -> Seq<char> {
    "invalid type: "@ + found + ", expected "@ + expected
}

/// `invalid value: <found>, expected <expected>`.
pub open spec fn spec_msg_invalid_value(found: Seq<char>, expected: Seq<char>) -> Seq<char> {
    "invalid value: "@ + found + ", expected "@ + expected
}

/// `missing field `<name>``.
pub open spec fn spec_msg_missing_field(name: Seq<char>) -> Seq<char> {
    "missing field `"@ + name + "`"@
}

/// `unknown field `<name>``.
pub open spec fn spec_msg_unknown_field(name: Seq<char>) -> Seq<char> {
    "unknown field `"@ + name + "`"@
}

/// `unknown variant `<name>``.
pub open spec fn spec_msg_unknown_variant(name: Seq<char>) -> Seq<char> {
    "unknown variant `"@ + name + "`"@
}

/// `invalid length <found>, expected <expected> elements`.
pub open spec fn spec_msg_invalid_length(found: int, expected: int) -> Seq<char> {
    "invalid length "@ + dec_rep(found) + ", expected "@ + dec_rep(expected) + " elements"@
}

/// `expected sequence of <expected> elements, found <found> elements`.
pub open spec fn spec_msg_count_mismatch(expected: int, found: int) -> Seq<char> {
    "expected sequence of "@ + dec_rep(expected) + " elements, found "@ + dec_rep(found)
        + " elements"@
}

/// Builds the description of an input value.
pub fn value_desc(v: &Content) -> (r: String)
    ensures
        r@ == spec_value_desc(*v),
{
    match v {
        Content::Null => String::from_str("null"),
        Content::Bool(b) => {
            if *b {
                String::from_str("boolean `true`")
            } else {
                String::from_str("boolean `false`")
            }
        },
        Content::UInt(u) => {
            let mut s = String::from_str("integer `");
            append_u64(&mut s, *u);
            push_char(&mut s, '`');
            proof {
                reveal_strlit("`");
            }
            assert(s@ =~= spec_value_desc(*v));
            s
        },
        Content::NInt(i) => {
            let mut s = String::from_str("integer `");
            append_i64(&mut s, *i);
            push_char(&mut s, '`');
            proof {
                reveal_strlit("`");
            }
            assert(s@ =~= spec_value_desc(*v));
            s
        },
        Content::Decimal(d) => {
            let mut s = String::from_str("floating point `");
            s.append(d.as_str());
            push_char(&mut s, '`');
            proof {
                reveal_strlit("`");
            }
            assert(s@ =~= spec_value_desc(*v));
            s
        },
        Content::Text(t) => {
            let mut s = String::from_str("string \"");
            s.append(t.as_str());
            push_char(&mut s, '"');
            proof {
                reveal_strlit("\"");
            }
            assert(s@ =~= spec_value_desc(*v));
            s
        },
        Content::List(_) => String::from_str("sequence"),
        Content::Object(_) => String::from_str("map"),
    }
}

/// Builds the description of an expected shape.
pub fn schema_desc(s: &Schema) -> (r: String)
    ensures
        r@ == spec_schema_desc(*s),
{
    match s {
        Schema::Bool => String::from_str("a boolean"),
        Schema::UInt(w) => {
            match w {
                IntWidth::W8 => String::from_str("u8"),
                IntWidth::W16 => String::from_str("u16"),
                IntWidth::W32 => String::from_str("u32"),
                IntWidth::W64 => String::from_str("u64"),
            }
        },
        Schema::SInt(w) => {
            match w {
                IntWidth::W8 => String::from_str("i8"),
                IntWidth::W16 => String::from_str("i16"),
                IntWidth::W32 => String::from_str("i32"),
                IntWidth::W64 => String::from_str("i64"),
            }
        },
        Schema::Text => String::from_str("a string"),
        Schema::Null => String::from_str("null"),
        Schema::Optional(_) => String::from_str("option"),
        Schema::Sequence(_) => String::from_str("a sequence"),
        Schema::FixedArray(_, n) => {
            let mut out = String::from_str("a sequence of ");
            append_u64(&mut out, *n as u64);
            out.append(" elements");
            assert(out@ =~= spec_schema_desc(*s));
            out
        },
        Schema::Tuple(ss) => {
            let mut out = String::from_str("a tuple of ");
            append_u64(&mut out, ss.len() as u64);
            out.append(" elements");
            assert(out@ =~= spec_schema_desc(*s));
            out
        },
        Schema::Mapping(_) => String::from_str("a map"),
        Schema::Record(_) => String::from_str("a map"),
        Schema::Enumeration(_) => String::from_str("an enum variant"),
    }
}

/// Builds the description of a variant payload shape.
pub fn payload_desc(p: &PayloadSchema) -> (r: String)
    ensures
        r@ == spec_payload_desc(*p),
{
    match p {
        PayloadSchema::Unit => String::from_str("a unit variant"),
        PayloadSchema::Newtype(_) => String::from_str("a newtype variant"),
        PayloadSchema::Tuple(_) => String::from_str("a tuple variant"),
        PayloadSchema::Struct(_) => String::from_str("a struct variant"),
    }
}

/// Builds `invalid type: <found>, expected <expected>`.
pub fn msg_invalid_type(found: &str, expected: &str) -> (r: String)
    ensures
        r@ == spec_msg_invalid_type(found@, expected@),
{
    let mut out = String::from_str("invalid type: ");
    out.append(found);
    out.append(", expected ");
    out.append(expected);
    assert(out@ =~= spec_msg_invalid_type(found@, expected@));
    out
}

/// Builds `invalid value: <found>, expected <expected>`.
pub fn msg_invalid_value(found: &str, expected: &str) -> (r: String)
    ensures
        r@ == spec_msg_invalid_value(found@, expected@),
{
    let mut out = String::from_str("invalid value: ");
    out.append(found);
    out.append(", expected ");
    out.append(expected);
    assert(out@ =~= spec_msg_invalid_value(found@, expected@));
    out
}

/// Builds `missing field `<name>``.
pub fn msg_missing_field(name: &str) -> (r: String)
    ensures
        r@ == spec_msg_missing_field(name@),
{
    let mut out = String::from_str("missing field `");
    out.append(name);
    push_char(&mut out, '`');
    proof {
        reveal_strlit("`");
    }
    assert(out@ =~= spec_msg_missing_field(name@));
    out
}

/// Builds `unknown field `<name>``.
pub fn msg_unknown_field(name: &str) -> (r: String)
    ensures
        r@ == spec_msg_unknown_field(name@),
{
    let mut out = String::from_str("unknown field `");
    out.append(name);
    push_char(&mut out, '`');
    proof {
        reveal_strlit("`");
    }
    assert(out@ =~= spec_msg_unknown_field(name@));
    out
}

/// Builds `unknown variant `<name>``.
pub fn msg_unknown_variant(name: &str) -> (r: String)
    ensures
        r@ == spec_msg_unknown_variant(name@),
{
    let mut out = String::from_str("unknown variant `");
    out.append(name);
    push_char(&mut out, '`');
    proof {
        reveal_strlit("`");
    }
    assert(out@ =~= spec_msg_unknown_variant(name@));
    out
}

/// Builds `invalid length <found>, expected <expected> elements`.
pub fn msg_invalid_length(found: usize, expected: usize) -> (r: String)
    ensures
        r@ == spec_msg_invalid_length(found as int, expected as int),
{
    let mut out = String::from_str("invalid length ");
    append_u64(&mut out, found as u64);
    out.append(", expected ");
    append_u64(&mut out, expected as u64);
    out.append(" elements");
    assert(out@ =~= spec_msg_invalid_length(found as int, expected as int));
    out
}

/// Builds `expected sequence of <expected> elements, found <found> elements`.
pub fn msg_count_mismatch(expected: usize, found: usize) -> (r: String)
    ensures
        r@ == spec_msg_count_mismatch(expected as int, found as int),
{
    let mut out = String::from_str("expected sequence of ");
    append_u64(&mut out, expected as u64);
    out.append(" elements, found ");
    append_u64(&mut out, found as u64);
    out.append(" elements");
    assert(out@ =~= spec_msg_count_mismatch(expected as int, found as int));
    out
}

} // verus!
