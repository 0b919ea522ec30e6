//! The mathematical model of the permissive decode pass.
//!
//! [`acc`] gives, for a schema, an input value and the path at which the
//! value sits, the exact ordered list of errors the accumulating pass
//! reports and the outcome it hands its caller.  The executable engine
//! is verified against this model, so every contract downstream (entry
//! points, laws, tests) speaks the same language.

use crate::errors::ErrorModel;
use crate::messages::{
    spec_msg_count_mismatch, spec_msg_invalid_length, spec_msg_invalid_type,
    spec_msg_invalid_value, spec_msg_missing_field, spec_msg_unknown_field,
    spec_msg_unknown_variant, spec_payload_desc, spec_schema_desc, spec_value_desc,
};
use crate::path::Segment;
use crate::schema::{
    spec_imax, spec_imin, spec_umax, FieldSchema, PayloadSchema, RecordSchema, Schema,
    VariantSchema,
};
use crate::content::Content;
use vstd::prelude::*;

verus! {

/// What one permissive decode hands its caller: a clean value, a value
/// whose errors were reported in place, or a hard failure whose message
/// the caller must report once more at its own position.
pub enum OutcomeModel {
    /// No error was found.
    Valid,
    /// Errors were found and reported in place.
    Invalid,
    /// The decode aborted; the caller reports the message at its own
    /// position.
    Failed(Seq<char>),
}

/// An error with the given absolute path.
pub open spec fn err_at(p: Seq<Segment>, m: Seq<char>) -> ErrorModel {
    ErrorModel { path: Some(p), message: m }
}

/// A single in-place error and an invalid outcome.
pub open spec fn one_invalid(p: Seq<Segment>, m: Seq<char>) -> (Seq<ErrorModel>, OutcomeModel) {
    (seq![err_at(p, m)], OutcomeModel::Invalid)
}

/// The type-mismatch result for a value against a schema.
pub open spec fn mismatch(s: Schema, v: Content, p: Seq<Segment>) -> (Seq<ErrorModel>, OutcomeModel) {
    one_invalid(p, spec_msg_invalid_type(spec_value_desc(v), spec_schema_desc(s)))
}

/// The out-of-range result for an integer against a schema.
pub open spec fn out_of_range(s: Schema, v: Content, p: Seq<Segment>) -> (
    Seq<ErrorModel>,
    OutcomeModel,
) {
    one_invalid(p, spec_msg_invalid_value(spec_value_desc(v), spec_schema_desc(s)))
}

/// A clean result.
pub open spec fn all_good() -> (Seq<ErrorModel>, OutcomeModel) {
    (Seq::<ErrorModel>::empty(), OutcomeModel::Valid)
}

/// The index of the first field with the given name, or `-1`.
pub open spec fn find_field(fields: Seq<FieldSchema>, key: Seq<char>, j: int) -> int
    decreases fields.len() - j,
{
    if j < 0 || j >= fields.len() {
        -1
    } else if fields[j].name@ == key {
        j
    } else {
        find_field(fields, key, j + 1)
    }
}

/// The index of the first variant with the given name, or `-1`.
pub open spec fn find_variant(vars: Seq<VariantSchema>, name: Seq<char>, j: int) -> int
    decreases vars.len() - j,
{
    if j < 0 || j >= vars.len() {
        -1
    } else if vars[j].name@ == name {
        j
    } else {
        find_variant(vars, name, j + 1)
    }
}

/// The shape a variant payload is decoded against.
pub open spec fn payload_schema(p: PayloadSchema) -> Schema {
    match p {
        PayloadSchema::Unit => Schema::Null,
        PayloadSchema::Newtype(b) => *b,
        PayloadSchema::Tuple(ss) => Schema::Tuple(ss),
        PayloadSchema::Struct(rs) => Schema::Record(rs),
    }
}

/// Whether a field may be absent without an error: it defaults, or its
/// shape is optional.
pub open spec fn field_may_be_absent(f: FieldSchema) -> bool {
    f.default || f.schema is Optional
}

/// The missing-field errors for every required field not seen in the
/// input, in declaration order, at the record's own path.
pub open spec fn acc_missing(
    fields: Seq<FieldSchema>,
    seen: Set<int>,
    p: Seq<Segment>,
    j: int,
) -> Seq<ErrorModel>
    decreases fields.len() - j,
{
    if j < 0 || j >= fields.len() {
        Seq::<ErrorModel>::empty()
    } else {
        (if !seen.contains(j) && !field_may_be_absent(fields[j]) {
            seq![err_at(p, spec_msg_missing_field(fields[j].name@))]
        } else {
            Seq::<ErrorModel>::empty()
        }) + acc_missing(fields, seen, p, j + 1)
    }
}

/// The errors and outcome of permissively decoding `v` against `s` when
/// `v` sits at path `p`.
pub open spec fn acc(s: Schema, v: Content, p: Seq<Segment>) -> (Seq<ErrorModel>, OutcomeModel)
    decreases v, s, 2int, 0int,
{
    match s {
        Schema::Bool => match v {
            Content::Bool(_) => all_good(),
            _ => mismatch(s, v, p),
        },
        Schema::UInt(w) => match v {
            Content::UInt(u) => if u <= spec_umax(w) {
                all_good()
            } else {
                out_of_range(s, v, p)
            },
            Content::NInt(i) => if 0 <= i && i <= spec_umax(w) {
                all_good()
            } else {
                out_of_range(s, v, p)
            },
            _ => mismatch(s, v, p),
        },
        Schema::SInt(w) => match v {
            Content::UInt(u) => if u <= spec_imax(w) {
                all_good()
            } else {
                out_of_range(s, v, p)
            },
            Content::NInt(i) => if spec_imin(w) <= i && i <= spec_imax(w) {
                all_good()
            } else {
                out_of_range(s, v, p)
            },
            _ => mismatch(s, v, p),
        },
        Schema::Text => match v {
            Content::Text(_) => all_good(),
            _ => mismatch(s, v, p),
        },
        Schema::Null => match v {
            Content::Null => all_good(),
            _ => mismatch(s, v, p),
        },
        Schema::Optional(inner) => match v {
            Content::Null => all_good(),
            _ => acc(*inner, v, p),
        },
        Schema::Sequence(es) => match v {
            Content::List(elems) => {
                let errs = acc_elems(*es, elems@, p, 0);
                (errs, if errs.len() == 0 {
                    OutcomeModel::Valid
                } else {
                    OutcomeModel::Invalid
                })
            },
            _ => mismatch(s, v, p),
        },
        Schema::FixedArray(es, n) => match v {
            Content::List(elems) => {
                let errs = acc_elems(*es, elems@, p, 0) + (if elems@.len() != n {
                    seq![err_at(p, spec_msg_count_mismatch(n as int, elems@.len() as int))]
                } else {
                    Seq::<ErrorModel>::empty()
                });
                (errs, if errs.len() == 0 {
                    OutcomeModel::Valid
                } else {
                    OutcomeModel::Invalid
                })
            },
            _ => mismatch(s, v, p),
        },
        Schema::Tuple(ss) => match v {
            Content::List(elems) => {
                let errs = acc_pairs(ss@, elems@, p, 0) + (if elems@.len() != ss@.len() {
                    seq![err_at(p, spec_msg_invalid_length(elems@.len() as int, ss@.len() as int))]
                } else {
                    Seq::<ErrorModel>::empty()
                });
                (errs, if errs.len() == 0 {
                    OutcomeModel::Valid
                } else {
                    OutcomeModel::Invalid
                })
            },
            _ => mismatch(s, v, p),
        },
        Schema::Mapping(vs) => match v {
            Content::Object(entries) => {
                let errs = acc_map_entries(*vs, entries@, p, 0);
                (errs, if errs.len() == 0 {
                    OutcomeModel::Valid
                } else {
                    OutcomeModel::Invalid
                })
            },
            _ => mismatch(s, v, p),
        },
        Schema::Record(rs) => match v {
            Content::Object(entries) => {
                let r = acc_entries(rs.fields@, rs.deny_unknown, entries@, p, 0, Set::empty());
                (r.0, match r.1 {
                    Some(m) => OutcomeModel::Failed(m),
                    None => if r.0.len() == 0 {
                        OutcomeModel::Valid
                    } else {
                        OutcomeModel::Invalid
                    },
                })
            },
            _ => mismatch(s, v, p),
        },
        Schema::Enumeration(vars) => match v {
            Content::Text(name) => {
                let vi = find_variant(vars@, name@, 0);
                if vi < 0 {
                    let m = spec_msg_unknown_variant(name@);
                    (
                        seq![err_at(p.push(Segment::EnumVariant { variant: name }), m)],
                        OutcomeModel::Failed(m),
                    )
                } else if vars@[vi].payload is Unit {
                    all_good()
                } else {
                    one_invalid(
                        p.push(Segment::EnumVariant { variant: name }),
                        spec_msg_invalid_type(
                            "unit variant"@,
                            spec_payload_desc(vars@[vi].payload),
                        ),
                    )
                }
            },
            Content::Object(entries) => {
                if entries@.len() != 1 {
                    mismatch(s, v, p)
                } else {
                    let name = entries@[0].0;
                    let pv = entries@[0].1;
                    let vi = find_variant(vars@, name@, 0);
                    let q = p.push(Segment::EnumVariant { variant: name });
                    if vi < 0 {
                        let m = spec_msg_unknown_variant(name@);
                        (seq![err_at(q, m)], OutcomeModel::Failed(m))
                    } else {
                        acc(payload_schema(vars@[vi].payload), pv, q)
                    }
                }
            },
            _ => mismatch(s, v, p),
        },
    }
}

/// The errors of the elements of a sequence from position `i` on, each
/// decoded in place under its index segment; a hard element failure is
/// reported a second time at the element's position.
pub open spec fn acc_elems(es: Schema, elems: Seq<Content>, p: Seq<Segment>, i: int) -> Seq<
    ErrorModel,
>
    decreases elems, es, 3int, elems.len() - i,
{
    if i < 0 || i >= elems.len() {
        Seq::<ErrorModel>::empty()
    } else {
        let q = p.push(Segment::SeqIndex { index: i as usize });
        let sub = acc(es, elems[i], q);
        let here = sub.0 + (match sub.1 {
            OutcomeModel::Failed(m) => seq![err_at(q, m)],
            _ => Seq::<ErrorModel>::empty(),
        });
        here + acc_elems(es, elems, p, i + 1)
    }
}

/// The errors of the elements of a fixed run of positionally typed
/// elements from position `i` on; only positions present on both sides
/// are decoded.
pub open spec fn acc_pairs(ss: Seq<Schema>, elems: Seq<Content>, p: Seq<Segment>, i: int) -> Seq<
    ErrorModel,
>
    decreases elems, ss, 3int, elems.len() - i,
{
    if i < 0 || i >= elems.len() || i >= ss.len() {
        Seq::<ErrorModel>::empty()
    } else {
        let q = p.push(Segment::SeqIndex { index: i as usize });
        let sub = acc(ss[i], elems[i], q);
        let here = sub.0 + (match sub.1 {
            OutcomeModel::Failed(m) => seq![err_at(q, m)],
            _ => Seq::<ErrorModel>::empty(),
        });
        here + acc_pairs(ss, elems, p, i + 1)
    }
}

/// The errors of the entries of a uniform map from position `i` on,
/// each value decoded in place under its key segment.
pub open spec fn acc_map_entries(vs: Schema, entries: Seq<(String, Content)>, p: Seq<Segment>, i: int) -> Seq<
    ErrorModel,
>
    decreases entries, vs, 3int, entries.len() - i,
{
    if i < 0 || i >= entries.len() {
        Seq::<ErrorModel>::empty()
    } else {
        let q = p.push(Segment::MapKey { key: entries[i].0 });
        let sub = acc(vs, entries[i].1, q);
        let here = sub.0 + (match sub.1 {
            OutcomeModel::Failed(m) => seq![err_at(q, m)],
            _ => Seq::<ErrorModel>::empty(),
        });
        here + acc_map_entries(vs, entries, p, i + 1)
    }
}

/// The errors of a record's entries from position `i` on, followed by
/// its missing-field errors, together with the hard-failure message if
/// an unknown key stopped the decode.
///
/// A known field is decoded under its key segment; a compat field
/// contributes at most its first error; an unknown key is skipped, or,
/// when unknown keys are denied, reported and the decode stopped.
pub open spec fn acc_entries(
    fields: Seq<FieldSchema>,
    deny: bool,
    entries: Seq<(String, Content)>,
    p: Seq<Segment>,
    i: int,
    seen: Set<int>,
) -> (Seq<ErrorModel>, Option<Seq<char>>)
    decreases entries, fields, 3int, entries.len() - i,
{
    if i < 0 || i >= entries.len() {
        (acc_missing(fields, seen, p, 0), None)
    } else {
        let e = entries[i];
        let fi = find_field(fields, e.0@, 0);
        if fi >= 0 {
            let q = p.push(Segment::MapKey { key: e.0 });
            let sub = acc(fields[fi].schema, e.1, q);
            let here = if fields[fi].compat {
                if sub.0.len() == 0 {
                    Seq::<ErrorModel>::empty()
                } else {
                    seq![sub.0[0]]
                }
            } else {
                sub.0 + (match sub.1 {
                    OutcomeModel::Failed(m) => seq![err_at(q, m)],
                    _ => Seq::<ErrorModel>::empty(),
                })
            };
            let rest = acc_entries(fields, deny, entries, p, i + 1, seen.insert(fi));
            (here + rest.0, rest.1)
        } else if deny {
            let q = p.push(Segment::MapKey { key: e.0 });
            let m = spec_msg_unknown_field(e.0@);
            (seq![err_at(q, m)], Some(m))
        } else {
            acc_entries(fields, deny, entries, p, i + 1, seen)
        }
    }
}

} // verus!
