//! Laws of the decoding engine and of the path stash, stated once and
//! proved for every input.

use crate::content::Content;
use crate::model::{
    acc, acc_elems, acc_entries, acc_map_entries, acc_missing, acc_pairs, find_field,
    find_variant, payload_schema,
};
use crate::path::{seg_like, Segment};
use crate::schema::{FieldSchema, RecordSchema, Schema};
use crate::tracker::{is_path_prefix, stash_after};
use vstd::prelude::*;

verus! {

/// Law: a stash request never replaces a stashed path by a shallower
/// prefix of it — the deepest path seen for one error episode is
/// retained.
pub proof fn lemma_stash_depth_preference(cur: Seq<Segment>, stashed: Seq<Segment>)
    requires
        is_path_prefix(cur, stashed),
    ensures
        stash_after(true, cur, Some(stashed)) == Some(stashed),
{
}

/// Law: a stash request replaces the stashed path whenever the tracked
/// path is not a prefix of it, and fills an empty stash with the
/// tracked path.
pub proof fn lemma_stash_takes_deeper(cur: Seq<Segment>, stashed: Option<Seq<Segment>>)
    ensures
        stashed is None ==> stash_after(true, cur, stashed) == Some(cur),
        (stashed matches Some(t) && !is_path_prefix(cur, t)) ==> stash_after(true, cur, stashed)
            == Some(cur),
{
}

/// Law: when tracking is not initialized, a stash request changes
/// nothing.
pub proof fn lemma_stash_untracked(cur: Seq<Segment>, stashed: Option<Seq<Segment>>)
    ensures
        stash_after(false, cur, stashed) == stashed,
{
}

/// A shape whose decode stands on its own: it reads one input value and
/// contributes at most one error.
pub open spec fn is_primitive(s: Schema) -> bool {
    match s {
        Schema::Bool => true,
        Schema::UInt(_) => true,
        Schema::SInt(_) => true,
        Schema::Text => true,
        Schema::Null => true,
        _ => false,
    }
}

/// Law: a primitive shape contributes no error or exactly one, at its
/// own position, and never a hard failure; it is error-free exactly
/// when its outcome is valid.
pub proof fn lemma_primitive_acc(s: Schema, v: Content, p: Seq<Segment>)
    requires
        is_primitive(s),
    ensures
        acc(s, v, p).0.len() <= 1,
        acc(s, v, p).0.len() == 1 ==> acc(s, v, p).0[0].path == Some(p),
        !(acc(s, v, p).1 is Failed),
        (acc(s, v, p).0.len() == 0 <==> acc(s, v, p).1 is Valid),
{
}

/// Law: an accumulating decode is error-free exactly when its outcome
/// is valid, and a hard failure always carries at least one reported
/// error.
pub proof fn lemma_outcome_agrees(s: Schema, v: Content, p: Seq<Segment>)
    ensures
        (acc(s, v, p).1 is Valid <==> acc(s, v, p).0.len() == 0),
        (acc(s, v, p).1 is Failed ==> acc(s, v, p).0.len() > 0),
    decreases v, s, 2int, 0int,
{
    match s {
        Schema::Optional(inner) => match v {
            Content::Null => {},
            _ => {
                lemma_outcome_agrees(*inner, v, p);
            },
        },
        Schema::Record(rs) => match v {
            Content::Object(entries) => {
                lemma_entries_hard_nonempty(
                    rs.fields@,
                    rs.deny_unknown,
                    entries@,
                    p,
                    0,
                    Set::empty(),
                );
            },
            _ => {},
        },
        Schema::Enumeration(vars) => match v {
            Content::Object(entries) => {
                if entries@.len() == 1 {
                    let name = entries@[0].0;
                    let vi = crate::model::find_variant(vars@, name@, 0);
                    if vi >= 0 {
                        let q = p.push(Segment::EnumVariant { variant: name });
                        lemma_outcome_agrees(
                            crate::model::payload_schema(vars@[vi].payload),
                            entries@[0].1,
                            q,
                        );
                    }
                }
            },
            _ => {},
        },
        _ => {},
    }
}

/// When a record's entry walk stops hard on a denied unknown key, at
/// least one error was reported.
proof fn lemma_entries_hard_nonempty(
    fields: Seq<FieldSchema>,
    deny: bool,
    entries: Seq<(String, Content)>,
    p: Seq<Segment>,
    i: int,
    seen: Set<int>,
)
    ensures
        acc_entries(fields, deny, entries, p, i, seen).1 is Some ==> acc_entries(
            fields,
            deny,
            entries,
            p,
            i,
            seen,
        ).0.len() > 0,
    decreases entries.len() - i,
{
    if i < 0 || i >= entries.len() {
    } else {
        let fi = find_field(fields, entries[i].0@, 0);
        if fi >= 0 {
            lemma_entries_hard_nonempty(fields, deny, entries, p, i + 1, seen.insert(fi));
        } else if deny {
        } else {
            lemma_entries_hard_nonempty(fields, deny, entries, p, i + 1, seen);
        }
    }
}

/// How many of a record's entries hold a value that does not conform to
/// the field of the same position.
pub open spec fn invalid_leaf_count(
    fields: Seq<FieldSchema>,
    entries: Seq<(String, Content)>,
    p: Seq<Segment>,
    i: int,
) -> int
    decreases entries.len() - i,
{
    if i < 0 || i >= entries.len() || i >= fields.len() {
        0
    } else {
        (if acc(fields[i].schema, entries[i].1, p.push(Segment::MapKey { key: entries[i].0 })).0.len()
            == 0 {
            0int
        } else {
            1int
        }) + invalid_leaf_count(fields, entries, p, i + 1)
    }
}

/// Missing-field checks report nothing once every field was seen.
proof fn lemma_missing_all_seen(fields: Seq<FieldSchema>, seen: Set<int>, p: Seq<Segment>, j: int)
    requires
        forall|x: int| 0 <= x < fields.len() ==> seen.contains(x),
    ensures
        acc_missing(fields, seen, p, j).len() == 0,
    decreases fields.len() - j,
{
    if j < 0 || j >= fields.len() {
    } else {
        lemma_missing_all_seen(fields, seen, p, j + 1);
    }
}

/// The induction behind [`lemma_record_completeness`], generalized over
/// the walk position and the fields already seen.
proof fn lemma_entries_completeness(
    fields: Seq<FieldSchema>,
    deny: bool,
    entries: Seq<(String, Content)>,
    p: Seq<Segment>,
    i: int,
    seen: Set<int>,
)
    requires
        0 <= i <= entries.len(),
        entries.len() == fields.len(),
        forall|k: int| i <= k < entries.len() ==> find_field(fields, entries[k].0@, 0) == k,
        forall|k: int|
            i <= k < entries.len() ==> is_primitive(#[trigger] fields[k].schema)
                && !fields[k].compat,
        forall|x: int| seen.contains(x) <==> 0 <= x < i,
    ensures
        ({
            let r = acc_entries(fields, deny, entries, p, i, seen);
            &&& r.1 is None
            &&& r.0.len() == invalid_leaf_count(fields, entries, p, i)
            &&& forall|j: int|
                #![trigger r.0[j]]
                0 <= j < r.0.len() ==> exists|k: int|
                    #![auto]
                    i <= k < entries.len() && r.0[j].path == Some(
                        p.push(Segment::MapKey { key: entries[k].0 }),
                    ) && acc(
                        fields[k].schema,
                        entries[k].1,
                        p.push(Segment::MapKey { key: entries[k].0 }),
                    ).0.len() > 0
        }),
    decreases entries.len() - i,
{
    if i >= entries.len() {
        lemma_missing_all_seen(fields, seen, p, 0);
    } else {
        let q = p.push(Segment::MapKey { key: entries[i].0 });
        let sub = acc(fields[i].schema, entries[i].1, q);
        lemma_primitive_acc(fields[i].schema, entries[i].1, q);
        let seen2 = seen.insert(i);
        assert(forall|x: int| seen2.contains(x) <==> 0 <= x < i + 1);
        lemma_entries_completeness(fields, deny, entries, p, i + 1, seen2);
        let rest = acc_entries(fields, deny, entries, p, i + 1, seen2);
        let r = acc_entries(fields, deny, entries, p, i, seen);
        assert(r.0 =~= sub.0 + rest.0);
        assert forall|j: int| #![trigger r.0[j]] 0 <= j < r.0.len() implies exists|k: int|
            #![auto]
            i <= k < entries.len() && r.0[j].path == Some(
                p.push(Segment::MapKey { key: entries[k].0 }),
            ) && acc(
                fields[k].schema,
                entries[k].1,
                p.push(Segment::MapKey { key: entries[k].0 }),
            ).0.len() > 0 by {
            if j < sub.0.len() {
                assert(r.0[j] == sub.0[0]);
                assert(r.0[j].path == Some(q));
            } else {
                assert(r.0[j] == rest.0[j - sub.0.len()]);
            }
        }
    }
}

/// Law (completeness): for a record of independently decoded primitive
/// fields, each supplied once and in declaration order, the
/// accumulating pass reports exactly one error per invalid field, each
/// at the invalid field's own key path, and never fails hard.
pub proof fn lemma_record_completeness(
    rs: RecordSchema,
    entries: Vec<(String, Content)>,
    p: Seq<Segment>,
)
    requires
        entries@.len() == rs.fields@.len(),
        forall|k: int| 0 <= k < entries@.len() ==> find_field(rs.fields@, entries@[k].0@, 0) == k,
        forall|k: int|
            0 <= k < entries@.len() ==> is_primitive(#[trigger] rs.fields@[k].schema)
                && !rs.fields@[k].compat,
    ensures
        ({
            let a = acc(Schema::Record(rs), Content::Object(entries), p);
            &&& !(a.1 is Failed)
            &&& a.0.len() == invalid_leaf_count(rs.fields@, entries@, p, 0)
            &&& forall|j: int|
                #![trigger a.0[j]]
                0 <= j < a.0.len() ==> exists|k: int|
                    #![auto]
                    0 <= k < entries@.len() && a.0[j].path == Some(
                        p.push(Segment::MapKey { key: entries@[k].0 }),
                    ) && acc(
                        rs.fields@[k].schema,
                        entries@[k].1,
                        p.push(Segment::MapKey { key: entries@[k].0 }),
                    ).0.len() > 0
        }),
{
    assert(forall|x: int| Set::<int>::empty().contains(x) <==> 0 <= x < 0);
    lemma_entries_completeness(rs.fields@, rs.deny_unknown, entries@, p, 0, Set::empty());
}

/// Pointing at the same place is reflexive.
proof fn lemma_seg_like_refl(a: Segment)
    ensures
        seg_like(a, a),
{
}

/// Pointing at the same place is transitive.
proof fn lemma_seg_like_trans(a: Segment, b: Segment, c: Segment)
    requires
        seg_like(a, b),
        seg_like(b, c),
    ensures
        seg_like(a, c),
{
}

/// Every path is a prefix of itself.
proof fn lemma_prefix_refl(p: Seq<Segment>)
    ensures
        is_path_prefix(p, p),
{
    assert forall|i: int| 0 <= i < p.len() implies seg_like(p[i], p[i]) by {
        lemma_seg_like_refl(p[i]);
    }
}

/// A path is a prefix of itself extended by one segment.
proof fn lemma_prefix_push(p: Seq<Segment>, s: Segment)
    ensures
        is_path_prefix(p, p.push(s)),
{
    assert forall|i: int| 0 <= i < p.len() implies seg_like(p[i], p.push(s)[i]) by {
        lemma_seg_like_refl(p[i]);
    }
}

/// The prefix relation is transitive.
proof fn lemma_prefix_trans(a: Seq<Segment>, b: Seq<Segment>, c: Seq<Segment>)
    requires
        is_path_prefix(a, b),
        is_path_prefix(b, c),
    ensures
        is_path_prefix(a, c),
{
    assert forall|i: int| 0 <= i < a.len() implies seg_like(a[i], c[i]) by {
        lemma_seg_like_trans(a[i], b[i], c[i]);
    }
}

/// Whether every error in the list carries a path extending `p`.
pub open spec fn errors_under(errs: Seq<crate::errors::ErrorModel>, p: Seq<Segment>) -> bool {
    forall|j: int|
        0 <= j < errs.len() ==> ((#[trigger] errs[j]).path matches Some(q) && is_path_prefix(p, q))
}

/// Errors under a longer prefix are under a shorter one too.
proof fn lemma_errors_under_shorten(
    errs: Seq<crate::errors::ErrorModel>,
    p: Seq<Segment>,
    q: Seq<Segment>,
)
    requires
        is_path_prefix(p, q),
        errors_under(errs, q),
    ensures
        errors_under(errs, p),
{
    assert forall|j: int| 0 <= j < errs.len() implies ((#[trigger] errs[j]).path matches Some(w)
        && is_path_prefix(p, w)) by {
        let w = errs[j].path->0;
        lemma_prefix_trans(p, q, w);
    }
}

/// Two error lists under the same prefix concatenate to one.
proof fn lemma_errors_under_concat(
    a: Seq<crate::errors::ErrorModel>,
    b: Seq<crate::errors::ErrorModel>,
    p: Seq<Segment>,
)
    requires
        errors_under(a, p),
        errors_under(b, p),
    ensures
        errors_under(a + b, p),
{
    assert forall|j: int| #![trigger (a + b)[j]] 0 <= j < (a + b).len() implies ((a + b)[j].path
        matches Some(w) && is_path_prefix(p, w)) by {
        if j < a.len() {
            assert((a + b)[j] == a[j]);
        } else {
            assert((a + b)[j] == b[j - a.len()]);
        }
    }
}

/// Law (path correctness): every error an accumulating decode reports
/// carries a path, and that path extends the position of the value
/// being decoded.
pub proof fn lemma_paths_extend(s: Schema, v: Content, p: Seq<Segment>)
    ensures
        errors_under(acc(s, v, p).0, p),
    decreases v, s, 2int, 0int,
{
    lemma_prefix_refl(p);
    match s {
        Schema::Optional(inner) => match v {
            Content::Null => {},
            _ => {
                lemma_paths_extend(*inner, v, p);
            },
        },
        Schema::Sequence(es) => match v {
            Content::List(elems) => {
                lemma_elems_paths(*es, elems@, p, 0);
            },
            _ => {},
        },
        Schema::FixedArray(es, n) => match v {
            Content::List(elems) => {
                lemma_elems_paths(*es, elems@, p, 0);
            },
            _ => {},
        },
        Schema::Tuple(ss) => match v {
            Content::List(elems) => {
                lemma_pairs_paths(ss@, elems@, p, 0);
            },
            _ => {},
        },
        Schema::Mapping(vs) => match v {
            Content::Object(entries) => {
                lemma_map_entries_paths(*vs, entries@, p, 0);
            },
            _ => {},
        },
        Schema::Record(rs) => match v {
            Content::Object(entries) => {
                lemma_entries_paths(rs.fields@, rs.deny_unknown, entries@, p, 0, Set::empty());
            },
            _ => {},
        },
        Schema::Enumeration(vars) => match v {
            Content::Text(name) => {
                lemma_prefix_push(p, Segment::EnumVariant { variant: name });
            },
            Content::Object(entries) => {
                if entries@.len() == 1 {
                    let name = entries@[0].0;
                    let q = p.push(Segment::EnumVariant { variant: name });
                    lemma_prefix_push(p, Segment::EnumVariant { variant: name });
                    let vi = find_variant(vars@, name@, 0);
                    if vi >= 0 {
                        lemma_paths_extend(payload_schema(vars@[vi].payload), entries@[0].1, q);
                        lemma_errors_under_shorten(
                            acc(payload_schema(vars@[vi].payload), entries@[0].1, q).0,
                            p,
                            q,
                        );
                    }
                }
            },
            _ => {},
        },
        _ => {},
    }
}

/// The elements' errors all sit under the sequence's position.
proof fn lemma_elems_paths(es: Schema, elems: Seq<Content>, p: Seq<Segment>, i: int)
    ensures
        errors_under(acc_elems(es, elems, p, i), p),
    decreases elems, es, 3int, elems.len() - i,
{
    if i < 0 || i >= elems.len() {
    } else {
        let q = p.push(Segment::SeqIndex { index: i as usize });
        lemma_prefix_push(p, Segment::SeqIndex { index: i as usize });
        lemma_paths_extend(es, elems[i], q);
        let sub = acc(es, elems[i], q);
        lemma_errors_under_shorten(sub.0, p, q);
        let tail = match sub.1 {
            crate::model::OutcomeModel::Failed(m) => seq![crate::model::err_at(q, m)],
            _ => Seq::<crate::errors::ErrorModel>::empty(),
        };
        assert(errors_under(tail, p));
        lemma_errors_under_concat(sub.0, tail, p);
        lemma_elems_paths(es, elems, p, i + 1);
        lemma_errors_under_concat(sub.0 + tail, acc_elems(es, elems, p, i + 1), p);
    }
}

/// The positional elements' errors all sit under the run's position.
proof fn lemma_pairs_paths(ss: Seq<Schema>, elems: Seq<Content>, p: Seq<Segment>, i: int)
    ensures
        errors_under(acc_pairs(ss, elems, p, i), p),
    decreases elems, ss, 3int, elems.len() - i,
{
    if i < 0 || i >= elems.len() || i >= ss.len() {
    } else {
        let q = p.push(Segment::SeqIndex { index: i as usize });
        lemma_prefix_push(p, Segment::SeqIndex { index: i as usize });
        lemma_paths_extend(ss[i], elems[i], q);
        let sub = acc(ss[i], elems[i], q);
        lemma_errors_under_shorten(sub.0, p, q);
        let tail = match sub.1 {
            crate::model::OutcomeModel::Failed(m) => seq![crate::model::err_at(q, m)],
            _ => Seq::<crate::errors::ErrorModel>::empty(),
        };
        assert(errors_under(tail, p));
        lemma_errors_under_concat(sub.0, tail, p);
        lemma_pairs_paths(ss, elems, p, i + 1);
        lemma_errors_under_concat(sub.0 + tail, acc_pairs(ss, elems, p, i + 1), p);
    }
}

/// The map values' errors all sit under the map's position.
proof fn lemma_map_entries_paths(
    vs: Schema,
    entries: Seq<(String, Content)>,
    p: Seq<Segment>,
    i: int,
)
    ensures
        errors_under(acc_map_entries(vs, entries, p, i), p),
    decreases entries, vs, 3int, entries.len() - i,
{
    if i < 0 || i >= entries.len() {
    } else {
        let q = p.push(Segment::MapKey { key: entries[i].0 });
        lemma_prefix_push(p, Segment::MapKey { key: entries[i].0 });
        lemma_paths_extend(vs, entries[i].1, q);
        let sub = acc(vs, entries[i].1, q);
        lemma_errors_under_shorten(sub.0, p, q);
        let tail = match sub.1 {
            crate::model::OutcomeModel::Failed(m) => seq![crate::model::err_at(q, m)],
            _ => Seq::<crate::errors::ErrorModel>::empty(),
        };
        assert(errors_under(tail, p));
        lemma_errors_under_concat(sub.0, tail, p);
        lemma_map_entries_paths(vs, entries, p, i + 1);
        lemma_errors_under_concat(sub.0 + tail, acc_map_entries(vs, entries, p, i + 1), p);
    }
}

/// The missing-field errors all sit at the record's own position.
proof fn lemma_missing_paths(fields: Seq<FieldSchema>, seen: Set<int>, p: Seq<Segment>, j: int)
    ensures
        errors_under(acc_missing(fields, seen, p, j), p),
    decreases fields.len() - j,
{
    lemma_prefix_refl(p);
    if j < 0 || j >= fields.len() {
    } else {
        lemma_missing_paths(fields, seen, p, j + 1);
        let head = if !seen.contains(j) && !crate::model::field_may_be_absent(fields[j]) {
            seq![
                crate::model::err_at(
                    p,
                    crate::messages::spec_msg_missing_field(fields[j].name@),
                ),
            ]
        } else {
            Seq::<crate::errors::ErrorModel>::empty()
        };
        assert(errors_under(head, p));
        lemma_errors_under_concat(head, acc_missing(fields, seen, p, j + 1), p);
    }
}

/// The record's entry and missing errors all sit under the record's
/// position.
proof fn lemma_entries_paths(
    fields: Seq<FieldSchema>,
    deny: bool,
    entries: Seq<(String, Content)>,
    p: Seq<Segment>,
    i: int,
    seen: Set<int>,
)
    ensures
        errors_under(acc_entries(fields, deny, entries, p, i, seen).0, p),
    decreases entries, fields, 3int, entries.len() - i,
{
    if i < 0 || i >= entries.len() {
        lemma_missing_paths(fields, seen, p, 0);
    } else {
        let e = entries[i];
        let fi = find_field(fields, e.0@, 0);
        let q = p.push(Segment::MapKey { key: e.0 });
        lemma_prefix_push(p, Segment::MapKey { key: e.0 });
        if fi >= 0 {
            lemma_paths_extend(fields[fi].schema, e.1, q);
            let sub = acc(fields[fi].schema, e.1, q);
            lemma_errors_under_shorten(sub.0, p, q);
            let here = if fields[fi].compat {
                if sub.0.len() == 0 {
                    Seq::<crate::errors::ErrorModel>::empty()
                } else {
                    seq![sub.0[0]]
                }
            } else {
                sub.0 + (match sub.1 {
                    crate::model::OutcomeModel::Failed(m) => seq![crate::model::err_at(q, m)],
                    _ => Seq::<crate::errors::ErrorModel>::empty(),
                })
            };
            if fields[fi].compat {
                assert(errors_under(here, p));
            } else {
                let tail = match sub.1 {
                    crate::model::OutcomeModel::Failed(m) => seq![crate::model::err_at(q, m)],
                    _ => Seq::<crate::errors::ErrorModel>::empty(),
                };
                assert(errors_under(tail, p));
                lemma_errors_under_concat(sub.0, tail, p);
            }
            lemma_entries_paths(fields, deny, entries, p, i + 1, seen.insert(fi));
            lemma_errors_under_concat(
                here,
                acc_entries(fields, deny, entries, p, i + 1, seen.insert(fi)).0,
                p,
            );
        } else if deny {
            assert(errors_under(acc_entries(fields, deny, entries, p, i, seen).0, p));
        } else {
            lemma_entries_paths(fields, deny, entries, p, i + 1, seen);
        }
    }
}

} // verus!
