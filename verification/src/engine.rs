//! The permissive decoding engine: one pass that visits the whole input
//! and reports every independent error in place.
//!
//! The engine is verified against [`crate::model::acc`]: the reporter
//! ends up holding exactly the modelled error list, in order, and the
//! returned outcome is the modelled one.

use crate::errors::DeserializationError;
use crate::messages::{
    msg_count_mismatch, msg_invalid_length, msg_invalid_type, msg_invalid_value, msg_missing_field,
    msg_unknown_field, msg_unknown_variant, payload_desc, schema_desc, value_desc,
};
use crate::model::{
    acc, acc_elems, acc_entries, acc_map_entries, acc_missing, acc_pairs, err_at, find_field,
    find_variant, payload_schema, OutcomeModel,
};
use crate::path::{Path, Segment};
use crate::reporter::ErrorReporter;
use crate::schema::{FieldSchema, IntWidth, PayloadSchema, RecordSchema, Schema, VariantSchema};
use crate::tracker::PathTracker;
use crate::content::Content;
use vstd::prelude::*;

verus! {

broadcast use vstd::seq::group_seq_axioms;

/// What one permissive decode handed its caller; the executable twin of
/// [`OutcomeModel`].
pub enum Outcome {
    /// No error was found.
    Valid,
    /// Errors were found and reported in place.
    Invalid,
    /// The decode aborted; the caller reports the message at its own
    /// position.
    Failed(String),
}

/// The model an [`Outcome`] stands for.
pub open spec fn om(o: Outcome) -> OutcomeModel {
    match o {
        Outcome::Valid => OutcomeModel::Valid,
        Outcome::Invalid => OutcomeModel::Invalid,
        Outcome::Failed(m) => OutcomeModel::Failed(m@),
    }
}

/// The largest value an unsigned integer of the width admits.
fn umax_u64(w: &IntWidth) -> (r: u64)
    ensures
        r == crate::schema::spec_umax(*w),
{
    match w {
        IntWidth::W8 => 0xff,
        IntWidth::W16 => 0xffff,
        IntWidth::W32 => 0xffff_ffff,
        IntWidth::W64 => 0xffff_ffff_ffff_ffff,
    }
}

/// The largest value a signed integer of the width admits.
fn imax_i64(w: &IntWidth) -> (r: i64)
    ensures
        r == crate::schema::spec_imax(*w),
{
    match w {
        IntWidth::W8 => 0x7f,
        IntWidth::W16 => 0x7fff,
        IntWidth::W32 => 0x7fff_ffff,
        IntWidth::W64 => 0x7fff_ffff_ffff_ffff,
    }
}

/// The smallest value a signed integer of the width admits.
fn imin_i64(w: &IntWidth) -> (r: i64)
    ensures
        r == crate::schema::spec_imin(*w),
{
    match w {
        IntWidth::W8 => -0x80,
        IntWidth::W16 => -0x8000,
        IntWidth::W32 => -0x8000_0000,
        IntWidth::W64 => -0x8000_0000_0000_0000,
    }
}

/// Reports one error at the tracker's current position.
fn report_one(t: &PathTracker, rep: &mut ErrorReporter, msg: String)
    requires
        t.tracking(),
        old(rep).session_open(),
    ensures
        final(rep).session_open(),
        final(rep).reported() == old(rep).reported().push(err_at(t.cur(), msg@)),
{
    match t.current_path() {
        Some(p) => {
            rep.report(DeserializationError::new(Some(p), msg));
        },
        None => {
            proof {
                assert(false);
            }
        },
    }
}

/// A fresh tracker positioned at the given path, for a decode that runs
/// in a session of its own.
#[verifier::loop_isolation(false)]
fn tracker_at(p: &Path) -> (t: PathTracker)
    ensures
        t.tracking(),
        t.cur() == p@,
        t.stash() is None,
{
    let mut t = PathTracker::new();
    t.init();
    let segs = p.segments();
    let mut i: usize = 0;
    while i < segs.len()
        invariant
            i <= segs.len(),
            segs@ == p@,
            t.tracking(),
            t.stash() is None,
            t.cur() == p@.subrange(0, i as int),
        decreases segs.len() - i,
    {
        t.push(segs[i].duplicate());
        proof {
            assert(p@.subrange(0, i as int).push(p@[i as int]) =~= p@.subrange(0, (i + 1) as int));
        }
        i = i + 1;
    }
    proof {
        assert(p@.subrange(0, p@.len() as int) =~= p@);
    }
    t
}

/// Permissively decodes `v` against `s` at the tracker's position,
/// reporting exactly the modelled errors and returning the modelled
/// outcome.
#[verifier::loop_isolation(false)]
pub fn decode_for_errors(s: &Schema, v: &Content, t: &mut PathTracker, rep: &mut ErrorReporter) -> (o:
    Outcome)
    requires
        old(t).tracking(),
        old(rep).session_open(),
    ensures
        final(t).tracking(),
        final(t).cur() == old(t).cur(),
        final(t).stash() == old(t).stash(),
        final(rep).session_open(),
        final(rep).reported() == old(rep).reported() + acc(*s, *v, old(t).cur()).0,
        om(o) == acc(*s, *v, old(t).cur()).1,
    decreases *v, *s, 2int, 0int,
{
    let ghost p = old(t).cur();
    let ghost r0 = old(rep).reported();
    match s {
        Schema::Bool => match v {
            Content::Bool(_) => {
                assert(r0 + acc(*s, *v, p).0 =~= r0);
                Outcome::Valid
            },
            _ => {
                let m = msg_invalid_type(value_desc(v).as_str(), schema_desc(s).as_str());
                report_one(t, rep, m);
                assert(rep.reported() =~= r0 + acc(*s, *v, p).0);
                Outcome::Invalid
            },
        },
        Schema::UInt(w) => {
            let in_range = match v {
                Content::UInt(u) => *u <= umax_u64(w),
                Content::NInt(i) => 0 <= *i && (*i as u64) <= umax_u64(w),
                _ => false,
            };
            let is_int = matches!(v, Content::UInt(_) | Content::NInt(_));
            if in_range {
                assert(r0 + acc(*s, *v, p).0 =~= r0);
                Outcome::Valid
            } else {
                let m = if is_int {
                    msg_invalid_value(value_desc(v).as_str(), schema_desc(s).as_str())
                } else {
                    msg_invalid_type(value_desc(v).as_str(), schema_desc(s).as_str())
                };
                report_one(t, rep, m);
                assert(rep.reported() =~= r0 + acc(*s, *v, p).0);
                Outcome::Invalid
            }
        },
        Schema::SInt(w) => {
            let in_range = match v {
                Content::UInt(u) => *u <= (imax_i64(w) as u64),
                Content::NInt(i) => imin_i64(w) <= *i && *i <= imax_i64(w),
                _ => false,
            };
            let is_int = matches!(v, Content::UInt(_) | Content::NInt(_));
            if in_range {
                assert(r0 + acc(*s, *v, p).0 =~= r0);
                Outcome::Valid
            } else {
                let m = if is_int {
                    msg_invalid_value(value_desc(v).as_str(), schema_desc(s).as_str())
                } else {
                    msg_invalid_type(value_desc(v).as_str(), schema_desc(s).as_str())
                };
                report_one(t, rep, m);
                assert(rep.reported() =~= r0 + acc(*s, *v, p).0);
                Outcome::Invalid
            }
        },
        Schema::Text => match v {
            Content::Text(_) => {
                assert(r0 + acc(*s, *v, p).0 =~= r0);
                Outcome::Valid
            },
            _ => {
                let m = msg_invalid_type(value_desc(v).as_str(), schema_desc(s).as_str());
                report_one(t, rep, m);
                assert(rep.reported() =~= r0 + acc(*s, *v, p).0);
                Outcome::Invalid
            },
        },
        Schema::Null => match v {
            Content::Null => {
                assert(r0 + acc(*s, *v, p).0 =~= r0);
                Outcome::Valid
            },
            _ => {
                let m = msg_invalid_type(value_desc(v).as_str(), schema_desc(s).as_str());
                report_one(t, rep, m);
                assert(rep.reported() =~= r0 + acc(*s, *v, p).0);
                Outcome::Invalid
            },
        },
        Schema::Optional(inner) => match v {
            Content::Null => {
                assert(r0 + acc(*s, *v, p).0 =~= r0);
                Outcome::Valid
            },
            _ => decode_for_errors(&**inner, v, t, rep),
        },
        Schema::Sequence(es) => match v {
            Content::List(elems) => {
                let n0 = rep.n_errors();
                proof {
                    assert(decreases_to!(*v => v->List_0));
                    assert(decreases_to!(v->List_0 => v->List_0@));
                }
                decode_elements(&**es, elems, t, rep);
                assert(rep.reported() =~= r0 + acc(*s, *v, p).0);
                if rep.n_errors() > n0 {
                    Outcome::Invalid
                } else {
                    assert(acc(*s, *v, p).0.len() == 0);
                    Outcome::Valid
                }
            },
            _ => {
                let m = msg_invalid_type(value_desc(v).as_str(), schema_desc(s).as_str());
                report_one(t, rep, m);
                assert(rep.reported() =~= r0 + acc(*s, *v, p).0);
                Outcome::Invalid
            },
        },
        Schema::FixedArray(es, n) => match v {
            Content::List(elems) => {
                let n0 = rep.n_errors();
                proof {
                    assert(decreases_to!(*v => v->List_0));
                    assert(decreases_to!(v->List_0 => v->List_0@));
                }
                decode_elements(&**es, elems, t, rep);
                if elems.len() != *n {
                    report_one(t, rep, msg_count_mismatch(*n, elems.len()));
                }
                assert(rep.reported() =~= r0 + acc(*s, *v, p).0);
                if rep.n_errors() > n0 {
                    Outcome::Invalid
                } else {
                    assert(acc(*s, *v, p).0.len() == 0);
                    Outcome::Valid
                }
            },
            _ => {
                let m = msg_invalid_type(value_desc(v).as_str(), schema_desc(s).as_str());
                report_one(t, rep, m);
                assert(rep.reported() =~= r0 + acc(*s, *v, p).0);
                Outcome::Invalid
            },
        },
        Schema::Tuple(ss) => decode_tuple(ss, v, t, rep),
        Schema::Mapping(vs) => match v {
            Content::List(_) | Content::Null | Content::Bool(_) | Content::UInt(_) | Content::NInt(_)
            | Content::Decimal(_) | Content::Text(_) => {
                let m = msg_invalid_type(value_desc(v).as_str(), schema_desc(s).as_str());
                report_one(t, rep, m);
                assert(rep.reported() =~= r0 + acc(*s, *v, p).0);
                Outcome::Invalid
            },
            Content::Object(entries) => {
                let n0 = rep.n_errors();
                let mut i: usize = 0;
                while i < entries.len()
                    invariant
                        i <= entries.len(),
                        t.tracking(),
                        t.cur() == p,
                        t.stash() == old(t).stash(),
                        rep.session_open(),
                        rep.reported() + acc_map_entries(**vs, entries@, p, i as int) =~= r0
                            + acc_map_entries(**vs, entries@, p, 0),
                    decreases entries.len() - i,
                {
                    let ghost rpre = rep.reported();
                    let ghost q = p.push(Segment::MapKey { key: entries@[i as int].0 });
                    t.push(Segment::MapKey { key: entries[i].0.clone() });
                    proof {
                        assert(decreases_to!(*v => v->Object_0));
                        assert(decreases_to!(v->Object_0 => v->Object_0@));
                        assert(decreases_to!(v->Object_0@ => v->Object_0@[i as int]));
                        assert(decreases_to!(v->Object_0@[i as int] => v->Object_0@[i as int].1));
                    }
                    let o = decode_for_errors(&**vs, &entries[i].1, t, rep);
                    if let Outcome::Failed(m) = o {
                        report_one(t, rep, m);
                    }
                    t.pop();
                    proof {
                        assert(q.drop_last() =~= p);
                        let sub = acc(**vs, entries@[i as int].1, q);
                        let here = sub.0 + (match sub.1 {
                            OutcomeModel::Failed(m) => seq![err_at(q, m)],
                            _ => Seq::<crate::errors::ErrorModel>::empty(),
                        });
                        assert(rep.reported() =~= rpre + here);
                        assert(acc_map_entries(**vs, entries@, p, i as int) =~= here
                            + acc_map_entries(**vs, entries@, p, i + 1));
                        assert(rep.reported() + acc_map_entries(**vs, entries@, p, i + 1) =~= r0
                            + acc_map_entries(**vs, entries@, p, 0));
                    }
                    i = i + 1;
                }
                assert(rep.reported() =~= r0 + acc(*s, *v, p).0);
                if rep.n_errors() > n0 {
                    Outcome::Invalid
                } else {
                    assert(acc(*s, *v, p).0.len() == 0);
                    Outcome::Valid
                }
            },
        },
        Schema::Record(rs) => decode_record(rs, v, t, rep),
        Schema::Enumeration(vars) => decode_enum(vars, v, t, rep),
    }
}

/// Decodes the elements of a list in place, one index segment each; a
/// hard element failure is reported once more at the element's position.
#[verifier::loop_isolation(false)]
fn decode_elements(es: &Schema, elems: &Vec<Content>, t: &mut PathTracker, rep: &mut ErrorReporter)
    requires
        old(t).tracking(),
        old(rep).session_open(),
    ensures
        final(t).tracking(),
        final(t).cur() == old(t).cur(),
        final(t).stash() == old(t).stash(),
        final(rep).session_open(),
        final(rep).reported() == old(rep).reported() + acc_elems(*es, elems@, old(t).cur(), 0),
    decreases elems@, *es, 3int, 0int,
{
    let ghost p = old(t).cur();
    let ghost r0 = old(rep).reported();
    let mut i: usize = 0;
    while i < elems.len()
        invariant
            i <= elems.len(),
            t.tracking(),
            t.cur() == p,
            t.stash() == old(t).stash(),
            rep.session_open(),
            rep.reported() + acc_elems(*es, elems@, p, i as int) =~= r0 + acc_elems(
                *es,
                elems@,
                p,
                0,
            ),
        decreases elems.len() - i,
    {
        let ghost rpre = rep.reported();
        let ghost q = p.push(Segment::SeqIndex { index: i });
        t.push(Segment::SeqIndex { index: i });
        proof {
            assert(decreases_to!(elems@ => elems@[i as int]));
        }
        let o = decode_for_errors(es, &elems[i], t, rep);
        if let Outcome::Failed(m) = o {
            report_one(t, rep, m);
        }
        t.pop();
        proof {
            assert(q.drop_last() =~= p);
            let sub = acc(*es, elems@[i as int], q);
            let here = sub.0 + (match sub.1 {
                OutcomeModel::Failed(m) => seq![err_at(q, m)],
                _ => Seq::<crate::errors::ErrorModel>::empty(),
            });
            assert(rep.reported() =~= rpre + here);
            assert(acc_elems(*es, elems@, p, i as int) =~= here + acc_elems(
                *es,
                elems@,
                p,
                i + 1,
            ));
            assert(rep.reported() + acc_elems(*es, elems@, p, i + 1) =~= r0 + acc_elems(
                *es,
                elems@,
                p,
                0,
            ));
        }
        i = i + 1;
    }
}

/// Decodes a fixed run of positionally typed elements: pairwise under
/// index segments, then one arity error at the run's own position when
/// the lengths differ.
#[verifier::loop_isolation(false)]
fn decode_tuple(ss: &Vec<Schema>, v: &Content, t: &mut PathTracker, rep: &mut ErrorReporter) -> (o:
    Outcome)
    requires
        old(t).tracking(),
        old(rep).session_open(),
    ensures
        final(t).tracking(),
        final(t).cur() == old(t).cur(),
        final(t).stash() == old(t).stash(),
        final(rep).session_open(),
        final(rep).reported() == old(rep).reported() + acc(
            Schema::Tuple(*ss),
            *v,
            old(t).cur(),
        ).0,
        om(o) == acc(Schema::Tuple(*ss), *v, old(t).cur()).1,
    decreases *v, *ss, 1int, 0int,
{
    let ghost p = old(t).cur();
    let ghost r0 = old(rep).reported();
    let ghost st = Schema::Tuple(*ss);
    match v {
        Content::List(elems) => {
            let n0 = rep.n_errors();
            let mut i: usize = 0;
            while i < elems.len() && i < ss.len()
                invariant
                    i <= elems.len(),
                    i <= ss.len(),
                    t.tracking(),
                    t.cur() == p,
                    t.stash() == old(t).stash(),
                    rep.session_open(),
                    rep.reported() + acc_pairs(ss@, elems@, p, i as int) =~= r0 + acc_pairs(
                        ss@,
                        elems@,
                        p,
                        0,
                    ),
                decreases elems.len() - i,
            {
                let ghost rpre = rep.reported();
                let ghost q = p.push(Segment::SeqIndex { index: i });
                t.push(Segment::SeqIndex { index: i });
                proof {
                    assert(decreases_to!(*v => v->List_0));
                    assert(decreases_to!(v->List_0 => v->List_0@));
                    assert(decreases_to!(v->List_0@ => v->List_0@[i as int]));
                }
                let o = decode_for_errors(&ss[i], &elems[i], t, rep);
                if let Outcome::Failed(m) = o {
                    report_one(t, rep, m);
                }
                t.pop();
                proof {
                    assert(q.drop_last() =~= p);
                    let sub = acc(ss@[i as int], elems@[i as int], q);
                    let here = sub.0 + (match sub.1 {
                        OutcomeModel::Failed(m) => seq![err_at(q, m)],
                        _ => Seq::<crate::errors::ErrorModel>::empty(),
                    });
                    assert(rep.reported() =~= rpre + here);
                    assert(acc_pairs(ss@, elems@, p, i as int) =~= here + acc_pairs(
                        ss@,
                        elems@,
                        p,
                        i + 1,
                    ));
                    assert(rep.reported() + acc_pairs(ss@, elems@, p, i + 1) =~= r0 + acc_pairs(
                        ss@,
                        elems@,
                        p,
                        0,
                    ));
                }
                i = i + 1;
            }
            proof {
                assert(acc_pairs(ss@, elems@, p, i as int) =~= Seq::<
                    crate::errors::ErrorModel,
                >::empty());
                assert(rep.reported() =~= r0 + acc_pairs(ss@, elems@, p, 0));
            }
            if elems.len() != ss.len() {
                report_one(t, rep, msg_invalid_length(elems.len(), ss.len()));
            }
            assert(rep.reported() =~= r0 + acc(st, *v, p).0);
            if rep.n_errors() > n0 {
                Outcome::Invalid
            } else {
                assert(acc(st, *v, p).0.len() == 0);
                Outcome::Valid
            }
        },
        _ => {
            let found = value_desc(v);
            let mut expected = String::from_str("a tuple of ");
            crate::render::append_u64(&mut expected, ss.len() as u64);
            expected.append(" elements");
            let m = msg_invalid_type(found.as_str(), expected.as_str());
            proof {
                assert(expected@ =~= crate::messages::spec_schema_desc(st));
            }
            report_one(t, rep, m);
            assert(rep.reported() =~= r0 + acc(st, *v, p).0);
            Outcome::Invalid
        },
    }
}

/// Finds the first field with the given name.
#[verifier::loop_isolation(false)]
fn find_field_index(fields: &Vec<FieldSchema>, key: &String) -> (r: Option<usize>)
    ensures
        match r {
            Some(k) => k < fields@.len() && find_field(fields@, key@, 0) == k as int,
            None => find_field(fields@, key@, 0) == -1,
        },
{
    let mut j: usize = 0;
    while j < fields.len()
        invariant
            j <= fields.len(),
            find_field(fields@, key@, 0) == find_field(fields@, key@, j as int),
        decreases fields.len() - j,
    {
        if fields[j].name == *key {
            return Some(j);
        }
        j = j + 1;
    }
    None
}

/// Finds the first variant with the given name.
#[verifier::loop_isolation(false)]
fn find_variant_index(vars: &Vec<VariantSchema>, name: &String) -> (r: Option<usize>)
    ensures
        match r {
            Some(k) => k < vars@.len() && find_variant(vars@, name@, 0) == k as int,
            None => find_variant(vars@, name@, 0) == -1,
        },
{
    let mut j: usize = 0;
    while j < vars.len()
        invariant
            j <= vars.len(),
            find_variant(vars@, name@, 0) == find_variant(vars@, name@, j as int),
        decreases vars.len() - j,
    {
        if vars[j].name == *name {
            return Some(j);
        }
        j = j + 1;
    }
    None
}

/// Decodes a record: entries in input order, unknown keys skipped or,
/// when denied, reported and the decode stopped; missing-field checks
/// afterwards in declaration order.
#[verifier::loop_isolation(false)]
fn decode_record(rs: &RecordSchema, v: &Content, t: &mut PathTracker, rep: &mut ErrorReporter) -> (o:
    Outcome)
    requires
        old(t).tracking(),
        old(rep).session_open(),
    ensures
        final(t).tracking(),
        final(t).cur() == old(t).cur(),
        final(t).stash() == old(t).stash(),
        final(rep).session_open(),
        final(rep).reported() == old(rep).reported() + acc(
            Schema::Record(*rs),
            *v,
            old(t).cur(),
        ).0,
        om(o) == acc(Schema::Record(*rs), *v, old(t).cur()).1,
    decreases *v, *rs, 1int, 0int,
{
    let ghost p = old(t).cur();
    let ghost r0 = old(rep).reported();
    let ghost sr = Schema::Record(*rs);
    match v {
        Content::List(_) | Content::Null | Content::Bool(_) | Content::UInt(_) | Content::NInt(_)
        | Content::Decimal(_) | Content::Text(_) => {
            let found = value_desc(v);
            let m = msg_invalid_type(found.as_str(), "a map");
            proof {
                assert("a map"@ =~= crate::messages::spec_schema_desc(sr));
            }
            report_one(t, rep, m);
            assert(rep.reported() =~= r0 + acc(sr, *v, p).0);
            Outcome::Invalid
        },
        Content::Object(entries) => {
            let fields = &rs.fields;
            let n0 = rep.n_errors();
            let mut seen: Vec<bool> = Vec::new();
            let mut k: usize = 0;
            while k < fields.len()
                invariant
                    k <= fields.len(),
                    seen@.len() == k,
                    forall|x: int| 0 <= x < k ==> !seen@[x],
                decreases fields.len() - k,
            {
                seen.push(false);
                k = k + 1;
            }
            let ghost seenset = Set::<int>::empty();
            assert(forall|x: int| seenset.contains(x) <==> 0 <= x < seen@.len() && seen@[x]);
            let mut i: usize = 0;
            while i < entries.len()
                invariant
                    i <= entries.len(),
                    t.tracking(),
                    t.cur() == p,
                    t.stash() == old(t).stash(),
                    rep.session_open(),
                    seen@.len() == fields@.len(),
                    forall|x: int| seenset.contains(x) <==> 0 <= x < seen@.len() && seen@[x],
                    rep.reported() + acc_entries(
                        fields@,
                        rs.deny_unknown,
                        entries@,
                        p,
                        i as int,
                        seenset,
                    ).0 =~= r0 + acc_entries(
                        fields@,
                        rs.deny_unknown,
                        entries@,
                        p,
                        0,
                        Set::empty(),
                    ).0,
                    acc_entries(fields@, rs.deny_unknown, entries@, p, i as int, seenset).1
                        == acc_entries(fields@, rs.deny_unknown, entries@, p, 0, Set::empty()).1,
                decreases entries.len() - i,
            {
                let ghost rpre = rep.reported();
                let ghost q = p.push(Segment::MapKey { key: entries@[i as int].0 });
                let fi_opt = find_field_index(fields, &entries[i].0);
                match fi_opt {
                    Some(fi) => {
                        t.push(Segment::MapKey { key: entries[i].0.clone() });
                        proof {
                            assert(decreases_to!(*v => v->Object_0));
                            assert(decreases_to!(v->Object_0 => v->Object_0@));
                            assert(decreases_to!(v->Object_0@ => v->Object_0@[i as int]));
                            assert(decreases_to!(v->Object_0@[i as int] => v->Object_0@[i as int].1));
                        }
                        if fields[fi].compat {
                            let snap = match t.current_path() {
                                Some(sp) => sp,
                                None => Path::empty(),
                            };
                            let mut t2 = tracker_at(&snap);
                            let mut rep2 = ErrorReporter::new();
                            let g2 = rep2.start_deserialization();
                            let _ = decode_for_errors(
                                &fields[fi].schema,
                                &entries[i].1,
                                &mut t2,
                                &mut rep2,
                            );
                            let mut errs2 = rep2.take_errors();
                            rep2.finish_deserialization(g2);
                            proof {
                                assert(crate::errors::errors_view(errs2@) =~= acc(
                                    fields@[fi as int].schema,
                                    entries@[i as int].1,
                                    q,
                                ).0);
                            }
                            if errs2.len() > 0 {
                                let first = errs2.remove(0);
                                rep.report(first);
                            }
                        } else {
                            let o = decode_for_errors(
                                &fields[fi].schema,
                                &entries[i].1,
                                t,
                                rep,
                            );
                            if let Outcome::Failed(m) = o {
                                report_one(t, rep, m);
                            }
                        }
                        t.pop();
                        seen.set(fi, true);
                        proof {
                            assert(q.drop_last() =~= p);
                            let ghost fi_i = fi as int;
                            let sub = acc(fields@[fi_i].schema, entries@[i as int].1, q);
                            let here = if fields@[fi_i].compat {
                                if sub.0.len() == 0 {
                                    Seq::<crate::errors::ErrorModel>::empty()
                                } else {
                                    seq![sub.0[0]]
                                }
                            } else {
                                sub.0 + (match sub.1 {
                                    OutcomeModel::Failed(m) => seq![err_at(q, m)],
                                    _ => Seq::<crate::errors::ErrorModel>::empty(),
                                })
                            };
                            assert(rep.reported() =~= rpre + here);
                            let sprev = seenset;
                            seenset = seenset.insert(fi_i);
                            assert(forall|x: int|
                                seenset.contains(x) <==> 0 <= x < seen@.len() && seen@[x]);
                            assert(acc_entries(
                                fields@,
                                rs.deny_unknown,
                                entries@,
                                p,
                                i as int,
                                sprev,
                            ).0 =~= here + acc_entries(
                                fields@,
                                rs.deny_unknown,
                                entries@,
                                p,
                                i + 1,
                                seenset,
                            ).0);
                            assert(rep.reported() + acc_entries(
                                fields@,
                                rs.deny_unknown,
                                entries@,
                                p,
                                i + 1,
                                seenset,
                            ).0 =~= r0 + acc_entries(
                                fields@,
                                rs.deny_unknown,
                                entries@,
                                p,
                                0,
                                Set::empty(),
                            ).0);
                        }
                    },
                    None => {
                        if rs.deny_unknown {
                            t.push(Segment::MapKey { key: entries[i].0.clone() });
                            let m = msg_unknown_field(entries[i].0.as_str());
                            let m2 = m.clone();
                            report_one(t, rep, m);
                            t.pop();
                            proof {
                                assert(q.drop_last() =~= p);
                                assert(rep.reported() =~= r0 + acc(sr, *v, p).0);
                            }
                            return Outcome::Failed(m2);
                        }
                    },
                }
                i = i + 1;
            }
            let ghost seen_end = seenset;
            let mut j: usize = 0;
            while j < fields.len()
                invariant
                    j <= fields.len(),
                    t.tracking(),
                    t.cur() == p,
                    t.stash() == old(t).stash(),
                    rep.session_open(),
                    seen@.len() == fields@.len(),
                    forall|x: int| seen_end.contains(x) <==> 0 <= x < seen@.len() && seen@[x],
                    rep.reported() + acc_missing(fields@, seen_end, p, j as int) =~= r0
                        + acc_entries(fields@, rs.deny_unknown, entries@, p, 0, Set::empty()).0,
                decreases fields.len() - j,
            {
                let ghost rpre = rep.reported();
                let absent_ok = fields[j].default || matches!(fields[j].schema, Schema::Optional(_));
                if !seen[j] && !absent_ok {
                    report_one(t, rep, msg_missing_field(fields[j].name.as_str()));
                }
                proof {
                    assert(rep.reported() + acc_missing(fields@, seen_end, p, j + 1) =~= r0
                        + acc_entries(fields@, rs.deny_unknown, entries@, p, 0, Set::empty()).0);
                }
                j = j + 1;
            }
            proof {
                assert(acc_missing(fields@, seen_end, p, fields@.len() as int) =~= Seq::<
                    crate::errors::ErrorModel,
                >::empty());
                assert(rep.reported() =~= r0 + acc(sr, *v, p).0);
            }
            if rep.n_errors() > n0 {
                Outcome::Invalid
            } else {
                assert(acc(sr, *v, p).0.len() == 0);
                Outcome::Valid
            }
        },
    }
}

/// Decodes an externally tagged enum: a bare tag selects a unit
/// variant; a single-entry map selects a variant and decodes its
/// payload under the variant segment.
#[verifier::loop_isolation(false)]
fn decode_enum(vars: &Vec<VariantSchema>, v: &Content, t: &mut PathTracker, rep: &mut ErrorReporter)
    -> (o: Outcome)
    requires
        old(t).tracking(),
        old(rep).session_open(),
    ensures
        final(t).tracking(),
        final(t).cur() == old(t).cur(),
        final(t).stash() == old(t).stash(),
        final(rep).session_open(),
        final(rep).reported() == old(rep).reported() + acc(
            Schema::Enumeration(*vars),
            *v,
            old(t).cur(),
        ).0,
        om(o) == acc(Schema::Enumeration(*vars), *v, old(t).cur()).1,
    decreases *v, *vars, 1int, 0int,
{
    let ghost p = old(t).cur();
    let ghost r0 = old(rep).reported();
    let ghost se = Schema::Enumeration(*vars);
    match v {
        Content::Text(name) => {
            match find_variant_index(vars, name) {
                None => {
                    t.push(Segment::EnumVariant { variant: name.clone() });
                    let m = msg_unknown_variant(name.as_str());
                    let m2 = m.clone();
                    report_one(t, rep, m);
                    t.pop();
                    proof {
                        assert(p.push(Segment::EnumVariant { variant: *name }).drop_last() =~= p);
                        assert(rep.reported() =~= r0 + acc(se, *v, p).0);
                    }
                    Outcome::Failed(m2)
                },
                Some(vi) => {
                    if matches!(vars[vi].payload, PayloadSchema::Unit) {
                        assert(r0 + acc(se, *v, p).0 =~= r0);
                        Outcome::Valid
                    } else {
                        t.push(Segment::EnumVariant { variant: name.clone() });
                        let m = msg_invalid_type(
                            "unit variant",
                            payload_desc(&vars[vi].payload).as_str(),
                        );
                        report_one(t, rep, m);
                        t.pop();
                        proof {
                            assert(p.push(
                                Segment::EnumVariant { variant: *name },
                            ).drop_last() =~= p);
                            assert(rep.reported() =~= r0 + acc(se, *v, p).0);
                        }
                        Outcome::Invalid
                    }
                },
            }
        },
        Content::Object(entries) => {
            if entries.len() != 1 {
                let found = value_desc(v);
                let m = msg_invalid_type(found.as_str(), "an enum variant");
                proof {
                    assert("an enum variant"@ =~= crate::messages::spec_schema_desc(se));
                }
                report_one(t, rep, m);
                assert(rep.reported() =~= r0 + acc(se, *v, p).0);
                Outcome::Invalid
            } else {
                let name = &entries[0].0;
                let pv = &entries[0].1;
                let ghost q = p.push(Segment::EnumVariant { variant: entries@[0].0 });
                match find_variant_index(vars, name) {
                    None => {
                        t.push(Segment::EnumVariant { variant: name.clone() });
                        let m = msg_unknown_variant(name.as_str());
                        let m2 = m.clone();
                        report_one(t, rep, m);
                        t.pop();
                        proof {
                            assert(q.drop_last() =~= p);
                            assert(rep.reported() =~= r0 + acc(se, *v, p).0);
                        }
                        Outcome::Failed(m2)
                    },
                    Some(vi) => {
                        t.push(Segment::EnumVariant { variant: name.clone() });
                        proof {
                            assert(decreases_to!(*v => v->Object_0));
                            assert(decreases_to!(v->Object_0 => v->Object_0@));
                            assert(decreases_to!(v->Object_0@ => v->Object_0@[0]));
                            assert(decreases_to!(v->Object_0@[0] => v->Object_0@[0].1));
                        }
                        let o = match &vars[vi].payload {
                            PayloadSchema::Unit => {
                                let null_schema = Schema::Null;
                                decode_for_errors(&null_schema, pv, t, rep)
                            },
                            PayloadSchema::Newtype(b) => decode_for_errors(&**b, pv, t, rep),
                            PayloadSchema::Tuple(ss) => decode_tuple(ss, pv, t, rep),
                            PayloadSchema::Struct(rs) => decode_record(rs, pv, t, rep),
                        };
                        t.pop();
                        proof {
                            assert(q.drop_last() =~= p);
                            assert(acc(se, *v, p) == acc(
                                payload_schema(vars@[vi as int].payload),
                                entries@[0].1,
                                q,
                            ));
                            assert(rep.reported() =~= r0 + acc(se, *v, p).0);
                        }
                        o
                    },
                }
            }
        },
        _ => {
            let found = value_desc(v);
            let m = msg_invalid_type(found.as_str(), "an enum variant");
            proof {
                assert("an enum variant"@ =~= crate::messages::spec_schema_desc(se));
            }
            report_one(t, rep, m);
            assert(rep.reported() =~= r0 + acc(se, *v, p).0);
            Outcome::Invalid
        },
    }
}

} // verus!
