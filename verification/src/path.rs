//! Logical paths into structured input.
//!
//! A [`Path`] is an ordered sequence of [`Segment`]s and points at one
//! position in the input: an index into a sequence, a key of a map or
//! struct, or the name of an enum variant.  Paths are built up by the
//! tracker while the input is walked and frozen into error reports.

use crate::render::{append_u64, dec_rep, push_char};
use vstd::prelude::*;
use vstd::string::StringExecFns;

verus! {

/// Single segment of a path.
#[derive(Debug)]
pub enum Segment {
    /// An index into a sequence, rendered as `[i]`.
    SeqIndex { index: usize },
    /// A key of a map or struct, rendered as the key itself.
    MapKey { key: String },
    /// The name of an enum variant, rendered as the name itself.
    EnumVariant { variant: String },
}

/// Logical path to a location in the input, like `dependencies.serde.version`.
#[derive(Debug)]
pub struct Path {
    segments: Vec<Segment>,
}

impl Segment {
    /// An identical copy of this segment.
    pub fn duplicate(&self) -> (r: Segment)
        ensures
            r == *self,
    {
        match self {
            Segment::SeqIndex { index } => Segment::SeqIndex { index: *index },
            Segment::MapKey { key } => Segment::MapKey { key: key.clone() },
            Segment::EnumVariant { variant } => Segment::EnumVariant { variant: variant.clone() },
        }
    }
}

/// Whether two segments point at the same place: same index, or same key
/// or variant text.
pub open spec fn seg_like(a: Segment, b: Segment) -> bool {
    match a {
        Segment::SeqIndex { index: i } => b matches Segment::SeqIndex { index: j } && i == j,
        Segment::MapKey { key: k } => b matches Segment::MapKey { key: l } && k@ == l@,
        Segment::EnumVariant { variant: v } => b matches Segment::EnumVariant { variant: w } && v@
            == w@,
    }
}

/// Compares two segments by place: index against index, key or variant
/// text against the same.
pub fn segment_matches(a: &Segment, b: &Segment) -> (r: bool)
    ensures
        r == seg_like(*a, *b),
{
    match (a, b) {
        (Segment::SeqIndex { index: i }, Segment::SeqIndex { index: j }) => *i == *j,
        (Segment::MapKey { key: k }, Segment::MapKey { key: l }) => *k == *l,
        (Segment::EnumVariant { variant: v }, Segment::EnumVariant { variant: w }) => *v == *w,
        _ => false,
    }
}

/// Copies a segment vector element by element.
pub fn clone_segments(v: &Vec<Segment>) -> (r: Vec<Segment>)
    ensures
        r@ == v@,
{
    let mut out: Vec<Segment> = Vec::new();
    let mut i: usize = 0;
    while i < v.len()
        invariant
            i <= v.len(),
            out@ == v@.subrange(0, i as int),
        decreases v.len() - i,
    {
        out.push(v[i].duplicate());
        i = i + 1;
    }
    assert(out@ =~= v@);
    out
}

/// How one segment renders: `[i]` for a sequence index, the bare key or
/// variant name otherwise.
pub open spec fn spec_segment_display(s: Segment) -> Seq<char> {
    match s {
        Segment::SeqIndex { index } => seq!['['] + dec_rep(index as int) + seq![']'],
        Segment::MapKey { key } => key@,
        Segment::EnumVariant { variant } => variant@,
    }
}

/// How a non-empty path renders: segments joined by `.`, except that a
/// sequence index abuts the segment before it.
pub open spec fn spec_segments_display(s: Seq<Segment>) -> Seq<char>
    decreases s.len(),
{
    if s.len() <= 1 {
        if s.len() == 0 {
            Seq::<char>::empty()
        } else {
            spec_segment_display(s[0])
        }
    } else if s.last() is SeqIndex {
        spec_segments_display(s.drop_last()) + spec_segment_display(s.last())
    } else {
        spec_segments_display(s.drop_last()) + seq!['.'] + spec_segment_display(s.last())
    }
}

/// How a whole path renders: `.` when empty, the joined segments
/// otherwise.
pub open spec fn spec_path_display(s: Seq<Segment>) -> Seq<char> {
    if s.len() == 0 {
        seq!['.']
    } else {
        spec_segments_display(s)
    }
}

impl View for Path {
    type V = Seq<Segment>;

    closed spec fn view(&self) -> Seq<Segment> {
        self.segments@
    }
}

impl Path {
    /// The empty path.
    pub fn empty() -> (r: Path)
        ensures
            r@ == Seq::<Segment>::empty(),
    {
        Path { segments: Vec::new() }
    }

    /// Wraps a segment vector as a path.
    pub fn from_segments(segments: Vec<Segment>) -> (r: Path)
        ensures
            r@ == segments@,
    {
        Path { segments }
    }

    /// Returns `true` if there are no segments in this path,
    /// `false` otherwise.
    pub fn is_empty(&self) -> (r: bool)
        ensures
            r == (self@.len() == 0),
    {
        self.segments.len() == 0
    }

    /// The number of segments in the path.
    pub fn len(&self) -> (r: usize)
        ensures
            r == self@.len(),
    {
        self.segments.len()
    }

    /// The segments of the path, in order.
    pub fn segments(&self) -> (r: &Vec<Segment>)
        ensures
            r@ == self@,
    {
        &self.segments
    }

    /// A cursor over the segments of the path.
    pub fn iter(&self) -> (r: Segments)
        ensures
            r.segments@ == self@,
            r.position == 0,
    {
        Segments { segments: self.segments(), position: 0 }
    }

    /// An identical copy of this path.
    pub fn duplicate(&self) -> (r: Path)
        ensures
            r@ == self@,
    {
        Path { segments: clone_segments(&self.segments) }
    }

    /// Renders the path as text: segments joined by `.`, sequence
    /// indices as `[i]`, the empty path as `.`.
    pub fn to_display_string(&self) -> (r: String)
        ensures
            r@ == spec_path_display(self@),
    {
        if self.segments.len() == 0 {
            let mut s = String::new();
            push_char(&mut s, '.');
            assert(s@ =~= spec_path_display(self@));
            return s;
        }
        let mut s = String::new();
        let mut i: usize = 0;
        while i < self.segments.len()
            invariant
                i <= self.segments.len(),
                self.segments.len() > 0,
                s@ == spec_segments_display(self.segments@.subrange(0, i as int)),
            decreases self.segments.len() - i,
        {
            let ghost prefix = self.segments@.subrange(0, i as int);
            let needs_dot = i > 0 && !matches!(self.segments[i], Segment::SeqIndex { .. });
            if needs_dot {
                push_char(&mut s, '.');
            }
            match &self.segments[i] {
                Segment::SeqIndex { index } => {
                    push_char(&mut s, '[');
                    append_u64(&mut s, *index as u64);
                    push_char(&mut s, ']');
                },
                Segment::MapKey { key } => {
                    s.append(key.as_str());
                },
                Segment::EnumVariant { variant } => {
                    s.append(variant.as_str());
                },
            }
            proof {
                let next = self.segments@.subrange(0, (i + 1) as int);
                assert(next.drop_last() =~= prefix);
                assert(next.last() == self.segments@[i as int]);
                assert(s@ =~= spec_segments_display(next));
            }
            i = i + 1;
        }
        assert(self.segments@.subrange(0, self.segments@.len() as int) =~= self.segments@);
        s
    }
}

/// Cursor over the segments of a path, returned by [`Path::iter`].
pub struct Segments<'a> {
    /// The segments walked over.
    pub segments: &'a Vec<Segment>,
    /// How many segments have been handed out already.
    pub position: usize,
}

impl<'a> Segments<'a> {
    /// The next segment, or `None` once all segments have been seen.
    pub fn next(&mut self) -> (r: Option<&'a Segment>)
        ensures
            old(self).position < old(self).segments@.len() ==> r == Some(
                &old(self).segments[old(self).position as int],
            ) && final(self).position == old(self).position + 1,
            old(self).position >= old(self).segments@.len() ==> r is None && *final(self) == *old(
                self,
            ),
            final(self).segments == old(self).segments,
    {
        if self.position < self.segments.len() {
            let r = &self.segments[self.position];
            self.position = self.position + 1;
            Some(r)
        } else {
            None
        }
    }

    /// How many segments remain.
    pub fn len(&self) -> (r: usize)
        ensures
            r == if self.position <= self.segments@.len() {
                self.segments@.len() - self.position
            } else {
                0int
            },
    {
        if self.position <= self.segments.len() {
            self.segments.len() - self.position
        } else {
            0
        }
    }
}

} // verus!
