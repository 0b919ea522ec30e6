//! Session-scoped tracking of the current input path, with a stash for
//! the deepest path seen when an error surfaces.
//!
//! One tracker lives for the duration of one accumulating decode pass.
//! Segments are pushed immediately before descending into a child of the
//! input and popped immediately after returning from it, so the tracked
//! path always names the position of the read cursor.

use crate::path::{clone_segments, seg_like, segment_matches, Path, Segment};
use vstd::prelude::*;

verus! {

/// Returns `true` when `a` points segment by segment at a prefix of `b`
/// (possibly all of it).
pub open spec fn is_path_prefix(a: Seq<Segment>, b: Seq<Segment>) -> bool {
    a.len() <= b.len() && forall|i: int| 0 <= i < a.len() ==> seg_like(a[i], b[i])
}

/// What the stash holds after one stash request: the tracked path `cur`
/// replaces the stash unless nothing is tracked, or the tracked path is
/// a prefix of (so no deeper than) what is already stashed.
pub open spec fn stash_after(
    tracking: bool,
    cur: Seq<Segment>,
    stash: Option<Seq<Segment>>,
) -> Option<Seq<Segment>> {
    match stash {
        None => if tracking {
            Some(cur)
        } else {
            None
        },
        Some(t) => if tracking && !is_path_prefix(cur, t) {
            Some(cur)
        } else {
            Some(t)
        },
    }
}

/// Compares a candidate prefix against a path, place by place.
fn segments_start_with(b: &Vec<Segment>, a: &Vec<Segment>) -> (r: bool)
    ensures
        r == is_path_prefix(a@, b@),
{
    if a.len() > b.len() {
        return false;
    }
    let mut i: usize = 0;
    while i < a.len()
        invariant
            i <= a.len() <= b.len(),
            forall|j: int| 0 <= j < i ==> seg_like(a@[j], b@[j]),
        decreases a.len() - i,
    {
        if !segment_matches(&a[i], &b[i]) {
            return false;
        }
        i = i + 1;
    }
    true
}

/// Mutable per-session path state: the path being tracked and the path
/// stashed for the error being unwound, if any.
pub struct PathTracker {
    active: bool,
    current: Vec<Segment>,
    stashed: Option<Path>,
}

impl PathTracker {
    /// Whether tracking has been initialized.
    pub closed spec fn tracking(&self) -> bool {
        self.active
    }

    /// The path to the value currently being visited.
    pub closed spec fn cur(&self) -> Seq<Segment> {
        self.current@
    }

    /// The stashed error path, if one is held.
    pub closed spec fn stash(&self) -> Option<Seq<Segment>> {
        match self.stashed {
            Some(p) => Some(p@),
            None => None,
        }
    }

    /// A tracker with tracking not yet initialized and nothing stashed.
    pub fn new() -> (r: PathTracker)
        ensures
            !r.tracking(),
            r.stash() is None,
    {
        PathTracker { active: false, current: Vec::new(), stashed: None }
    }

    /// Starts tracking with an empty path; a second call keeps the path
    /// already tracked.
    pub fn init(&mut self)
        ensures
            final(self).tracking(),
            final(self).cur() == if old(self).tracking() {
                old(self).cur()
            } else {
                Seq::<Segment>::empty()
            },
            final(self).stash() == old(self).stash(),
    {
        if !self.active {
            self.active = true;
            self.current = Vec::new();
        }
    }

    /// Appends a segment to the tracked path; does nothing when tracking
    /// is not initialized.
    pub fn push(&mut self, segment: Segment)
        ensures
            old(self).tracking() ==> final(self).cur() == old(self).cur().push(segment),
            !old(self).tracking() ==> final(self).cur() == old(self).cur(),
            final(self).tracking() == old(self).tracking(),
            final(self).stash() == old(self).stash(),
    {
        if self.active {
            self.current.push(segment);
        }
    }

    /// Removes the last segment of the tracked path; does nothing when
    /// tracking is not initialized or the path is empty.
    pub fn pop(&mut self)
        ensures
            old(self).tracking() && old(self).cur().len() > 0 ==> final(self).cur() == old(
                self,
            ).cur().drop_last(),
            !(old(self).tracking() && old(self).cur().len() > 0) ==> final(self).cur() == old(
                self,
            ).cur(),
            final(self).tracking() == old(self).tracking(),
            final(self).stash() == old(self).stash(),
    {
        if self.active && self.current.len() > 0 {
            let _ = self.current.pop();
        }
    }

    /// A copy of the tracked path, or `None` when tracking is not
    /// initialized.
    pub fn current_path(&self) -> (r: Option<Path>)
        ensures
            self.tracking() ==> (r matches Some(p) && p@ == self.cur()),
            !self.tracking() ==> r is None,
    {
        if self.active {
            Some(Path::from_segments(clone_segments(&self.current)))
        } else {
            None
        }
    }

    /// Stashes the tracked path for error handling.
    ///
    /// The replacement only takes place if tracking is initialized and:
    ///
    /// - there is nothing stashed, or
    /// - the tracked path is not a prefix of the stashed path,
    ///
    /// so that the deepest path seen for one error episode is retained.
    pub fn stash_current_path_for_error(&mut self)
        ensures
            final(self).tracking() == old(self).tracking(),
            final(self).cur() == old(self).cur(),
            final(self).stash() == stash_after(
                old(self).tracking(),
                old(self).cur(),
                old(self).stash(),
            ),
    {
        if !self.active {
            return ;
        }
        let replace = match &self.stashed {
            None => true,
            Some(t) => !segments_start_with(t.segments(), &self.current),
        };
        if replace {
            self.stashed = Some(Path::from_segments(clone_segments(&self.current)));
        }
    }

    /// Drains and returns the stashed path.
    pub fn unstash_current_path_for_error(&mut self) -> (r: Option<Path>)
        ensures
            final(self).tracking() == old(self).tracking(),
            final(self).cur() == old(self).cur(),
            final(self).stash() is None,
            match old(self).stash() {
                Some(t) => (r matches Some(p) && p@ == t),
                None => r is None,
            },
    {
        self.stashed.take()
    }

    /// Tears tracking down; the stash is kept.
    pub fn try_unset(&mut self)
        ensures
            !final(self).tracking(),
            final(self).stash() == old(self).stash(),
    {
        self.active = false;
        self.current = Vec::new();
    }
}

} // verus!
