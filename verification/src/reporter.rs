//! The session-scoped buffer into which the accumulating pass reports
//! errors.

use crate::errors::{errors_view, DeserializationError, ErrorModel};
use vstd::prelude::*;

verus! {

/// The entry point for reporting errors during an accumulating decode
/// pass.
///
/// One reporter lives for the duration of one top-level decode call.
/// [`ErrorReporter::start_deserialization`] opens a session; reporting
/// appends; [`ErrorReporter::take_errors`] drains.  Reporting or
/// draining outside a session is a caller error and is ruled out by the
/// contracts.
pub struct ErrorReporter {
    active: bool,
    buffer: Vec<DeserializationError>,
}

/// Token returned by [`ErrorReporter::start_deserialization`]; it stands
/// for the open session and is consumed when the session is closed.
#[non_exhaustive]
pub struct ErrorReporterGuard {
}

impl ErrorReporter {
    /// Whether a deserialization session is open.
    pub closed spec fn session_open(&self) -> bool {
        self.active
    }

    /// The errors reported so far in this session, in discovery order.
    pub closed spec fn reported(&self) -> Seq<ErrorModel> {
        errors_view(self.buffer@)
    }

    /// A reporter with no open session.
    pub fn new() -> (r: ErrorReporter)
        ensures
            !r.session_open(),
    {
        ErrorReporter { active: false, buffer: Vec::new() }
    }

    /// Kicks off a deserialization session: the buffer is reset to empty
    /// and reporting becomes legal until the session is finished.
    pub fn start_deserialization(&mut self) -> (guard: ErrorReporterGuard)
        ensures
            final(self).session_open(),
            final(self).reported() == Seq::<ErrorModel>::empty(),
    {
        self.active = true;
        self.buffer = Vec::new();
        assert(errors_view(Seq::<DeserializationError>::empty())
            =~= Seq::<ErrorModel>::empty());
        ErrorReporterGuard {  }
    }

    /// Reports an error that occurred during deserialization.
    pub fn report(&mut self, error: DeserializationError)
        requires
            old(self).session_open(),
        ensures
            final(self).session_open(),
            final(self).reported() == old(self).reported().push(error@),
    {
        let ghost before = self.buffer@;
        self.buffer.push(error);
        proof {
            assert(errors_view(self.buffer@) =~= errors_view(before).push(self.buffer@.last()@));
        }
    }

    /// Drains and returns all errors reported so far; the buffer is
    /// empty afterwards and the session stays open.
    pub fn take_errors(&mut self) -> (r: Vec<DeserializationError>)
        requires
            old(self).session_open(),
        ensures
            final(self).session_open(),
            final(self).reported() == Seq::<ErrorModel>::empty(),
            errors_view(r@) == old(self).reported(),
    {
        let mut r = Vec::new();
        core::mem::swap(&mut r, &mut self.buffer);
        assert(errors_view(Seq::<DeserializationError>::empty())
            =~= Seq::<ErrorModel>::empty());
        r
    }

    /// The number of errors reported so far in this session.
    pub fn n_errors(&self) -> (r: usize)
        requires
            self.session_open(),
        ensures
            r == self.reported().len(),
    {
        proof {
            assert(self.reported().len() == self.buffer@.len());
        }
        self.buffer.len()
    }

    /// Closes the session opened by
    /// [`ErrorReporter::start_deserialization`], consuming its guard and
    /// clearing the buffer.
    pub fn finish_deserialization(&mut self, guard: ErrorReporterGuard)
        ensures
            !final(self).session_open(),
    {
        let _ = guard;
        self.active = false;
        self.buffer = Vec::new();
    }
}

} // verus!
