//! Error records produced by the accumulating pass.

use crate::path::{spec_path_display, Path, Segment};
use crate::render::push_char;
use vstd::prelude::*;
use vstd::string::StringExecFns;

verus! {

/// Mathematical shape of one error: an optional path and a message.
pub struct ErrorModel {
    /// The path at which the error occurred, when one was tracked.
    pub path: Option<Seq<Segment>>,
    /// The message text.
    pub message: Seq<char>,
}

/// An error that occurred during deserialization.
#[derive(Debug)]
pub struct DeserializationError {
    path: Option<Path>,
    details: String,
}

impl View for DeserializationError {
    type V = ErrorModel;

    closed spec fn view(&self) -> ErrorModel {
        ErrorModel {
            path: match self.path {
                Some(p) => Some(p@),
                None => None,
            },
            message: self.details@,
        }
    }
}

/// The view of every error in a sequence, in order.
pub open spec fn errors_view(s: Seq<DeserializationError>) -> Seq<ErrorModel> {
    s.map_values(|e: DeserializationError| e@)
}

/// How one error renders: the path, a colon and the message, or the
/// message alone when no path or an empty path is attached.
pub open spec fn spec_error_display(e: ErrorModel) -> Seq<char> {
    match e.path {
        Some(p) => if p.len() > 0 {
            spec_path_display(p) + seq![':', ' '] + e.message
        } else {
            e.message
        },
        None => e.message,
    }
}

impl DeserializationError {
    /// An error with the given path and message.
    pub fn new(path: Option<Path>, details: String) -> (r: DeserializationError)
        ensures
            r@ == (ErrorModel {
                path: match path {
                    Some(p) => Some(p@),
                    None => None,
                },
                message: details@,
            }),
    {
        DeserializationError { path, details }
    }

    /// An explanation of what went wrong during deserialization.
    pub fn message(&self) -> (r: &str)
        ensures
            r@ == self@.message,
    {
        self.details.as_str()
    }

    /// The input path at which the error occurred, when available.
    pub fn path(&self) -> (r: Option<&Path>)
        ensures
            match self@.path {
                Some(p) => (r matches Some(q) && q@ == p),
                None => r is None,
            },
    {
        match &self.path {
            Some(p) => Some(p),
            None => None,
        }
    }

    /// Renders the error as `path: message`, or the message alone when
    /// no non-empty path is attached.
    pub fn to_display_string(&self) -> (r: String)
        ensures
            r@ == spec_error_display(self@),
    {
        match &self.path {
            Some(p) => {
                if p.len() > 0 {
                    let mut s = p.to_display_string();
                    push_char(&mut s, ':');
                    push_char(&mut s, ' ');
                    s.append(self.details.as_str());
                    assert(s@ =~= spec_error_display(self@));
                    s
                } else {
                    self.details.clone()
                }
            },
            None => self.details.clone(),
        }
    }
}

/// A collection of errors encountered while trying to deserialize a type.
#[derive(Debug)]
pub struct DeserializationErrors {
    errors: Vec<DeserializationError>,
}

impl View for DeserializationErrors {
    type V = Seq<ErrorModel>;

    closed spec fn view(&self) -> Seq<ErrorModel> {
        errors_view(self.errors@)
    }
}

/// How a report of several errors renders: a heading, then one bulleted
/// line per error.
pub open spec fn spec_errors_display(s: Seq<ErrorModel>) -> Seq<char>
    decreases s.len(),
{
    if s.len() == 0 {
        Seq::<char>::empty()
    } else {
        spec_errors_display(s.drop_last()) + seq!['-', ' '] + spec_error_display(s.last())
            + seq!['\n']
    }
}

impl DeserializationErrors {
    /// Wraps a list of errors.
    pub fn new(errors: Vec<DeserializationError>) -> (r: DeserializationErrors)
        ensures
            r@ == errors_view(errors@),
    {
        DeserializationErrors { errors }
    }

    /// The number of errors in the collection.
    pub fn len(&self) -> (r: usize)
        ensures
            r == self@.len(),
    {
        proof {
            assert(self@.len() == self.errors@.len());
        }
        self.errors.len()
    }

    /// Returns `true` if the collection contains no errors.
    pub fn is_empty(&self) -> (r: bool)
        ensures
            r == (self@.len() == 0),
    {
        self.len() == 0
    }

    /// The error at the given position.
    pub fn get(&self, i: usize) -> (r: &DeserializationError)
        requires
            i < self@.len(),
        ensures
            r@ == self@[i as int],
    {
        &self.errors[i]
    }

    /// A cursor over the errors, in discovery order.
    pub fn iter(&self) -> (r: ErrorsIter)
        ensures
            errors_view(r.errors@) == self@,
            r.position == 0,
    {
        ErrorsIter { errors: &self.errors, position: 0 }
    }

    /// Renders the whole report: a heading line, then `- ` and one error
    /// per line.
    pub fn to_display_string(&self) -> (r: String)
        ensures
            r@ == "Something went wrong during deserialization:\n"@ + spec_errors_display(self@),
    {
        let mut s = String::from_str("Something went wrong during deserialization:\n");
        let mut i: usize = 0;
        while i < self.errors.len()
            invariant
                i <= self.errors.len(),
                s@ == "Something went wrong during deserialization:\n"@ + spec_errors_display(
                    errors_view(self.errors@.subrange(0, i as int)),
                ),
            decreases self.errors.len() - i,
        {
            let ghost prefix = errors_view(self.errors@.subrange(0, i as int));
            push_char(&mut s, '-');
            push_char(&mut s, ' ');
            let line = self.errors[i].to_display_string();
            s.append(line.as_str());
            push_char(&mut s, '\n');
            proof {
                let next = errors_view(self.errors@.subrange(0, (i + 1) as int));
                assert(next.drop_last() =~= prefix);
                assert(next.last() == self.errors@[i as int]@);
                assert(s@ =~= "Something went wrong during deserialization:\n"@
                    + spec_errors_display(next));
            }
            i = i + 1;
        }
        proof {
            assert(self.errors@.subrange(0, self.errors@.len() as int) =~= self.errors@);
        }
        s
    }
}

/// Cursor over a collection of errors, returned by
/// [`DeserializationErrors::iter`].
pub struct ErrorsIter<'a> {
    /// The errors walked over.
    pub errors: &'a Vec<DeserializationError>,
    /// How many errors have been handed out already.
    pub position: usize,
}

impl<'a> ErrorsIter<'a> {
    /// The next error, or `None` once all errors have been seen.
    pub fn next(&mut self) -> (r: Option<&'a DeserializationError>)
        ensures
            old(self).position < old(self).errors@.len() ==> r == Some(
                &old(self).errors[old(self).position as int],
            ) && final(self).position == old(self).position + 1,
            old(self).position >= old(self).errors@.len() ==> r is None && *final(self) == *old(
                self,
            ),
            final(self).errors == old(self).errors,
    {
        if self.position < self.errors.len() {
            let r = &self.errors[self.position];
            self.position = self.position + 1;
            Some(r)
        } else {
            None
        }
    }
}

} // verus!
