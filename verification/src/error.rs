//! A wrapper around `std::io::Error` which knows which file it came from.

use vstd::prelude::*;
use vstd::string::StringExecFns;

use crate::text::contains_substring;
use crate::text::lemma_concat_extract;

verus! {

/// The low-level failure type that `IoError` wraps. Its values are opaque
/// here: the crate only stores them and hands them back.
#[verifier::external_type_specification]
#[verifier::external_body]
pub struct ExStdIoError(std::io::Error);

/// Relies on `std::io::Error`'s `Display` implementation: the human-readable
/// description of the failure. Nothing is assumed about its content.
#[verifier::external_body]
pub(crate) fn io_error_text(err: &std::io::Error) -> String {
    format!("{}", err)
}

/// The message `IoError::message` renders for a path and a failure
/// description.
pub open spec fn io_error_message(path: Seq<char>, cause: Seq<char>) -> Seq<char> {
    "Encountered an error while opening the file at "@ + path + ": "@ + cause
}

/// Every rendered `IoError` message contains the path it speaks of.
pub proof fn lemma_io_error_message_contains_path(path: Seq<char>, cause: Seq<char>)
    ensures
        contains_substring(io_error_message(path, cause), path),
{
    let m = io_error_message(path, cause);
    assert(m =~= "Encountered an error while opening the file at "@ + path + (": "@ + cause));
    lemma_concat_extract(
        m,
        "Encountered an error while opening the file at "@,
        path,
        ": "@ + cause,
    );
}

/// A low-level I/O failure annotated with the path of the file on which it
/// happened. Always carries both pieces.
#[derive(Debug)]
pub struct IoError {
    path: String,
    err: std::io::Error,
}

impl IoError {
    /// The annotated path, as a sequence of characters.
    pub closed spec fn spec_path(&self) -> Seq<char> {
        self.path@
    }

    /// The wrapped low-level failure.
    pub closed spec fn spec_err(&self) -> std::io::Error {
        self.err
    }

    /// Pairs a low-level failure with the path it occurred on; the only way
    /// to construct an `IoError`.
    pub fn new(path: String, err: std::io::Error) -> (e: IoError)
        ensures
            e.spec_path() == path@,
            e.spec_err() == err,
    {
        IoError { path, err }
    }

    /// The path of the file the failure occurred on.
    pub fn path(&self) -> (p: &String)
        ensures
            p@ == self.spec_path(),
    {
        &self.path
    }

    /// Borrows the wrapped low-level failure.
    pub fn io_error(&self) -> (r: &std::io::Error)
        ensures
            *r == self.spec_err(),
    {
        &self.err
    }

    /// Unwraps back to the plain low-level failure, for callers that need the
    /// underlying kind.
    pub fn into_io_error(self) -> (r: std::io::Error)
        ensures
            r == self.spec_err(),
    {
        self.err
    }

    /// Renders the error for humans: the annotated path followed by the
    /// low-level failure's own description.
    pub fn message(&self) -> (m: String)
        ensures
            exists|cause: Seq<char>| m@ == io_error_message(self.spec_path(), cause),
            contains_substring(m@, self.spec_path()),
    {
        let cause = io_error_text(&self.err);
        let mut m = "Encountered an error while opening the file at ".to_owned();
        m.append(self.path.as_str());
        m.append(": ");
        m.append(cause.as_str());
        proof {
            assert(m@ == io_error_message(self.spec_path(), cause@));
            lemma_io_error_message_contains_path(self.spec_path(), cause@);
        }
        m
    }
}

} // verus!
