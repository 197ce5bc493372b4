//! An open file handle paired with the path string that produced it.

use vstd::prelude::*;

use crate::error::IoError;
use crate::parser::NamedFileParser;

verus! {

/// A named file: an open, readable handle together with the path it was
/// opened from.
///
/// The handle type `T` is whatever the caller's platform opens files as; this
/// crate never looks inside it. A value is only constructed by
/// `NamedFileParser::parse`, which pairs the handle with the raw argument
/// text verbatim, so the path always names the file the handle was opened
/// from.
///
/// The reads on the handle itself happen at the caller's edge and advance the
/// handle's file position: reading twice without repositioning yields
/// progressively less data. `read` and `read_to_string` take what such a read
/// returned and finish the operation, annotating any failure with the path.
pub struct NamedFile<T> {
    pub file: T,
    pub path: String,
}

impl<T> NamedFile<T> {
    /// The parser that produces values of this type.
    pub fn value_parser() -> (p: NamedFileParser)
        ensures
            p == NamedFileParser,
    {
        NamedFileParser
    }

    /// Non-owning access to the open handle, for callers needing direct
    /// low-level I/O.
    pub fn file(&self) -> (f: &T)
        ensures
            *f == self.file,
    {
        &self.file
    }

    /// The path this file was opened from, verbatim as it was given.
    pub fn path(&self) -> (p: &String)
        ensures
            *p == self.path,
    {
        &self.path
    }

    /// Completes a whole-file byte read: takes what reading the handle to its
    /// end returned and either passes the bytes through unchanged or
    /// annotates the failure with this file's path. No retries.
    pub fn read(&self, bytes: Result<Vec<u8>, std::io::Error>) -> (r: Result<Vec<u8>, IoError>)
        ensures
            r is Ok <==> bytes is Ok,
            bytes is Ok ==> r->Ok_0 == bytes->Ok_0,
            bytes is Err ==> r->Err_0.spec_path() == self.path@ && r->Err_0.spec_err() == bytes->Err_0,
    {
        match bytes {
            Ok(output) => Ok(output),
            Err(err) => Err(IoError::new(self.path.clone(), err)),
        }
    }

    /// Completes a whole-file text read, exactly as `read` does for bytes.
    /// A decoding failure arrives here as the same low-level error type and
    /// is annotated the same way; no separate encoding-error kind exists.
    pub fn read_to_string(&self, text: Result<String, std::io::Error>) -> (r: Result<
        String,
        IoError,
    >)
        ensures
            r is Ok <==> text is Ok,
            text is Ok ==> r->Ok_0 == text->Ok_0,
            text is Err ==> r->Err_0.spec_path() == self.path@ && r->Err_0.spec_err() == text->Err_0,
    {
        match text {
            Ok(output) => Ok(output),
            Err(err) => Err(IoError::new(self.path.clone(), err)),
        }
    }
}

/// The capacity a whole-file read pre-sizes its output buffer with, from the
/// filesystem-reported size when one is available. A hint only: zero when the
/// size is unknown, clamped when it does not fit.
pub fn read_capacity(size: Option<u64>) -> (c: usize)
    ensures
        size is None ==> c == 0,
        size matches Some(n) ==> c as u64 <= n && (n <= usize::MAX as u64 ==> c as u64 == n),
{
    match size {
        Some(n) => {
            if n <= usize::MAX as u64 {
                n as usize
            } else {
                usize::MAX
            }
        },
        None => 0,
    }
}

} // verus!
