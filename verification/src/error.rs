//! The failures this crate reports, and the reading of the engine's raw
//! search return codes.

use vstd::prelude::*;
use crate::options::ERROR_NOMATCH;

verus! {

/// The phase a failure arose in.
#[derive(Clone, Copy, Debug, PartialEq, Eq, Structural)]
pub enum ErrorKind {
    /// The engine rejected the pattern at compile time.
    Compile,
    /// JIT compilation was demanded and failed.
    Jit,
    /// The engine reported a failure (other than "no match") during a search.
    Match,
}

/// An error reported by the engine: the phase, the raw engine code, and, for
/// compile-time errors, the offset in the pattern where it arose.
#[derive(Clone, Copy, Debug)]
pub struct Error {
    pub kind: ErrorKind,
    pub code: i32,
    pub offset: Option<usize>,
}

impl Error {
    /// An error from compiling a pattern.
    pub fn compile(code: i32, offset: usize) -> (r: Error)
        ensures
            r == (Error { kind: ErrorKind::Compile, code, offset: Some(offset) }),
    {
        Error { kind: ErrorKind::Compile, code, offset: Some(offset) }
    }

    /// An error from JIT-compiling a pattern.
    pub fn jit(code: i32) -> (r: Error)
        ensures
            r == (Error { kind: ErrorKind::Jit, code, offset: None }),
    {
        Error { kind: ErrorKind::Jit, code, offset: None }
    }

    /// An error from searching a subject.
    pub fn matching(code: i32) -> (r: Error)
        ensures
            r == (Error { kind: ErrorKind::Match, code, offset: None }),
    {
        Error { kind: ErrorKind::Match, code, offset: None }
    }

    /// Which phase the error arose in.
    pub fn kind(&self) -> (r: ErrorKind)
        ensures
            r == self.kind,
    {
        self.kind
    }

    /// The raw engine error code.
    pub fn code(&self) -> (r: i32)
        ensures
            r == self.code,
    {
        self.code
    }

    /// For compile errors, the offset in the pattern where the error arose.
    pub fn offset(&self) -> (r: Option<usize>)
        ensures
            r == self.offset,
    {
        self.offset
    }
}

/// How a raw engine search return code reads: a positive count of filled
/// offset pairs is a match, the dedicated code for "no match" is a normal
/// failed search, and everything else (including zero, which would mean the
/// offset buffer was too small for its own pattern) is an error.
pub open spec fn spec_match_outcome(rc: i32) -> Result<bool, Error> {
    if rc > 0 {
        Ok(true)
    } else if rc == ERROR_NOMATCH {
        Ok(false)
    } else {
        Err(Error { kind: ErrorKind::Match, code: rc, offset: None })
    }
}

/// Read the engine's raw search return code: `Ok(true)` on a match,
/// `Ok(false)` on "no match", an error otherwise.
pub fn match_outcome(rc: i32) -> (r: Result<bool, Error>)
    ensures
        r == spec_match_outcome(rc),
{
    let nomatch = crate::engine::nomatch_code();
    if rc > 0 {
        Ok(true)
    } else if rc == nomatch {
        Ok(false)
    } else {
        Err(Error::matching(rc))
    }
}

} // verus!
