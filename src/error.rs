use vstd::prelude::*;
use vstd::std_specs::cmp::PartialEqSpec;

verus! {

/// The status codes that the binding layer itself reserves.
///
/// A LAPACKE routine returns a signed integer. Zero means success. The two
/// large negative values are reserved for failures of the layout adaptation
/// (the transposition of a row-major matrix for a column-major routine).
/// Any other status is the routine's own diagnostic and has no `Error` value.
#[derive(Clone, Copy, Debug, PartialEq, Eq, Structural)]
pub enum Error {
    NoError,
    WorkMemory,
    TransposeMemory,
}

/// The status integer that an error stands for.
pub open spec fn error_code(e: Error) -> i32 {
    match e {
        Error::NoError => 0,
        Error::WorkMemory => -1010i32,
        Error::TransposeMemory => -1011i32,
    }
}

/// The reserved condition that a status integer names, if it names one.
pub open spec fn error_of_code(status: i32) -> Option<Error> {
    if status == 0 {
        Some(Error::NoError)
    } else if status == -1010 {
        Some(Error::WorkMemory)
    } else if status == -1011 {
        Some(Error::TransposeMemory)
    } else {
        None
    }
}

impl Error {
    /// Reads a status integer as one of the reserved conditions; a routine's own
    /// diagnostic gives `None` and is left to the caller.
    pub fn from_code(status: i32) -> (r: Option<Error>)
        ensures
            r == error_of_code(status),
    {
        if status == 0 {
            Some(Error::NoError)
        } else if status == -1010 {
            Some(Error::WorkMemory)
        } else if status == -1011 {
            Some(Error::TransposeMemory)
        } else {
            None
        }
    }
}

impl From<Error> for i32 {
    fn from(value: Error) -> (r: i32)
        ensures
            r == error_code(value),
    {
        match value {
            Error::NoError => 0,
            Error::WorkMemory => -1010,
            Error::TransposeMemory => -1011,
        }
    }
}

impl vstd::std_specs::convert::FromSpecImpl<Error> for i32 {
    open spec fn obeys_from_spec() -> bool {
        true
    }

    open spec fn from_spec(v: Error) -> i32 {
        error_code(v)
    }
}

impl PartialEq<i32> for Error {
    fn eq(&self, other: &i32) -> (r: bool)
        ensures
            r == (error_code(*self) == *other),
    {
        i32::from(*self) == *other
    }
}

impl vstd::std_specs::cmp::PartialEqSpecImpl<i32> for Error {
    open spec fn obeys_eq_spec() -> bool {
        true
    }

    open spec fn eq_spec(&self, other: &i32) -> bool {
        error_code(*self) == *other
    }
}

impl PartialEq<Error> for i32 {
    fn eq(&self, other: &Error) -> (r: bool)
        ensures
            r == (error_code(*other) == *self),
    {
        other == self
    }
}

impl vstd::std_specs::cmp::PartialEqSpecImpl<Error> for i32 {
    open spec fn obeys_eq_spec() -> bool {
        true
    }

    open spec fn eq_spec(&self, other: &Error) -> bool {
        error_code(*other) == *self
    }
}

/// Comparing an error with a status integer gives the same answer from either
/// side, and the answer is true exactly when the status is the error's code.
/// In particular every error equals its own code.
pub proof fn lemma_status_eq_symmetric(e: Error, s: i32)
    ensures
        e.eq_spec(&s) == s.eq_spec(&e),
        e.eq_spec(&s) <==> s == error_code(e),
        e.eq_spec(&error_code(e)),
        error_code(e).eq_spec(&e),
{
}

/// Decoding the code of an error gives back that error; a status decodes to an
/// error exactly when it is that error's code, and every status other than
/// 0, -1010 and -1011 is left undecoded as the routine's own diagnostic.
pub proof fn lemma_error_round_trip(e: Error, s: i32)
    ensures
        error_of_code(error_code(e)) == Some(e),
        error_of_code(s) == Some(e) <==> error_code(e) == s,
        error_of_code(s) is None <==> (s != 0 && s != -1010 && s != -1011),
{
}

} // verus!
