use vstd::prelude::*;

verus! {

/// The native status for "no output yet, try again": `AVERROR(EAGAIN)`, the
/// negated `EAGAIN`, which is 11 on Linux, the target of these bindings.
pub const AVERROR_EAGAIN: i32 = -11;

/// The native status for end of stream: `AVERROR_EOF`, the negated tag "EOF ".
pub const AVERROR_EOF: i32 = -541478725;

/// Why a pull from a graph output produced no unit.
#[derive(Clone, Copy, Debug, PartialEq, Eq, Structural)]
pub enum Error {
    /// No unit is available yet; feed the graph more input and pull again.
    Again,
    /// No unit will ever be available on this output again.
    Eof,
    /// Any other negative native status, carried as it came.
    Other(i32),
}

/// The error that a negative native status stands for.
pub open spec fn error_of_status(status: i32) -> Error {
    if status == AVERROR_EAGAIN {
        Error::Again
    } else if status == AVERROR_EOF {
        Error::Eof
    } else {
        Error::Other(status)
    }
}

impl Error {
    /// Classifies a negative native status.
    pub fn from_status(status: i32) -> (e: Error)
        ensures
            e == error_of_status(status),
    {
        if status == AVERROR_EAGAIN {
            Error::Again
        } else if status == AVERROR_EOF {
            Error::Eof
        } else {
            Error::Other(status)
        }
    }

    /// The native status that this error carries.
    pub fn status(self) -> (r: i32)
        ensures
            r == status_of_error(self),
    {
        match self {
            Error::Again => AVERROR_EAGAIN,
            Error::Eof => AVERROR_EOF,
            Error::Other(s) => s,
        }
    }
}

/// The native status that an error carries.
pub open spec fn status_of_error(e: Error) -> i32 {
    match e {
        Error::Again => AVERROR_EAGAIN,
        Error::Eof => AVERROR_EOF,
        Error::Other(s) => s,
    }
}

} // verus!
