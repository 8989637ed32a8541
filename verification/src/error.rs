//! Status codes of the engine and the error type made of them.

use vstd::prelude::*;

verus! {

/// The call succeeded.
pub const SQLITE_OK: i32 = 0;

/// The database file cannot be opened. The library gives this status itself
/// where no database comes of an open and the engine has named no reason: a
/// path that the engine cannot be handed, or no handle after all.
pub const SQLITE_CANTOPEN: i32 = 14;

/// A string or blob is larger than the engine takes.
pub const SQLITE_TOOBIG: i32 = 18;

/// The engine's interface was used in a way it does not allow. It is what
/// the engine answers to any call on a null statement, and the library gives
/// it itself where a text holds no statement to prepare.
pub const SQLITE_MISUSE: i32 = 21;

/// A parameter index is out of range.
pub const SQLITE_RANGE: i32 = 25;

/// `sqlite3_step` has a row ready.
pub const SQLITE_ROW: i32 = 100;

/// `sqlite3_step` has finished the statement.
pub const SQLITE_DONE: i32 = 101;

/// A status code of the engine, by kind.
///
/// The five codes that this crate tells apart have a variant each; every
/// other code is an `Engine` error that keeps its number. `Success`, `Row`
/// and `Done` are statuses rather than failures, but the engine hands all of
/// them out as one integer, and a call that answers with one where it should
/// not has failed with it.
#[derive(Debug, Clone, Copy, PartialEq, Eq, Structural)]
pub enum Error {
    /// [`SQLITE_OK`].
    Success,
    /// [`SQLITE_ROW`].
    Row,
    /// [`SQLITE_DONE`].
    Done,
    /// [`SQLITE_TOOBIG`].
    TooBig,
    /// [`SQLITE_RANGE`].
    Range,
    /// Any other status code.
    Engine(i32),
}

impl Error {
    /// The error that stands for status `code`.
    pub open spec fn of(code: i32) -> Error {
        if code == SQLITE_OK {
            Error::Success
        } else if code == SQLITE_ROW {
            Error::Row
        } else if code == SQLITE_DONE {
            Error::Done
        } else if code == SQLITE_TOOBIG {
            Error::TooBig
        } else if code == SQLITE_RANGE {
            Error::Range
        } else {
            Error::Engine(code)
        }
    }

    /// The status code that `self` stands for.
    pub open spec fn status(self) -> i32 {
        match self {
            Error::Success => SQLITE_OK,
            Error::Row => SQLITE_ROW,
            Error::Done => SQLITE_DONE,
            Error::TooBig => SQLITE_TOOBIG,
            Error::Range => SQLITE_RANGE,
            Error::Engine(code) => code,
        }
    }

    /// No `Engine` error carries a code that has a variant of its own.
    pub open spec fn wf(self) -> bool {
        self matches Error::Engine(code) ==> Error::of(code) == self
    }

    /// What a call that answered `code` has to report: nothing on
    /// [`SQLITE_OK`], the error of any other code.
    pub open spec fn outcome(code: i32) -> Result<(), Error> {
        if code == SQLITE_OK {
            Ok(())
        } else {
            Err(Error::of(code))
        }
    }

    /// Classifies a status code.
    pub fn new(code: i32) -> (e: Error)
        ensures
            e == Error::of(code),
    {
        if code == SQLITE_OK {
            Error::Success
        } else if code == SQLITE_ROW {
            Error::Row
        } else if code == SQLITE_DONE {
            Error::Done
        } else if code == SQLITE_TOOBIG {
            Error::TooBig
        } else if code == SQLITE_RANGE {
            Error::Range
        } else {
            Error::Engine(code)
        }
    }

    /// The status code behind the error.
    pub fn code(&self) -> (code: i32)
        ensures
            code == self.status(),
    {
        match self {
            Error::Success => SQLITE_OK,
            Error::Row => SQLITE_ROW,
            Error::Done => SQLITE_DONE,
            Error::TooBig => SQLITE_TOOBIG,
            Error::Range => SQLITE_RANGE,
            Error::Engine(code) => *code,
        }
    }

    /// Turns the status of a call that returns nothing else into a result.
    pub fn result(code: i32) -> (r: Result<(), Error>)
        ensures
            r == Error::outcome(code),
    {
        match Error::new(code) {
            Error::Success => Ok(()),
            e => Err(e),
        }
    }
}

/// Errors and status codes correspond one to one: classifying a code loses
/// nothing, and different codes give different errors.
pub proof fn lemma_error_of_is_one_to_one(a: i32, b: i32)
    ensures
        Error::of(a).wf(),
        Error::of(a).status() == a,
        Error::of(a) == Error::of(b) <==> a == b,
{
}

/// A well-formed error is the one that its own status code gives.
pub proof fn lemma_error_of_status(e: Error)
    requires
        e.wf(),
    ensures
        Error::of(e.status()) == e,
{
}

} // verus!
