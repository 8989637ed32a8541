//! A prepared statement: whether it stands on a row, and what follows from it.

use crate::engine::{Call, SQLITE_BLOB, SQLITE_INTEGER, SQLITE_NULL};
use crate::error::{Error, SQLITE_DONE, SQLITE_MISUSE, SQLITE_OK, SQLITE_ROW};
use vstd::prelude::*;

verus! {

/// A statement the engine has prepared.
///
/// It owns the engine's handle, which is never null, remembers how many
/// columns a row of it has, and whether the last step left it on a row.
/// There is no way to copy it, so the handle has one owner, and
/// [`Stmt::finalize`] takes the statement away when the handle is released.
#[derive(Debug)]
pub struct Stmt {
    raw: usize,
    column_count: i32,
    is_row: bool,
}

/// What a [`Stmt`] is, as plain values.
pub struct StmtView {
    /// The address of the engine's statement.
    pub raw: usize,
    /// The number of columns in a row, fixed when the statement was prepared.
    pub column_count: i32,
    /// Whether the last step produced a row that has not been left since.
    pub is_row: bool,
}

impl View for Stmt {
    type V = StmtView;

    closed spec fn view(&self) -> StmtView {
        StmtView { raw: self.raw, column_count: self.column_count, is_row: self.is_row }
    }
}

/// What a bind asks of the engine.
///
/// The caller makes `reset` if there is one and ignores its status, then
/// makes `bind`. The status of `bind` is the outcome of the operation, as
/// [`Error::result`] reads it. Where `bind` is an error no bind is made and
/// the operation has failed with that error, after the reset.
#[derive(Debug, Clone, Copy, PartialEq, Eq)]
pub struct Bind {
    /// The rewind that has to come first, if the statement stood on a row.
    pub reset: Option<Call>,
    /// The bind itself, or why there is none.
    pub bind: Result<Call, Error>,
}

/// What a step came to.
///
/// The caller makes `reset` if there is one and ignores its status.
#[derive(Debug, Clone, Copy, PartialEq, Eq)]
pub struct Stepped {
    /// `Ok(true)` with a row to read, `Ok(false)` when the statement has
    /// finished, the error otherwise.
    pub result: Result<bool, Error>,
    /// The rewind that follows every step but one that found a row.
    pub reset: Option<Call>,
}

/// The statement `s`, off its row.
pub open spec fn rewound(s: StmtView) -> StmtView {
    StmtView { is_row: false, ..s }
}

/// The rewind that a bind on `s` has to start with: one if `s` is on a row.
pub open spec fn rewind_before_bind(s: StmtView) -> Option<Call> {
    if s.is_row {
        Some(Call::Reset { stmt: s.raw })
    } else {
        None
    }
}

/// A parameter index as the engine takes it, or `Range` if it does not fit.
pub open spec fn parameter_index(index: usize) -> Result<i32, Error> {
    if index <= i32::MAX {
        Ok(index as i32)
    } else {
        Err(Error::Range)
    }
}

/// A length in bytes as the engine takes it, or `TooBig` if it does not fit.
pub open spec fn byte_count(len: nat) -> Result<i32, Error> {
    if len <= i32::MAX {
        Ok(len as i32)
    } else {
        Err(Error::TooBig)
    }
}

/// Whether column `index` of `s` can be read: `s` is on a row, and the row
/// has such a column.
pub open spec fn readable(s: StmtView, index: usize) -> bool {
    s.is_row && index < s.column_count
}

/// What the engine's answer to a prepare comes to: a statement off any row
/// where the status is [`SQLITE_OK`] and there is a handle, `SQLITE_MISUSE`
/// where the status is `SQLITE_OK` and there is none, and the error of the
/// status otherwise.
pub open spec fn prepare_outcome(code: i32, raw: usize, column_count: i32) -> Result<
    StmtView,
    Error,
> {
    if code != SQLITE_OK {
        Err(Error::of(code))
    } else if raw == 0 {
        Err(Error::Engine(SQLITE_MISUSE))
    } else {
        Ok(StmtView { raw, column_count, is_row: false })
    }
}

/// The statement `s` after a step that the engine answered with `code`: on
/// a row after [`SQLITE_ROW`], off it after anything else.
pub open spec fn stepped(s: StmtView, code: i32) -> StmtView {
    StmtView { is_row: code == SQLITE_ROW, ..s }
}

/// What a step on `s` comes to when the engine answers `code`.
pub open spec fn step_outcome(s: StmtView, code: i32) -> Stepped {
    if code == SQLITE_ROW {
        Stepped { result: Ok(true), reset: None }
    } else if code == SQLITE_DONE {
        Stepped { result: Ok(false), reset: Some(Call::Reset { stmt: s.raw }) }
    } else {
        Stepped { result: Err(Error::of(code)), reset: Some(Call::Reset { stmt: s.raw }) }
    }
}

/// Converts a parameter index for the engine.
fn to_parameter_index(index: usize) -> (r: Result<i32, Error>)
    ensures
        r == parameter_index(index),
{
    match i32::try_from(index) {
        Ok(i) => Ok(i),
        Err(_) => Err(Error::Range),
    }
}

/// Converts a length in bytes for the engine.
pub(crate) fn to_byte_count(len: usize) -> (r: Result<i32, Error>)
    ensures
        r == byte_count(len as nat),
{
    match i32::try_from(len) {
        Ok(n) => Ok(n),
        Err(_) => Err(Error::TooBig),
    }
}

impl Stmt {
    #[verifier::type_invariant]
    spec fn inv(self) -> bool {
        self.raw != 0
    }

    /// Takes the engine's answer to [`Call::Prepare`]: its status, the
    /// handle it wrote, and the column count of that handle.
    ///
    /// On [`SQLITE_OK`] with a handle this is the new statement, off any
    /// row. Every other status is the error. The engine answers `SQLITE_OK`
    /// with a null handle for a text that holds no statement, an empty one
    /// or one of blanks and comments: there is nothing to wrap then, and
    /// the error is `SQLITE_MISUSE`, which is what the engine would say to
    /// every call on such a handle.
    pub fn prepared(code: i32, raw: usize, column_count: i32) -> (r: Result<Stmt, Error>)
        ensures
            match r {
                Ok(s) => prepare_outcome(code, raw, column_count) == Ok::<StmtView, Error>(s@),
                Err(e) => prepare_outcome(code, raw, column_count) == Err::<StmtView, Error>(e),
            },
    {
        match Error::new(code) {
            Error::Success => {
                if raw == 0 {
                    Err(Error::Engine(SQLITE_MISUSE))
                } else {
                    Ok(Stmt { raw, column_count, is_row: false })
                }
            },
            e => Err(e),
        }
    }

    /// The address of the engine's statement. It is not null.
    pub fn raw(&self) -> (raw: usize)
        ensures
            raw == self@.raw,
            raw != 0,
    {
        proof {
            use_type_invariant(self);
        }
        self.raw
    }

    /// The number of columns in a row of this statement.
    pub fn column_count(&self) -> (n: i32)
        ensures
            n == self@.column_count,
    {
        self.column_count
    }

    /// Whether the statement stands on a row.
    pub fn is_row(&self) -> (b: bool)
        ensures
            b == self@.is_row,
    {
        self.is_row
    }

    /// Leaves the row, if any, and returns the rewind to make. The status of
    /// that call is of no interest, and what is bound stays bound.
    pub fn reset(&mut self) -> (call: Call)
        ensures
            final(self)@ == rewound(old(self)@),
            call == (Call::Reset { stmt: old(self)@.raw }),
    {
        proof {
            use_type_invariant(&*self);
        }
        self.is_row = false;
        Call::Reset { stmt: self.raw }
    }

    /// The two calls that clear the statement: a rewind, whose status is
    /// ignored, then the unbinding of every parameter, whose status goes to
    /// [`Stmt::clear`].
    pub fn clear_calls(&self) -> (calls: (Call, Call))
        ensures
            calls.0 == (Call::Reset { stmt: self@.raw }),
            calls.1 == (Call::ClearBindings { stmt: self@.raw }),
    {
        (Call::Reset { stmt: self.raw }, Call::ClearBindings { stmt: self.raw })
    }

    /// Takes the engine's answer to the unbinding of [`Stmt::clear_calls`].
    /// The statement is off its row.
    ///
    /// The engine is not known to fail here. A caller that sees any status
    /// but [`SQLITE_OK`] has found a fault in the program and stops; it does
    /// not come here with it, and there is no error to return.
    pub fn clear(&mut self, code: i32)
        requires
            code == SQLITE_OK,
        ensures
            final(self)@ == rewound(old(self)@),
    {
        proof {
            use_type_invariant(&*self);
        }
        self.is_row = false;
    }

    /// The call that advances the statement. Its status goes to
    /// [`Stmt::step`].
    pub fn step_call(&self) -> (call: Call)
        ensures
            call == (Call::Step { stmt: self@.raw }),
    {
        Call::Step { stmt: self.raw }
    }

    /// Takes the engine's answer to [`Stmt::step_call`].
    ///
    /// [`SQLITE_ROW`] puts the statement on a row and is `Ok(true)`; nothing
    /// is rewound, since the row has yet to be read. [`SQLITE_DONE`] is
    /// `Ok(false)`. Any other status is the error. In both of these cases
    /// the statement is off its row and a rewind is due.
    pub fn step(&mut self, code: i32) -> (out: Stepped)
        ensures
            out == step_outcome(old(self)@, code),
            final(self)@ == stepped(old(self)@, code),
            final(self)@.is_row <==> out.result == Ok::<bool, Error>(true),
    {
        proof {
            use_type_invariant(&*self);
        }
        let e = Error::new(code);
        match e {
            Error::Done => {
                let reset = self.reset();
                Stepped { result: Ok(false), reset: Some(reset) }
            },
            Error::Row => {
                self.is_row = true;
                Stepped { result: Ok(true), reset: None }
            },
            _ => {
                let reset = self.reset();
                Stepped { result: Err(e), reset: Some(reset) }
            },
        }
    }

    /// Binds the integer `val` to the parameter `index`, counted from 1.
    ///
    /// The engine takes no bind on a statement that stands on a row, so the
    /// statement leaves its row first. An index that does not fit the
    /// engine's integer is a `Range` error, found after the rewind and
    /// without a call.
    pub fn bind_int(&mut self, index: usize, val: i64) -> (plan: Bind)
        ensures
            final(self)@ == rewound(old(self)@),
            plan.reset == rewind_before_bind(old(self)@),
            plan.bind == (match parameter_index(index) {
                Ok(i) => Ok(Call::BindInt64 { stmt: old(self)@.raw, index: i, value: val }),
                Err(e) => Err(e),
            }),
    {
        let reset = self.rewind();
        let bind = match to_parameter_index(index) {
            Ok(i) => Ok(Call::BindInt64 { stmt: self.raw, index: i, value: val }),
            Err(e) => Err(e),
        };
        Bind { reset, bind }
    }

    /// Binds the bytes of `val` to the parameter `index`, counted from 1.
    ///
    /// The engine borrows the bytes and copies nothing, so they have to
    /// stay where they are until the statement is bound anew or released.
    /// The statement leaves its row first, as for [`Stmt::bind_int`]. An
    /// index that does not fit is a `Range` error; with a fitting index, a
    /// length that does not fit is a `TooBig` error.
    pub fn bind_blob(&mut self, index: usize, val: &[u8]) -> (plan: Bind)
        ensures
            final(self)@ == rewound(old(self)@),
            plan.reset == rewind_before_bind(old(self)@),
            plan.bind == (match parameter_index(index) {
                Ok(i) => match byte_count(val@.len()) {
                    Ok(n) => Ok(Call::BindBlob { stmt: old(self)@.raw, index: i, nbytes: n }),
                    Err(e) => Err(e),
                },
                Err(e) => Err(e),
            }),
    {
        let reset = self.rewind();
        let bind = match to_parameter_index(index) {
            Ok(i) => match to_byte_count(val.len()) {
                Ok(n) => Ok(Call::BindBlob { stmt: self.raw, index: i, nbytes: n }),
                Err(e) => Err(e),
            },
            Err(e) => Err(e),
        };
        Bind { reset, bind }
    }

    /// Binds SQL `NULL` to the parameter `index`, counted from 1. The rest
    /// is as for [`Stmt::bind_int`].
    pub fn bind_null(&mut self, index: usize) -> (plan: Bind)
        ensures
            final(self)@ == rewound(old(self)@),
            plan.reset == rewind_before_bind(old(self)@),
            plan.bind == (match parameter_index(index) {
                Ok(i) => Ok(Call::BindNull { stmt: old(self)@.raw, index: i }),
                Err(e) => Err(e),
            }),
    {
        let reset = self.rewind();
        let bind = match to_parameter_index(index) {
            Ok(i) => Ok(Call::BindNull { stmt: self.raw, index: i }),
            Err(e) => Err(e),
        };
        Bind { reset, bind }
    }

    /// Whether column `index`, counted from 0, can be read now: the
    /// statement is on a row, and the row has such a column. A caller that
    /// is not sure asks here first; to read where this is `false` is a
    /// fault of the program, and no read returns an error for it.
    pub fn can_read(&self, index: usize) -> (b: bool)
        ensures
            b == readable(self@, index),
    {
        self.is_row && self.column_count >= 0 && index < self.column_count as usize
    }

    /// The call that asks for the type of column `index`, counted from 0.
    /// Every read of a column starts with it; the tag it returns goes to
    /// [`Stmt::column_int`] or [`Stmt::column_blob`].
    ///
    /// Reading off a row, or a column the row does not have, is a fault of
    /// the program.
    pub fn column_type(&self, index: usize) -> (call: Call)
        requires
            readable(self@, index),
        ensures
            call == (Call::ColumnType { stmt: self@.raw, column: index as i32 }),
    {
        Call::ColumnType { stmt: self.raw, column: index as i32 }
    }

    /// Reads column `index`, counted from 0, as an integer, given the type
    /// `tag` the engine reported for it.
    ///
    /// A `NULL` column has no value and nothing more is asked. For an
    /// integer column the result is the call that fetches the value. To ask
    /// for an integer where the column holds anything else is a fault of
    /// the program, as is reading off a row or past the last column.
    pub fn column_int(&self, index: usize, tag: i32) -> (fetch: Option<Call>)
        requires
            readable(self@, index),
            tag == SQLITE_NULL || tag == SQLITE_INTEGER,
        ensures
            tag == SQLITE_NULL ==> fetch is None,
            tag == SQLITE_INTEGER ==> fetch == Some(
                Call::ColumnInt64 { stmt: self@.raw, column: index as i32 },
            ),
    {
        if tag == SQLITE_NULL {
            None
        } else {
            Some(Call::ColumnInt64 { stmt: self.raw, column: index as i32 })
        }
    }

    /// Reads column `index`, counted from 0, as a blob, given the type `tag`
    /// the engine reported for it.
    ///
    /// A `NULL` column has no value and nothing more is asked. For a blob
    /// column the result is the two calls that fetch it, in the order the
    /// engine wants them: the address of the bytes, then their number. The
    /// bytes are the engine's and last until the statement is next stepped,
    /// rewound or released. To ask for a blob where the column holds
    /// anything else is a fault of the program, as is reading off a row or
    /// past the last column.
    pub fn column_blob(&self, index: usize, tag: i32) -> (fetch: Option<(Call, Call)>)
        requires
            readable(self@, index),
            tag == SQLITE_NULL || tag == SQLITE_BLOB,
        ensures
            tag == SQLITE_NULL ==> fetch is None,
            tag == SQLITE_BLOB ==> fetch == Some(
                (
                    Call::ColumnBlob { stmt: self@.raw, column: index as i32 },
                    Call::ColumnBytes { stmt: self@.raw, column: index as i32 },
                ),
            ),
    {
        if tag == SQLITE_NULL {
            None
        } else {
            Some(
                (
                    Call::ColumnBlob { stmt: self.raw, column: index as i32 },
                    Call::ColumnBytes { stmt: self.raw, column: index as i32 },
                ),
            )
        }
    }

    /// Gives the statement up and returns the call that releases its handle.
    pub fn finalize(self) -> (call: Call)
        ensures
            call == (Call::Finalize { stmt: self@.raw }),
    {
        Call::Finalize { stmt: self.raw }
    }

    /// Leaves the row if the statement is on one, and says whether a rewind
    /// is due for it.
    fn rewind(&mut self) -> (reset: Option<Call>)
        ensures
            final(self)@ == rewound(old(self)@),
            reset == rewind_before_bind(old(self)@),
    {
        if self.is_row {
            Some(self.reset())
        } else {
            None
        }
    }
}

/// A column is read on a row and nowhere else. Nothing is readable of a
/// statement that is off its row: one that has just been prepared, one
/// that a reset, a clear or a bind has rewound, and one whose last step
/// the engine answered with anything but [`SQLITE_ROW`]. On a row, the
/// columns that can be read are those below the column count. Where
/// nothing is readable no read is owed: [`Stmt::column_type`],
/// [`Stmt::column_int`] and [`Stmt::column_blob`] require it, and none of
/// them has an error to return.
pub proof fn lemma_read_needs_a_row_and_a_column(
    s: StmtView,
    code: i32,
    raw: usize,
    column_count: i32,
    index: usize,
)
    ensures
        !s.is_row ==> !readable(s, index),
        index >= s.column_count ==> !readable(s, index),
        !readable(rewound(s), index),
        code != SQLITE_ROW ==> !readable(stepped(s, code), index),
        code == SQLITE_ROW ==> (readable(stepped(s, code), index) <==> index < s.column_count),
        prepare_outcome(code, raw, column_count) matches Ok(fresh) ==> !readable(fresh, index),
{
}

} // verus!
