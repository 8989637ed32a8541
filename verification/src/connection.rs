//! A database connection and its cache of prepared statements.

use crate::engine::{Call, OPEN_FLAGS};
use crate::error::{Error, SQLITE_CANTOPEN, SQLITE_OK};
use crate::stmt::{byte_count, rewound, to_byte_count, Stmt, StmtView};
use std::collections::hash_map::Entry;
use std::collections::HashMap;
use vstd::prelude::*;
use vstd::std_specs::iter::IteratorSpec;
use vstd::string::StringSliceAdditionalSpecFns;

verus! {

/// An open database with the statements prepared on it and kept for reuse.
///
/// It owns the engine's handle, which is never null, and every statement in
/// its cache. A statement is cached under a key that stands for the place
/// where its text is held, not for the text: the same text held in two
/// places is two keys and two statements. There is no way to copy a
/// connection, and [`Connection::close`] takes it away when the handle is
/// released.
pub struct Connection {
    db: Db,
    stmts: HashMap<usize, Stmt>,
}

/// The engine's handle of an open database: an address that is not null.
struct Db {
    raw: usize,
}

impl Db {
    #[verifier::type_invariant]
    spec fn inv(self) -> bool {
        self.raw != 0
    }
}

/// What a [`Connection`] is, as plain values.
pub struct ConnectionView {
    /// The address of the engine's database connection.
    pub raw: usize,
    /// The cached statements by key.
    pub stmts: Map<usize, StmtView>,
}

impl View for Connection {
    type V = ConnectionView;

    closed spec fn view(&self) -> ConnectionView {
        ConnectionView { raw: self.db.raw, stmts: views(self.stmts@) }
    }
}

/// The cached statements as plain values.
spec fn views(stmts: Map<usize, Stmt>) -> Map<usize, StmtView> {
    Map::new(|key: usize| stmts.contains_key(key), |key: usize| stmts[key]@)
}

/// Caching a statement under a key caches its view under that key.
proof fn lemma_views_insert(stmts: Map<usize, Stmt>, key: usize, stmt: Stmt)
    ensures
        views(stmts.insert(key, stmt)) == views(stmts).insert(key, stmt@),
{
    assert(views(stmts.insert(key, stmt)) =~= views(stmts).insert(key, stmt@));
}

/// What [`Connection::stmt`] found.
#[derive(Debug, Clone, Copy, PartialEq, Eq)]
pub enum Acquire {
    /// The statement is cached. The caller makes `reset`, ignores its
    /// status, makes `clear`, and takes the status to
    /// [`Connection::cached`].
    Hit { reset: Call, clear: Call },
    /// The statement is not cached. The caller makes `prepare`, takes the
    /// answer to [`Stmt::prepared`] and the statement, if there is one, to
    /// [`Connection::insert`].
    Miss { prepare: Call },
}

/// Whether `path` can be handed to the engine: it holds no zero byte.
pub open spec fn encodable(path: Seq<u8>) -> bool {
    forall|i: int| 0 <= i < path.len() ==> path[i] != 0
}

/// What the engine's answer to an open comes to: a connection with nothing
/// cached where the status is [`SQLITE_OK`] and there is a handle,
/// `SQLITE_CANTOPEN` where the status is `SQLITE_OK` and there is none, and
/// the error of the status otherwise.
pub open spec fn open_outcome(code: i32, raw: usize) -> Result<ConnectionView, Error> {
    if code != SQLITE_OK {
        Err(Error::of(code))
    } else if raw == 0 {
        Err(Error::Engine(SQLITE_CANTOPEN))
    } else {
        Ok(ConnectionView { raw, stmts: Map::empty() })
    }
}

/// The call that prepares a text of `nbytes` bytes on the database `db`, or
/// `TooBig` if the engine cannot be told such a length.
pub open spec fn prepare_call(db: usize, nbytes: nat) -> Result<Call, Error> {
    match byte_count(nbytes) {
        Ok(n) => Ok(Call::Prepare { db, nbytes: n }),
        Err(e) => Err(e),
    }
}

/// What asking the connection `c` for the statement under `key` comes to,
/// for a text of `nbytes` bytes: the cached statement is cleared, whatever
/// the text, and where there is none the text is prepared.
pub open spec fn acquire(c: ConnectionView, key: usize, nbytes: nat) -> Result<Acquire, Error> {
    if c.stmts.contains_key(key) {
        Ok(
            Acquire::Hit {
                reset: Call::Reset { stmt: c.stmts[key].raw },
                clear: Call::ClearBindings { stmt: c.stmts[key].raw },
            },
        )
    } else {
        match prepare_call(c.raw, nbytes) {
            Ok(prepare) => Ok(Acquire::Miss { prepare }),
            Err(e) => Err(e),
        }
    }
}

/// Whether `order` names every key of `keys` once and nothing else.
pub open spec fn names_each_once(order: Seq<usize>, keys: Set<usize>) -> bool {
    order.no_duplicates() && order.to_set() == keys
}

/// The calls that take the connection `c` down when its cached statements
/// are gone through in `order`: each statement is released, and after all
/// of them the database is closed.
pub open spec fn teardown(c: ConnectionView, order: Seq<usize>) -> Seq<Call> {
    Seq::new(
        order.len() + 1,
        |i: int|
            if i < order.len() {
                Call::Finalize { stmt: c.stmts[order[i]].raw }
            } else {
                Call::Close { db: c.raw }
            },
    )
}

impl Connection {
    /// The call that opens the database at `path`, for reading and writing,
    /// created if missing, and without a mutex of the engine's: the
    /// connection is for one thread at a time. Its answer goes to
    /// [`Connection::open`].
    ///
    /// The engine takes a path that ends at its first zero byte, so a path
    /// with a zero byte in it names no file that the engine could be asked
    /// for. It is refused here with `SQLITE_CANTOPEN`, without a call.
    pub fn open_call(path: &[u8]) -> (r: Result<Call, Error>)
        ensures
            encodable(path@) ==> r == Ok::<Call, Error>(Call::Open { flags: OPEN_FLAGS }),
            !encodable(path@) ==> r == Err::<Call, Error>(Error::Engine(SQLITE_CANTOPEN)),
    {
        let mut i: usize = 0;
        while i < path.len()
            invariant
                i <= path.len(),
                forall|j: int| 0 <= j < i ==> path@[j] != 0,
            decreases path.len() - i,
        {
            if path[i] == 0 {
                return Err(Error::Engine(SQLITE_CANTOPEN));
            }
            i += 1;
        }
        Ok(Call::Open { flags: OPEN_FLAGS })
    }

    /// Takes the engine's answer to [`Call::Open`]: its status and the
    /// handle it wrote.
    ///
    /// On [`SQLITE_OK`] with a handle this is the connection, with nothing
    /// cached. Every other status is the error, and nothing is kept of the
    /// handle. `SQLITE_OK` with a null handle is no database either, and
    /// the error is `SQLITE_CANTOPEN`.
    pub fn open(code: i32, raw: usize) -> (r: Result<Connection, Error>)
        ensures
            match r {
                Ok(c) => open_outcome(code, raw) == Ok::<ConnectionView, Error>(c@),
                Err(e) => open_outcome(code, raw) == Err::<ConnectionView, Error>(e),
            },
    {
        match Error::new(code) {
            Error::Success => {
                if raw == 0 {
                    Err(Error::Engine(SQLITE_CANTOPEN))
                } else {
                    let c = Connection { db: Db { raw }, stmts: HashMap::new() };
                    assert(c@.stmts =~= Map::<usize, StmtView>::empty());
                    Ok(c)
                }
            },
            e => Err(e),
        }
    }

    /// The address of the engine's database connection. It is not null.
    pub fn raw(&self) -> (raw: usize)
        ensures
            raw == self@.raw,
            raw != 0,
    {
        proof {
            use_type_invariant(&self.db);
        }
        self.db.raw
    }

    /// Asks for the statement cached under `key`, to be prepared from `sql`
    /// if there is none.
    ///
    /// `key` stands for where the text is held; the text is not compared.
    /// Where a statement is cached under `key`, it is to be cleared and
    /// handed out again, and `sql` is not looked at. Where none is, `sql` is
    /// to be prepared; a text too long for the engine's integer is a
    /// `TooBig` error, without a call. The connection changes in neither
    /// case: see [`Acquire`] for what follows.
    pub fn stmt(&self, key: usize, sql: &str) -> (r: Result<Acquire, Error>)
        ensures
            r == acquire(self@, key, sql.spec_bytes().len()),
    {
        match self.stmts.get(&key) {
            Some(stmt) => {
                let (reset, clear) = stmt.clear_calls();
                Ok(Acquire::Hit { reset, clear })
            },
            None => match Self::build_stmt(self.db.raw, sql) {
                Ok(prepare) => Ok(Acquire::Miss { prepare }),
                Err(e) => Err(e),
            },
        }
    }

    /// Hands out the statement cached under `key`, cleared, given the
    /// engine's answer to the unbinding of [`Acquire::Hit`].
    ///
    /// As for [`Stmt::clear`], any status but [`SQLITE_OK`] is a fault of
    /// the program that the caller stops on.
    pub fn cached(&mut self, key: usize, code: i32) -> (stmt: &mut Stmt)
        requires
            old(self)@.stmts.contains_key(key),
            code == SQLITE_OK,
        ensures
            stmt@ == rewound(old(self)@.stmts[key]),
            final(self)@ == (ConnectionView {
                stmts: old(self)@.stmts.insert(key, final(stmt)@),
                ..old(self)@
            }),
    {
        match self.stmts.entry(key) {
            Entry::Occupied(o) => {
                let stmt = o.into_mut();
                stmt.clear(code);
                proof {
                    lemma_views_insert(old(self).stmts@, key, *final(stmt));
                }
                stmt
            },
            Entry::Vacant(_) => vstd::pervasive::unreached(),
        }
    }

    /// Caches `stmt` under `key`, where nothing is cached yet, and hands it
    /// out. This is how a statement prepared after [`Acquire::Miss`] comes
    /// into the cache.
    pub fn insert(&mut self, key: usize, stmt: Stmt) -> (cached: &mut Stmt)
        requires
            !old(self)@.stmts.contains_key(key),
        ensures
            cached@ == stmt@,
            final(self)@ == (ConnectionView {
                stmts: old(self)@.stmts.insert(key, final(cached)@),
                ..old(self)@
            }),
    {
        match self.stmts.entry(key) {
            Entry::Vacant(v) => {
                let cached = v.insert(stmt);
                proof {
                    lemma_views_insert(old(self).stmts@, key, *final(cached));
                }
                cached
            },
            Entry::Occupied(_) => vstd::pervasive::unreached(),
        }
    }

    /// The call that prepares `sql` as a statement of the caller's own, which
    /// the cache never sees. Its answer goes to [`Stmt::prepared`].
    ///
    /// A text too long for the engine's integer is a `TooBig` error, without
    /// a call.
    pub fn stmt_once(&mut self, sql: &str) -> (r: Result<Call, Error>)
        ensures
            final(self)@ == old(self)@,
            r == prepare_call(old(self)@.raw, sql.spec_bytes().len()),
    {
        Self::build_stmt(self.db.raw, sql)
    }

    /// Gives the connection up and returns the calls that release what it
    /// holds, in the order to make them: one release for every cached
    /// statement, then the close of the database. The engine refuses to
    /// close a database that still has statements, so the close comes last.
    /// Nothing here can fail, and the statuses are of no interest.
    ///
    /// The statements come in no particular order.
    pub fn close(self) -> (calls: Vec<Call>)
        ensures
            exists|order: Seq<usize>|
                names_each_once(order, self@.stmts.dom()) && calls@ == #[trigger] teardown(
                    self@,
                    order,
                ),
    {
        let mut calls: Vec<Call> = Vec::new();
        for entry in it: self.stmts.iter()
            invariant
                it.seq() == self.stmts.iter().remaining(),
                it.seq().no_duplicates(),
                calls@.len() == it.index(),
                forall|i: int|
                    0 <= i < calls@.len() ==> calls@[i] == (Call::Finalize {
                        stmt: (#[trigger] it.seq()[i]).1@.raw,
                    }),
        {
            calls.push(Call::Finalize { stmt: entry.1.raw() });
        }
        calls.push(Call::Close { db: self.db.raw });
        proof {
            let entries = self.stmts.iter().remaining();
            let order = Seq::new(entries.len(), |i: int| *entries[i].0);
            assert(self@.stmts.dom() =~= self.stmts@.dom());
            assert forall|i: int, j: int|
                0 <= i < order.len() && 0 <= j < order.len() && i != j implies order[i]
                != order[j] by {
                assert(self.stmts@[*entries[i].0] == *entries[i].1);
                assert(self.stmts@[*entries[j].0] == *entries[j].1);
                assert(entries[i] != entries[j]);
            }
            assert forall|key: usize| self.stmts@.contains_key(key) implies order.contains(
                key,
            ) by {
                let i = choose|i: int|
                    0 <= i < entries.len() && entries[i] == (&key, &self.stmts@[key]);
                assert(order[i] == key);
            }
            assert forall|key: usize| order.contains(key) implies self.stmts@.contains_key(
                key,
            ) by {
                let i = choose|i: int| 0 <= i < order.len() && order[i] == key;
                assert(self.stmts@.contains_key(*entries[i].0));
            }
            assert(order.to_set() =~= self.stmts@.dom());
            assert(calls@ =~= teardown(self@, order));
        }
        calls
    }

    /// The call that prepares `sql` on the database `raw`.
    fn build_stmt(raw: usize, sql: &str) -> (r: Result<Call, Error>)
        ensures
            r == prepare_call(raw, sql.spec_bytes().len()),
    {
        match to_byte_count(sql.as_bytes().len()) {
            Ok(nbytes) => Ok(Call::Prepare { db: raw, nbytes }),
            Err(e) => Err(e),
        }
    }
}

/// Taking a connection down leaks nothing and closes last: in the calls of
/// a teardown there is one release for each cached statement, every cached
/// statement has its release, all of them come before the close, and the
/// close of the database is the last call and the only one.
pub proof fn lemma_teardown_releases_all_then_closes(c: ConnectionView, order: Seq<usize>)
    requires
        names_each_once(order, c.stmts.dom()),
    ensures
        teardown(c, order).len() == c.stmts.dom().len() + 1,
        teardown(c, order).last() == (Call::Close { db: c.raw }),
        forall|i: int|
            0 <= i < teardown(c, order).len() - 1 ==> #[trigger] teardown(c, order)[i] is Finalize,
        forall|key: usize|
            c.stmts.contains_key(key) ==> exists|i: int|
                0 <= i < teardown(c, order).len() - 1 && #[trigger] teardown(c, order)[i] == (
                Call::Finalize { stmt: c.stmts[key].raw }),
{
    order.unique_seq_to_set();
    let calls = teardown(c, order);
    assert forall|key: usize| c.stmts.contains_key(key) implies exists|i: int|
        0 <= i < calls.len() - 1 && #[trigger] calls[i] == (Call::Finalize {
            stmt: c.stmts[key].raw,
        }) by {
        assert(order.to_set().contains(key));
        let i = choose|i: int| 0 <= i < order.len() && order[i] == key;
        assert(calls[i] == (Call::Finalize { stmt: c.stmts[key].raw }));
    }
}

/// The cache goes by the key and by nothing else. Once a statement is
/// cached under a key, asking under that key finds that statement, whatever
/// text comes with the question, and goes on finding it while the
/// statement keeps its handle. Asking under another key finds what it found
/// before: the same text under two keys is two statements.
pub proof fn lemma_cache_goes_by_key(
    c: ConnectionView,
    key: usize,
    stmt: StmtView,
    later: StmtView,
    other: usize,
    nbytes: nat,
)
    requires
        key != other,
        later.raw == stmt.raw,
    ensures
        acquire(ConnectionView { stmts: c.stmts.insert(key, stmt), ..c }, key, nbytes) == Ok::<
            Acquire,
            Error,
        >(
            Acquire::Hit {
                reset: Call::Reset { stmt: stmt.raw },
                clear: Call::ClearBindings { stmt: stmt.raw },
            },
        ),
        acquire(ConnectionView { stmts: c.stmts.insert(key, later), ..c }, key, nbytes) == acquire(
            ConnectionView { stmts: c.stmts.insert(key, stmt), ..c },
            key,
            nbytes,
        ),
        acquire(ConnectionView { stmts: c.stmts.insert(key, stmt), ..c }, other, nbytes) == acquire(
            c,
            other,
            nbytes,
        ),
{
}

} // verus!
