use mouse_sqlite3::engine::OPEN_FLAGS;
use mouse_sqlite3::error::{SQLITE_DONE, SQLITE_OK, SQLITE_ROW};
use mouse_sqlite3::{Acquire, Call, Connection, Error, Stmt};
use tempfile::tempdir;

const DB: usize = 0x5500_0010;

fn opened() -> Connection {
    Connection::open(SQLITE_OK, DB).unwrap()
}

#[test]
fn create() {
    let tmp = tempdir().unwrap();
    let path = tmp.path().to_owned();
    let path = path.join("test_sqlite");
    let path = path.to_string_lossy();
    assert_eq!(Connection::open_call(path.as_bytes()), Ok(Call::Open { flags: OPEN_FLAGS }));
    assert!(Connection::open(SQLITE_OK, DB).is_ok());
}

#[test]
fn create_table() {
    let tmp = tempdir().unwrap();
    let path = tmp.path().to_owned();
    let path = path.join("test_sqlite");
    let path = path.to_string_lossy();
    assert!(Connection::open_call(path.as_bytes()).is_ok());
    let mut con = Connection::open(SQLITE_OK, DB).unwrap();

    let sql = r#"CREATE TABLE IF NOT EXISTS "foo" (
            "_id" INTEGER PRIMARY KEY,
            "value" TEXT
        )"#;
    let prepare = con.stmt_once(sql).unwrap();
    assert_eq!(prepare, Call::Prepare { db: DB, nbytes: sql.len() as i32 });
    let mut stmt = Stmt::prepared(SQLITE_OK, 0x6600_0020, 0).unwrap();
    assert_eq!(stmt.step_call(), Call::Step { stmt: 0x6600_0020 });
    assert_eq!(Ok(false), stmt.step(SQLITE_DONE).result);
}

#[test]
fn open_call_refuses_a_path_with_a_zero_byte() {
    assert_eq!(Connection::open_call(b"a\0b"), Err(Error::Engine(14)));
    assert_eq!(Connection::open_call(b"\0"), Err(Error::Engine(14)));
    assert_eq!(Connection::open_call(b"dir/db\0x\0"), Err(Error::Engine(14)));
    assert_eq!(Connection::open_call(b"test_sqlite\0"), Err(Error::new(14)));
    assert_eq!(Connection::open_call(b""), Ok(Call::Open { flags: 0x8006 }));
    assert_eq!(Connection::open_call(b":memory:"), Ok(Call::Open { flags: 0x8006 }));
}

#[test]
fn open_returns_the_engines_error() {
    assert_eq!(Connection::open(14, DB).err(), Some(Error::Engine(14)));
    assert_eq!(Connection::open(14, 0).err(), Some(Error::Engine(14)));
    assert_eq!(Connection::open(7, 0).err(), Some(Error::Engine(7)));
    assert_eq!(Connection::open(SQLITE_ROW, DB).err(), Some(Error::Row));
}

#[test]
fn open_without_a_handle_is_no_connection() {
    assert_eq!(Connection::open(SQLITE_OK, 0).err(), Some(Error::Engine(14)));
    assert_eq!(Connection::open(SQLITE_OK, 1).map(|c| c.raw()).ok(), Some(1));
}

#[test]
fn open_keeps_the_handle_and_caches_nothing() {
    let con = opened();
    assert_eq!(con.raw(), DB);
    assert_eq!(con.stmt(1, "SELECT 1"), Ok(Acquire::Miss { prepare: Call::Prepare { db: DB, nbytes: 8 } }));
    assert_eq!(con.close(), vec![Call::Close { db: DB }]);
}

#[test]
fn stmt_once_counts_bytes_and_leaves_the_cache_alone() {
    let mut con = opened();
    assert_eq!(con.stmt_once(""), Ok(Call::Prepare { db: DB, nbytes: 0 }));
    assert_eq!(con.stmt_once("SELECT 'é'"), Ok(Call::Prepare { db: DB, nbytes: 11 }));
    assert_eq!(con.close(), vec![Call::Close { db: DB }]);
}

#[test]
fn text_longer_than_the_engines_integer_is_too_big() {
    let text = String::from_utf8(vec![b' '; 2147483648]).unwrap();
    let mut con = opened();
    assert_eq!(con.stmt_once(&text), Err(Error::TooBig));
    assert_eq!(con.stmt(9, &text), Err(Error::TooBig));
    assert_eq!(
        con.stmt_once(&text[1..]),
        Ok(Call::Prepare { db: DB, nbytes: 2147483647 })
    );
    con.insert(9, Stmt::prepared(SQLITE_OK, 0x70, 0).unwrap());
    assert_eq!(
        con.stmt(9, &text),
        Ok(Acquire::Hit { reset: Call::Reset { stmt: 0x70 }, clear: Call::ClearBindings { stmt: 0x70 } })
    );
}

#[test]
fn same_key_is_the_same_statement() {
    let mut con = opened();
    let sql = "SELECT ?1";
    assert_eq!(con.stmt(100, sql), Ok(Acquire::Miss { prepare: Call::Prepare { db: DB, nbytes: 9 } }));
    let stmt = Stmt::prepared(SQLITE_OK, 0xa0, 1).unwrap();
    assert_eq!(con.insert(100, stmt).raw(), 0xa0);

    let hit = Acquire::Hit { reset: Call::Reset { stmt: 0xa0 }, clear: Call::ClearBindings { stmt: 0xa0 } };
    assert_eq!(con.stmt(100, sql), Ok(hit));
    assert_eq!(con.cached(100, SQLITE_OK).raw(), 0xa0);
    assert_eq!(con.stmt(100, sql), Ok(hit));
    assert_eq!(con.stmt(100, "something else"), Ok(hit));
    assert_eq!(con.cached(100, SQLITE_OK).raw(), 0xa0);
}

#[test]
fn same_text_under_two_keys_is_two_statements() {
    let mut con = opened();
    let sql = "SELECT ?1";
    con.insert(100, Stmt::prepared(SQLITE_OK, 0xa0, 1).unwrap());
    assert_eq!(con.stmt(101, sql), Ok(Acquire::Miss { prepare: Call::Prepare { db: DB, nbytes: 9 } }));
    con.insert(101, Stmt::prepared(SQLITE_OK, 0xb0, 1).unwrap());
    assert_eq!(
        con.stmt(100, sql),
        Ok(Acquire::Hit { reset: Call::Reset { stmt: 0xa0 }, clear: Call::ClearBindings { stmt: 0xa0 } })
    );
    assert_eq!(
        con.stmt(101, sql),
        Ok(Acquire::Hit { reset: Call::Reset { stmt: 0xb0 }, clear: Call::ClearBindings { stmt: 0xb0 } })
    );
    assert_eq!(con.cached(100, SQLITE_OK).raw(), 0xa0);
    assert_eq!(con.cached(101, SQLITE_OK).raw(), 0xb0);
}

#[test]
fn cached_hands_the_statement_out_off_its_row() {
    let mut con = opened();
    {
        let stmt = con.insert(5, Stmt::prepared(SQLITE_OK, 0xc0, 2).unwrap());
        assert!(!stmt.is_row());
        assert_eq!(stmt.step(SQLITE_ROW).result, Ok(true));
        assert!(stmt.is_row());
    }
    let stmt = con.cached(5, SQLITE_OK);
    assert!(!stmt.is_row());
    assert_eq!(stmt.raw(), 0xc0);
    assert_eq!(stmt.column_count(), 2);
    assert_eq!(stmt.step(SQLITE_ROW).result, Ok(true));
    assert!(con.cached(5, SQLITE_OK).bind_int(1, 1).reset.is_none());
}

#[test]
fn close_releases_every_statement_before_the_database() {
    let mut con = opened();
    con.insert(1, Stmt::prepared(SQLITE_OK, 0x10, 0).unwrap());
    con.insert(2, Stmt::prepared(SQLITE_OK, 0x20, 1).unwrap());
    con.insert(3, Stmt::prepared(SQLITE_OK, 0x30, 2).unwrap());
    let calls = con.close();
    assert_eq!(calls.len(), 4);
    assert_eq!(calls[3], Call::Close { db: DB });
    let mut released = Vec::new();
    for call in &calls[..3] {
        match call {
            Call::Finalize { stmt } => released.push(*stmt),
            other => panic!("{:?} before the close", other),
        }
    }
    released.sort();
    assert_eq!(released, vec![0x10, 0x20, 0x30]);
}
