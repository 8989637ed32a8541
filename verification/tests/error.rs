use mouse_sqlite3::engine::{
    OPEN_FLAGS, SQLITE_BLOB, SQLITE_INTEGER, SQLITE_NULL, SQLITE_OPEN_CREATE, SQLITE_OPEN_NOMUTEX,
    SQLITE_OPEN_READWRITE,
};
use mouse_sqlite3::error::{
    SQLITE_CANTOPEN, SQLITE_DONE, SQLITE_MISUSE, SQLITE_OK, SQLITE_RANGE, SQLITE_ROW, SQLITE_TOOBIG,
};
use mouse_sqlite3::Error;

#[test]
fn status_codes_are_the_engines() {
    assert_eq!(SQLITE_OK, libsqlite3_sys::SQLITE_OK);
    assert_eq!(SQLITE_TOOBIG, libsqlite3_sys::SQLITE_TOOBIG);
    assert_eq!(SQLITE_RANGE, libsqlite3_sys::SQLITE_RANGE);
    assert_eq!(SQLITE_ROW, libsqlite3_sys::SQLITE_ROW);
    assert_eq!(SQLITE_DONE, libsqlite3_sys::SQLITE_DONE);
    assert_eq!(SQLITE_CANTOPEN, libsqlite3_sys::SQLITE_CANTOPEN);
    assert_eq!(SQLITE_MISUSE, libsqlite3_sys::SQLITE_MISUSE);
}

#[test]
fn type_tags_are_the_engines() {
    assert_eq!(SQLITE_INTEGER, libsqlite3_sys::SQLITE_INTEGER);
    assert_eq!(SQLITE_BLOB, libsqlite3_sys::SQLITE_BLOB);
    assert_eq!(SQLITE_NULL, libsqlite3_sys::SQLITE_NULL);
}

#[test]
fn open_flags_are_the_engines() {
    assert_eq!(SQLITE_OPEN_READWRITE, libsqlite3_sys::SQLITE_OPEN_READWRITE);
    assert_eq!(SQLITE_OPEN_CREATE, libsqlite3_sys::SQLITE_OPEN_CREATE);
    assert_eq!(SQLITE_OPEN_NOMUTEX, libsqlite3_sys::SQLITE_OPEN_NOMUTEX);
    assert_eq!(
        OPEN_FLAGS,
        libsqlite3_sys::SQLITE_OPEN_READWRITE
            | libsqlite3_sys::SQLITE_OPEN_CREATE
            | libsqlite3_sys::SQLITE_OPEN_NOMUTEX
    );
    assert_eq!(OPEN_FLAGS, 32774);
}

#[test]
fn new_gives_each_named_code_its_variant() {
    assert_eq!(Error::new(0), Error::Success);
    assert_eq!(Error::new(100), Error::Row);
    assert_eq!(Error::new(101), Error::Done);
    assert_eq!(Error::new(18), Error::TooBig);
    assert_eq!(Error::new(25), Error::Range);
}

#[test]
fn new_keeps_the_number_of_every_other_code() {
    assert_eq!(Error::new(1), Error::Engine(1));
    assert_eq!(Error::new(14), Error::Engine(14));
    assert_eq!(Error::new(21), Error::Engine(21));
    assert_eq!(Error::new(-1), Error::Engine(-1));
    assert_eq!(Error::new(2067), Error::Engine(2067));
    assert_eq!(Error::new(i32::MAX), Error::Engine(i32::MAX));
    assert_eq!(Error::new(i32::MIN), Error::Engine(i32::MIN));
}

#[test]
fn code_gives_the_number_back() {
    assert_eq!(Error::Success.code(), 0);
    assert_eq!(Error::Row.code(), 100);
    assert_eq!(Error::Done.code(), 101);
    assert_eq!(Error::TooBig.code(), 18);
    assert_eq!(Error::Range.code(), 25);
    assert_eq!(Error::Engine(5).code(), 5);
}

#[test]
fn codes_and_errors_are_one_to_one() {
    let codes = [-7, 0, 1, 5, 14, 17, 18, 19, 24, 25, 26, 99, 100, 101, 102, 516];
    for a in codes {
        assert_eq!(Error::new(a).code(), a);
        for b in codes {
            assert_eq!(Error::new(a) == Error::new(b), a == b);
        }
    }
}

#[test]
fn result_is_ok_on_success_only() {
    assert_eq!(Error::result(SQLITE_OK), Ok(()));
    assert_eq!(Error::result(SQLITE_RANGE), Err(Error::Range));
    assert_eq!(Error::result(SQLITE_TOOBIG), Err(Error::TooBig));
    assert_eq!(Error::result(SQLITE_ROW), Err(Error::Row));
    assert_eq!(Error::result(SQLITE_DONE), Err(Error::Done));
    assert_eq!(Error::result(19), Err(Error::Engine(19)));
}
