[package]
name = "mouse_sqlite3"
version = "0.1.0"
edition = "2021"
publish = false

[dependencies]
libsqlite3-sys = "*"

[dev-dependencies]
tempfile = "*"
