//! Session-based authentication: salted password hashes, server-side
//! sessions bound to the client that opened them, idle and absolute expiry,
//! a cap on concurrent sessions per account, and the login service on top.
//!
//! The tables of accounts and sessions are values in memory; keeping them in
//! a database is the caller's part, and `persistence` says what a failure
//! there means. What each operation does is first written down as a function
//! on the mathematical content of the tables, and the executable functions
//! are proved to do exactly that. `laws` holds what follows for the library
//! as a whole.
//!
//! The calls into `argon2`, `password_hash`, `chrono` and `uuid` are the only
//! functions here whose contracts are taken on trust: each says in its
//! documentation what it claims of the call it makes.
//!
//! Time is a count of seconds since the Unix epoch. The functions whose name
//! ends in `_at` take it as an argument; the others read the clock.

pub mod account;
pub mod authentication;
pub mod blog;
pub mod clock;
pub mod context;
pub mod cookies;
pub mod error;
pub mod laws;
pub mod lemmas;
pub mod manager;
pub mod password;
pub mod persistence;
pub mod repo;
pub mod session;
pub mod store;
pub mod table;
pub mod text;
pub mod token;
