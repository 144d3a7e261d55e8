//! Verified core of the online-judge backend: who a request comes from,
//! what each role may read and write, how passwords are checked, how list
//! cursors move, and how errors reach the client.

pub mod auth;
pub mod cursor;
pub mod endpoint;
pub mod error;
pub mod filter;
pub mod hash;
pub mod pager;
pub mod query;
pub mod sort;
pub mod source;
pub mod time;
