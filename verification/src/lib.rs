//! The authentication and presence core of a web application: sessions, CSRF
//! tokens, remember tokens that are rotated and watched for theft, one-time
//! passcodes, and the rooms of its sockets.
//!
//! Nothing here reads a socket, a store or a cache. A handler looks up the
//! rows that a decision needs and hands them in; what comes back is the
//! response to send and the statements to run, in one transaction, before
//! sending it. [`store`] says what those statements do to the store, and
//! [`memory_store`] is a store in memory that does it. The calls into other
//! crates are gathered in [`trusted`].

pub mod bigint;
pub mod config;
pub mod db;
pub mod error;
pub mod memory_store;
pub mod middleware;
pub mod routes;
pub mod store;
pub mod trusted;
pub mod util;
pub mod websocket;
