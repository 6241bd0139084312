//! Core logic of a minimal connection-per-request network server: request-line
//! routing, response rendering, the per-connection decision protocol, record
//! lookup outcome mapping, and the bootstrap (schema + seed) store model.
//!
//! All I/O (the listening socket, the byte streams, the database driver) lives
//! outside this crate; the functions here are pure and fully specified.

pub mod bootstrap;
pub mod handler;
pub mod response;
pub mod route;
pub mod user;
