//! Session store for configuration-migration artifacts.
//!
//! Uploaded network-configuration files are converted by an external tool and
//! the result is kept for a bounded time under a random identifier, to be
//! fetched once. This crate holds the rules of that service; it reads no file,
//! starts no process and opens no socket. Its caller does those things and
//! hands the results in as plain values.
//!
//! - [`ingest`] accepts or refuses uploads,
//! - [`command`] computes paths and the arguments of the outside programs,
//! - [`index`] and [`store`] keep the sessions, hand each out once and reclaim
//!   the old ones,
//! - [`document`] renders the report of a migration,
//! - [`reply`] says what is sent back to a client.
//!
//! Every executable function carries a contract that Verus proves. The few
//! calls into other crates are marked as such, with what is taken on trust.

pub mod command;
pub mod document;
pub mod error;
pub mod file;
pub mod index;
pub mod ingest;
pub mod reply;
pub mod store;
pub mod text;
