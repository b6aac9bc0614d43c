//! Connection lifecycle and shutdown coordination for a small subscription
//! service that listens on a line-oriented TCP socket and an HTTP endpoint.
//!
//! The library decides and the runtime around it acts. The runtime binds the
//! sockets, reads, writes and waits, and reports each outcome as an event;
//! the library answers with what to do next:
//!
//! - [`shutdown`] holds the broadcaster that fans one shutdown signal out to
//!   every subscriber, each of which sees it exactly once;
//! - [`connection`] holds the handler of one connection and its line
//!   protocol;
//! - [`supervisor`] holds the acceptor loop's decisions;
//! - [`config`] holds the start-up configuration;
//! - [`records`] holds the stored records and their decoding from rows.

pub mod config;
pub mod connection;
pub mod records;
pub mod shutdown;
pub mod supervisor;
