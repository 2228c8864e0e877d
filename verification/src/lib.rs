//! Embedded distributed Actor runtime for Rust applications.
//!
//! CoActor addresses logical Actors by a validated address, hosts them in a
//! Server and lets callers talk to them through bidirectional Sessions. This
//! crate holds the decisions of the runtime: every rule on addresses, routing,
//! ownership, leases, placement and Sessions, each with its proof. The
//! asynchronous shell around it performs the I/O that these rules ask for.

pub mod actor;
pub mod client;
pub mod cluster;
pub mod command;
pub mod error;
pub mod keyed;
pub mod macros;
pub mod mailbox;
pub mod runtime;
pub mod test_support;
pub mod text;
pub mod time;
pub mod transport;
pub mod transport_protocol;
