//! The command runtime: Actors that answer requests, one reply to each.

pub mod api;
pub mod builder;
pub mod lease;
pub mod ownership;
pub mod remote;
pub mod runtime;
pub mod s3;
