//! The caller side: finding Owners, opening Sessions, and what comes back.

pub mod builder;
pub mod connection;
pub mod discovery;
pub mod inner;
pub mod open;
pub mod placing;
pub mod session;
