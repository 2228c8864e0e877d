//! Ownership of Actors across Servers: leases, placement and resolution.

pub mod authority;
pub mod endpoint;
pub mod in_process;
pub mod lease;
pub mod node;
pub mod placement;
pub mod routing;
pub mod s3;
pub mod startup;
