//! The Server side of the runtime: routes, Sessions and the lifecycle of Actors.


pub mod actor;
pub mod builder;
pub mod inbound;
pub mod lifecycle;
pub mod message;
pub mod route;
pub mod server;
pub mod session;
pub mod shutdown;
