//! A small request/response service abstraction and a pluggable connector.
//!
//! `service` holds the readiness answer shared by every service, `util` the
//! two service combinators, `connection` the duplex byte stream that a
//! connector hands out, and `connect` the connector itself, as a state
//! machine whose host-side work is performed by its caller.
pub mod connect;
pub mod connection;
pub mod service;
pub mod util;
