//! Real-time dispatch core of a greenhouse monitoring service.
//!
//! Clients hold a socket open, authorize once and subscribe to the entities
//! they care about. The crate holds the parts that decide: the envelope
//! schema, the protocol of a connection, the registry that fans events out
//! to subscribers, the bridge to the message bus, and the request handlers.
//!
//! Nothing in here touches a socket, a database or the bus. Whatever needs
//! one asks for it: a handler returns a [`exchange::Step`] that either asks
//! a [`exchange::Query`] or is done with a list of [`exchange::Effect`]s.
//! The caller performs the query, adds the answer to the answers so far,
//! and calls again with the same input; it performs the effects in order.

pub mod api;
pub mod auth;
pub mod bridge;
pub mod codec;
pub mod connection;
pub mod dispatch;
pub mod eetf;
pub mod error;
pub mod exchange;
pub mod messages;
pub mod model;
pub mod numbers;
pub mod passwd;
pub mod payload;
pub mod registry;
pub mod router;
pub mod services;
pub mod snowflake;
pub mod socket;
pub mod templates;
pub mod text;
pub mod windows;
pub mod wire;
pub mod worker;

