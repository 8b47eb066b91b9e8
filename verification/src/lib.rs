//! A backend-agnostic database abstraction layer.
//!
//! Callers issue parameterized queries and schema introspection against
//! either of two backends — an embedded file database or a network
//! database server — and receive results in one tagged value model.
//! This crate holds the backend-independent logic of that layer: the
//! value model, bind-time argument checking, the row decoder, the
//! connection state machine, and the session-claim builders. The
//! asynchronous driver calls that move bytes to and from a backend live
//! outside it and hand plain values in.

pub mod model;
pub mod decode;
pub mod record;
pub mod bind;
pub mod conn;
pub mod auth;
