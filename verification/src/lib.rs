//! Authenticated capture source for frames that an external client observed and
//! forwards over a WebSocket.
//!
//! [`backend`] holds the settings and the listener's decisions, [`auth`] the check of the
//! request that opens a connection, [`connection`] the decisions on a connection, and
//! [`state`] the open sessions. [`wire`], [`payload`] and [`sequence`] hold the rules on a
//! message and its fields. [`rules`] states what each operation does, and [`laws`] what
//! holds of all of them together.

pub mod auth;
pub mod backend;
pub mod connection;
pub mod error;
pub mod laws;
pub mod payload;
pub mod rules;
pub mod sequence;
pub mod state;
pub mod text;
pub mod wire;
