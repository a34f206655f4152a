//! A verified engine for a shared estimation session: many participants
//! join one round, move, vote and confirm, while a facilitator drives the
//! round through its phases. Every change yields the snapshots that each
//! connected viewer is entitled to see, and puts them on the viewers'
//! queues.
//!
//! - [`model`] and [`protocol`] hold the data and the messages, each with
//!   its mathematical view.
//! - [`rules`] states what every command does and what every viewer may
//!   see; [`laws`] proves what follows for all states and commands.
//! - [`state`], [`handler`] and [`connection`] are the session itself: the
//!   registry, the command processor and the life of a connection.
//! - [`status`] and [`stats`] summarise the session for onlookers.
//! - [`client`], [`zones`] and [`avatar`] serve the terminal client.

pub mod avatar;
pub mod client;
pub mod clock;
pub mod connection;
pub mod handler;
pub mod laws;
pub mod model;
pub mod protocol;
pub mod rules;
pub mod state;
pub mod stats;
pub mod status;
pub mod zones;
