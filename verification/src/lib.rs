//! Stateless registry of self-service chat channels and the public index
//! that lists them.
//!
//! Nothing is stored: which channels are managed, and who created each one,
//! is derived from the channel directory of the platform every time it is
//! needed, and the public index is rebuilt from that.
//!
//! - [`ownership`]: the creator of a channel, written into and read from
//!   the channel's access-control list.
//! - [`utils`]: the registry, the public index, and the two role checks.
//! - [`sorting`] and [`lexical`]: the order of the index.
//! - [`embed`] and [`decimal`]: the text of the notices.
//! - [`commands`]: the five actions, each as a state machine.
//! - [`laws`]: what holds of all of it.

pub mod commands;
pub mod config;
pub mod decimal;
pub mod embed;
pub mod error;
pub mod laws;
pub mod lexical;
pub mod ownership;
pub mod sorting;
pub mod utils;
