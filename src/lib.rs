//! Command execution engine for a projector driven over a serial line.
//!
//! Callers submit [`command::Command`]s through a [`control::ProjectorControl`]
//! handle; a single worker, modelled by [`worker::Worker`], owns the port,
//! runs one exchange at a time and answers each command in submission order.

pub mod outside;
pub mod command;
pub mod error;
pub mod text;
pub mod codec;
pub mod pacing;
pub mod exchange;
pub mod worker;
pub mod control;
pub mod volume;
pub mod status;

pub use command::Command;
pub use control::ProjectorControl;

pub use error::{CommandResult, Error};
