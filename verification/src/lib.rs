//! Dispense commands for a dispensing device, and the request shapes that
//! carry them.
//!
//! A [`DispenseCommand`] is the one thing a client can ask for. It reaches the
//! API in four different input encodings (see [`input`]); each is decoded into
//! a command, or refused with a [`SelectionError`] when the encoding names no
//! single command. The resolvers in [`resolvers`] answer each request.

pub mod command;
pub mod input;
pub mod resolvers;

pub use command::{DispenseCommand, SelectionError};
