//! The core of a runtime for LLM-driven agents, with its rules proved.
//!
//! The library decides and its caller acts. Nothing here reads a clock,
//! touches a file or waits for a network: the turn loop is a machine that is
//! stepped from outside, the state store plans statements and reads rows, and
//! the tool pipeline takes the outcome of each outside call as a value.
//!
//! - [`kernel`] holds the turn loop ([`kernel::turn::Kernel`]), its model
//!   ([`kernel::model`]), the session it keeps ([`kernel::session`]), the
//!   decisions about tool calls ([`kernel::dispatch`]) and the laws that
//!   hold of every run ([`kernel::laws`]).
//! - [`persistence`] holds the statements of the state store and the
//!   reading of its rows.
//! - [`tools`] holds the contract of tools and their registry.
//! - [`inference`] holds the messages exchanged with a provider.

pub mod clock;
pub mod inference;
pub mod json;
pub mod kernel;
pub mod persistence;
pub mod text;
pub mod tools;
pub mod views;
