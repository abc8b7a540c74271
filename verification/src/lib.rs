//! A verified model of a small versioned compute service.
//!
//! The library has four layers, leaves first:
//! - [`generator`]: stateful generators for two linear recurrences
//!   (two-term Fibonacci-style and three-term Tribonacci-style) with an
//!   explicit overflow policy;
//! - [`engine`]: drives a generator a requested number of steps and turns
//!   out-of-range or overflow conditions into typed errors;
//! - [`package`]: an append-only record of immutable contract versions under
//!   one stable package identity;
//! - [`router`]: the externally callable surface, dispatching a named
//!   operation against the resolved version and persisting the result in a
//!   single overwrite-on-success slot.

pub mod engine;
pub mod generator;
pub mod package;
pub mod router;

pub use generator::Fibonacci;
pub use generator::Threebonacci;
