//! An embedded script evaluation engine: a host hands over a snippet of
//! dynamic-language source together with named globals, the script runs in an
//! isolated scope with a small set of bridge functions, and the host receives
//! either a structured result value or a formatted error message.
//!
//! This crate holds the verified core: the bidirectional value bridge between
//! the JSON-like value model and the interpreter's native object model, the
//! pinned textual serialization used by the mock bridge, the exception
//! formatter, and the evaluation outcome state machine.

pub mod value;
pub mod codec;
pub mod native;
pub mod text;
pub mod exception;
pub mod bridge;
pub mod engine;
pub mod rng;

pub use value::{Number, Value};
