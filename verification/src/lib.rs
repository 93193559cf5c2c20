//! An interactive key-value editor core: a state machine over two draft
//! buffers, a string-to-string store, and three interaction modes, together
//! with the serialization of the finished store to JSON text.
//!
//! The state machine is pure: it takes key events as plain values and mutates
//! only its own state. Reading keys from a terminal and drawing frames are a
//! driver's business, outside this crate's verified core.

pub mod app;
pub mod events;
pub mod json;
pub mod laws;
pub mod string_ops;
