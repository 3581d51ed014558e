//! Resource-to-document mapping for a catalogue of hot-spring facilities that
//! is kept in a text-search engine.
//!
//! The crate holds the rules on both sides of one engine call: what is asked
//! of the engine for each resource operation, and what the engine's answer
//! means for the caller. It performs no I/O and keeps no state of its own.

pub mod error;
pub mod record;
pub mod codec;
pub mod query;
pub mod engine;
pub mod ops;
pub mod collection;
pub mod setup;
