//! Supervision and document-editing core of a small script-actor host.
//!
//! Each actor owns one [`document::Document`] and reacts to events of its
//! scripting engine and to control messages; one supervisor keeps the
//! directory of actors and decides when the host shuts down.  Everything in
//! this crate is a function from plain values to plain values: channels,
//! threads, files and the engine itself belong to the program around it.

pub mod actor;
pub mod document;
pub mod edit;
pub mod error;
pub mod message;
pub mod supervisor;
pub mod text;
pub mod wire;
