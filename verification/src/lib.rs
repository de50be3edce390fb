//! Core of a chat bot that opens a discussion thread whenever somebody posts a
//! `spawn` call as a message: the message filter, the command recognizer, the
//! rule that names the thread, and the per-event decision.
//!
//! Everything here is a pure function of plain values; the gateway session and
//! the call that creates the thread live outside this crate.

pub mod filter;
pub mod label;
pub mod model;
pub mod pipeline;
pub mod recognizer;
pub mod text;
