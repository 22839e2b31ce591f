//! Core of an interactive terminal line editor with a live, asynchronously
//! computed hint. The heart is the shared prompt state: a text buffer with a
//! cursor, hint text, highlight annotations and a dirty flag, mutated by an
//! input actor and a background compute actor and drained by a periodic
//! render actor. This crate holds the state, its mutators, the render
//! formatter and the per-tick decision logic; the thread and terminal
//! plumbing around it lives with the binary.

pub mod calculate;
pub mod engine;
pub mod prompt;
pub mod render;
pub mod syntax;
