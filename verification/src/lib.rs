//! Runtime core of a text-based interactive-fiction engine.
//!
//! A story is a set of rooms; each room has a pre-script, an ordered content
//! stream of literal characters and embedded script blocks, and a post-script.
//! The library holds the room-file parser, the shared story state that script
//! commands read and mutate, the native command surface exposed to the
//! embedded scripting language, and the time-driven reveal scheduler.
//! The host binary owns the script interpreter itself and the terminal; it
//! drives the scheduler and evaluates the script sources the scheduler hands
//! back.

pub mod environment;
pub mod errors;
pub mod lisp;
pub mod script;
pub mod parser;
pub mod project;
pub mod text;
