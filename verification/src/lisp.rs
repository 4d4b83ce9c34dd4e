//! The native command surface the engine exposes to story scripts,
//! grouped by namespace.  Each native function takes the shared story
//! state and the script-level argument list, validates the arguments, and
//! either mutates or reads the state or returns a typed failure.

pub mod basic;
pub mod color;
pub mod content;
pub mod listener;
pub mod options;
pub mod random;
pub mod title;
