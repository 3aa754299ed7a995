//! A dispatch-table binding generator.
//!
//! The library turns a machine-readable API registry — commands, enums and
//! type aliases for a fixed API version and profile — into source text that
//! declares numeric type aliases, enum constants, an empty dispatch struct,
//! one trampoline method per command, and one foreign function-pointer
//! symbol per command under a fixed `epoxy_` prefix.

pub mod emit;
pub mod generate;
pub mod hexlit;
pub mod laws;
pub mod markup;
pub mod registry;

