//! Built-in object constructors layered over the core: only the parts
//! whose behavior the records' contracts can state. Wiring them into a
//! realm's registry is the host's work.

pub mod error;
