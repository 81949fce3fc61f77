//! Core runtime substrate of an ECMAScript interpreter: the reference-counted
//! primitive string type and the lexical-environment record hierarchy of
//! ECMA-262 section 8.1, with machine-checked contracts.

pub mod builtins;
pub mod environment;
pub mod name_map;
pub mod number;
pub mod object;
pub mod string;
pub mod utf16;
pub mod value;
