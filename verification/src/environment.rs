//! The lexical-environment record hierarchy: four record kinds, each with
//! the binding operations of ECMA-262 section 8.1, and the chain walker
//! that resolves identifiers through them.

pub mod declarative_environment_record;
pub mod function_environment_record;
pub mod global_environment_record;
pub mod lexical_environment;
pub mod object_environment_record;
