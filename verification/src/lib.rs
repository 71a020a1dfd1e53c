//! Translates annotated source declarations (structs, enums, type aliases,
//! constants) into TypeScript type declarations.
//!
//! The library works on its own declaration model (`model`); reading source
//! files and parsing them into that model is left to the surrounding
//! application. Every emission function states the exact text it appends.

use vstd::prelude::*;

pub mod attrs;
pub mod casing;
pub mod emit;
pub mod emit_enums;
pub mod emit_rest;
pub mod emit_structs;
pub mod items;
pub mod laws;
pub mod model;
pub mod numbers;
pub mod output;
pub mod samples;
pub mod strings;
pub mod to_typescript;
pub mod typescript;

verus! {

pub use crate::output::BuildState;
pub use crate::strings::build_indentation;
pub use crate::to_typescript::ToTypescript;
pub use crate::typescript::TsType;

} // verus!
