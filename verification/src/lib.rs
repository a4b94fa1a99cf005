//! Generates the code that exposes native types to an embedded Lua runtime.
//!
//! Three extractors read a declaration and generate a helper routine for it:
//! [`structure`] registers a getter for each field of a struct,
//! [`enumeration`] a constructor for each unit variant of an enum, and
//! [`implementation`] a call for each routine of a method block.
//! [`compile`] then assembles, for one type, the implementation of the
//! runtime's object protocol that calls the helpers asked for.
//!
//! Everything goes from source text to source text. The text is read by
//! `syn`; what is generated from it is decided here.

pub mod assembly;
pub mod fields;
pub mod generate;
pub mod methods;
pub mod model;
pub mod registry;
pub mod render;
pub mod search;
pub mod syntax;
pub mod variants;

pub use assembly::{compile, CompileInput};
pub use fields::structure;
pub use methods::implementation;
pub use model::GenError;
pub use variants::enumeration;
