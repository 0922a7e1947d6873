//! Rendering of named integer constants, grouped in namespaces, as source
//! files of a target language.
//!
//! A backend implements [`FileBuilder`]: each operation appends the text of one
//! structural event to an output buffer, and its contract states that text
//! exactly. [`CppFileBuilder`] renders C++ headers.
use vstd::prelude::*;

pub mod cpp_file_builder;
pub mod file_builder;
pub mod hex;

pub use cpp_file_builder::CppFileBuilder;
pub use file_builder::FileBuilder;

verus! {

} // verus!
