//! A compiler from a small scene-description language to a JavaScript module
//! that builds the described scene with the `three` rendering library.
//!
//! Parsing and rendering are pure functions; every result is stated against a
//! mathematical model of the grammar (`lexical`, `structure`) and of the
//! emitted text (`three`).
use vstd::prelude::*;

pub mod ast;
pub mod lexical;
pub mod structure;
pub mod three;

verus! {

} // verus!
