//! Struct-of-arrays code generation.
//!
//! Given the shape of a struct with named fields, the library writes the
//! source text of its struct-of-arrays companion: a collection holding one
//! `Vec` per field, pointer, reference and iterator views over its columns,
//! and, when every field may be sent across threads, a parallel-extend
//! implementation.
use vstd::prelude::*;

pub mod input;
pub mod names;
pub mod send;
pub mod lines;
pub mod expand;
pub mod laws;

verus! {

} // verus!
