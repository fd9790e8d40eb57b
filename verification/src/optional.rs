//! The model enum: the smallest enum the generator accepts, with the generated
//! methods written out for it and their meaning proved.
//!
//! Each group of methods stands in the file of the generator that emits it.

use vstd::prelude::*;

verus! {

/// A value that is there (`Something`) or not (`Nothing`).
#[derive(Debug, Clone, Copy, PartialEq, Eq)]
pub enum Optional<T> {
    Something(T),
    Nothing,
}

} // verus!
