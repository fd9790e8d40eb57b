//! The generators of what stands outside the enum's own impl block.

pub mod impls;
pub mod traits;
