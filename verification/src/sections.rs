//! The generators of the enum's own methods, one group each.

pub mod s01_querying;
pub mod s02_ref_adapters;
pub mod s03_get_contained;
pub mod s04_transformers;
pub mod s05_bool_ops;
pub mod s05_iters;
pub mod s06_entry_ops;
pub mod s07_misc;
pub mod s99_additions;
