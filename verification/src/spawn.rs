//! The grid and what stands on it.

pub mod level;
pub mod tree;
