//! Builder utilities for laying out visual component demos: a unique
//! identifier generator and a set of factory functions that assemble
//! abstract UI-tree fragments, plus one example story built from them.

pub mod color;
pub mod fragment;
pub mod id;
pub mod story;
pub mod text;
