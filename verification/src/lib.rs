//! Decision logic of a scratchpad window toggler for a tiling compositor.

pub mod action;
pub mod args;
pub mod controller;
pub mod json;
pub mod laws;
pub mod snapshot;
pub mod store;
pub mod text;
