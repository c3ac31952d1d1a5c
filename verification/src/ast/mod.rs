//! The values that pass from stage to stage.

pub mod args;
pub mod decl;
