//! The first stage: from the annotation's text to its arguments.

pub mod actor_args;
