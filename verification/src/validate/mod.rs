//! The second stage: which arguments must be there.

pub mod args;
