//! The last stage: the impl of the actor trait.

pub mod expand;
