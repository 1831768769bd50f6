//! An upward search for a named entry in a directory and its ancestors.

pub mod command;
pub mod error;
