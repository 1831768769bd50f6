//! A process supervisor that owns one child command and takes lifecycle
//! instructions over a control channel.

pub mod action;
pub mod command;
pub mod error;
pub mod laws;
pub mod lifecycle;
pub mod protocol;
pub mod signal;
pub mod supervisor;
