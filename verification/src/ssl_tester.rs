//! A tester that connects to a host and tries a TLS handshake under a chosen
//! set of protocol versions and verification settings.

pub mod command;
pub mod error;
