//! Small command-line utilities: an upward directory search, a TLS handshake
//! tester and a process supervisor that is steered over a named pipe.

pub mod executable;
pub mod find_upwards;
pub mod paths;
pub mod process_waiter;
pub mod ssl_tester;
pub mod text;
