//! Command-line construction and shutdown decisions for an OpenVPN child process.

pub mod decimal;
pub mod escape;
pub mod net;
pub mod command;
pub mod supervisor;
