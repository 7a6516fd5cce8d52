//! The `fterm` subcommands: what each decides and computes.

pub mod completion;
pub mod connect;
pub mod fgen;
pub mod flog;
pub mod scp;
pub mod session;
pub mod ssh;
