//! Session logging: the log line filter, starting and stopping the tmux
//! pipe into the log file.

pub mod filter;
pub mod start;
pub mod stop;
