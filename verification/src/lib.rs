//! Verified core of fterm: SSH/SCP wrapper logic, ssh config parsing and
//! validation, tmux session bookkeeping and banner/log text generation.

pub mod check_types;
pub mod cli;
pub mod error;
pub mod text;
pub mod runner;
pub mod ssh_parse;
pub mod util;
pub mod logging;
pub mod tmux;
pub mod config;
pub mod validate;
pub mod command;
