//! Tmux pane, window and session management through the command runner.

pub mod pane;
pub mod session;
pub mod window;
