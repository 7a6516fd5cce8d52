//! Argument inspection, duration and path text, banners and the `SSH_ENV`
//! file format.

pub mod dry_run;
pub mod duration;
pub mod fzf;
pub mod log_dir;
pub mod path;
pub mod scp_args;
pub mod splash;
pub mod ssh_args;
pub mod ssh_env;
