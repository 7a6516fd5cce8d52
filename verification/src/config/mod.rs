//! SSH configuration: `ssh -G` derived connection data, agent key matching,
//! host blocks and host lists of config files, and `Include` directives.

pub mod agent;
pub mod block;
pub mod connection;
pub mod details;
pub mod files;
pub mod home;
pub mod includes;
pub mod hosts;
