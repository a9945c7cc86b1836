//! Command routing, plugin lookup and server start-up configuration for the
//! Fluvio command line tools.
//!
//! The crate holds the decisions of two front ends. The first is the `fluvio`
//! command line: which handler a parsed command goes to, where an external
//! plugin is looked for, and how the way a plugin ended becomes the way the
//! parent ends. The second is the start-up of the streaming controller: its
//! run mode, its configuration, and the material of its TLS acceptor.
//!
//! Nothing here prints, spawns a process or ends one: each function returns a
//! description of what is to be done, and the caller carries it out.

pub mod config;
pub mod dispatch;
pub mod paths;
pub mod plugin;
pub mod root;
pub mod server;
pub mod text;
pub mod tls;
pub mod util;
