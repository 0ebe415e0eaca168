//! Client-side orchestration of a peer-to-peer cache command line: which
//! daemon endpoint an invocation talks to, the health-checked bootstrap of
//! its download client, and the dispatch of the three cache commands.
//!
//! The library decides; it never touches a socket or a file. Its caller
//! does the work at the daemon and reports each outcome as an event.

pub mod bootstrap;
pub mod command;
pub mod dispatch;
pub mod endpoint;
pub mod error;
pub mod history;
pub mod validate;

pub use bootstrap::get_dfdaemon_download_client;
pub use command::Command;
