//! Supervision of the rclone engine for a desktop application: the state
//! machines that decide what to do next for the engine process, for a
//! cancellable child process, for a copy job and for an authorization, and
//! the parsing of what the engine and its subprocesses write.
//!
//! Nothing here touches a process, a socket or a file. The caller does what
//! an action asks for and hands back what happened as an event.

pub mod auth;
pub mod error;
pub mod gdrive;
pub mod install;
pub mod job;
pub mod logs;
pub mod remotes;
pub mod runner;
pub mod server;
pub mod session;
pub mod text;
