//! Decisions behind a desktop installer for the Wazuh agent.
//!
//! The installer runs a setup script, and later an enrollment client, as child processes with
//! raised privileges, and shows their output as it comes. This crate holds what it decides on
//! the way: which script is run and under which command, at which level a line of output is
//! shown, when the user is asked for a code, and what the end of a process means. Reading,
//! writing and waiting are left to the caller, who is told what to do one step at a time and
//! hands the outcome back.
//!
//! - [`config`]: the user's choices, and which of them are accepted.
//! - [`script`]: the course of finding the bundled setup script.
//! - [`install`]: the course of an installation.
//! - [`enroll`]: the course of an enrollment, and the sending of the user's code.
//! - [`log`]: log lines and their levels.
//! - [`outcome`]: how processes end, and what the user interface is sent.
//! - [`command`]: command lines for child processes.
//! - [`tray`]: what the tray icon and its menu do.
//! - [`text`]: text primitives.

pub mod command;
pub mod config;
pub mod enroll;
pub mod install;
pub mod log;
pub mod outcome;
pub mod script;
pub mod text;
pub mod tray;

pub use config::{validate_config, InstallConfig};
pub use log::{classify_line, LogLine};
pub use outcome::InstallResult;
