//! Run a command, or poll one repeatedly, and tell the operator how it went.
//!
//! The library holds the verified logic of the tool: the command value and
//! its shell-safe rendering, the pattern matcher, the watch-loop decision
//! machine, the run-mode decision, the notification model and the error
//! taxonomy.  The thin binary around it does the actual process spawning,
//! sleeping and terminal I/O, and feeds plain values into these functions.

pub mod cmd_run;
pub mod cmd_watch;
pub mod command;
pub mod config;
pub mod errors;
pub mod notify;
pub mod output;
pub mod pattern;
pub mod util;
