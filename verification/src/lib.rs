//! Replication of copy-on-write subvolumes from one device to another.
//!
//! The library decides and does not act. A run talks to a [`Host`]: it
//! asks for a line to be printed, a command to be run, a snapshot to be
//! renamed, and goes on with the reply. The host holds the replies that
//! are known and keeps a journal of the requests; the first request
//! without a reply is the one that the caller performs next. [`advance`]
//! carries a run as far as the known replies reach.
//!
//! Every function that asks something of the host states, over the model
//! of the host, which requests it adds to the journal and what it returns
//! for each reply. The module `laws` holds what follows for every run.

pub mod backup;
pub mod command;
pub mod failure;
pub mod host;
pub mod laws;
mod lemmas;
pub mod mount;
pub mod orchestrator;
pub mod text;

pub use backup::{child, staged, Backup, Phase, State, Subvolume};
pub use command::{exec, format_command, Command};
pub use failure::Failure;
pub use host::{Host, Reply, Request};
pub use mount::Mount;
pub use orchestrator::{advance, conclude, pass, report, run, Progress, Settings};
