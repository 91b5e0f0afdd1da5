//! The update-orchestration core of a desktop application.
//!
//! Two state machines decide what happens during an update: the [`checker::Checker`]
//! asks the remote feed whether a newer version exists and retries transient failures
//! with a fixed backoff; the [`installer::Installer`] re-checks, follows the download
//! chunk by chunk while reporting progress, and ends in a restart or in an error.
//!
//! Neither machine performs any I/O.  Each one names the request it is waiting on; the
//! host carries the request out and hands back what happened as an event.
//!
//! - [`checker`], [`installer`]: the two machines, each with its mathematical model.
//! - [`checker_laws`], [`installer_laws`]: what holds of every run of a machine.
//! - [`retry`], [`progress`], [`lock`]: the attempt counter, the byte counter, and the
//!   flag that admits one installation at a time.
//! - [`release`], [`error`]: what the feed announces, and what can go wrong.
//! - [`payload`]: the JSON objects handed to the user interface.

pub mod checker;
pub mod checker_laws;
pub mod error;
pub mod installer;
pub mod installer_laws;
pub mod lock;
pub mod payload;
pub mod progress;
pub mod release;
pub mod retry;
