//! Launches one child command and supervises it.
//!
//! A run is a machine of decisions, a value of [`Run`]. Each step takes
//! what the system answered to the last request and gives the next
//! request, until the run finishes with a [`RunResult`] or a [`RunError`].
//! A request is an [`Action`], an answer an [`Event`].
//!
//! Before the launch a run can switch to a user and a group and enter a
//! working directory. The namespace's first process then supervises its
//! child: it subscribes to the termination signals, and returns on
//! whichever comes first, a signal or the child's end. Any other process
//! waits for the child and reports its status.
//!
//! The library looks names up, sets ids, subscribes and opens the
//! completion channel by itself. The caller changes the directory, spawns
//! the child and waits: it begins with [`run`] or [`run_with_options`],
//! performs the request that comes back, and hands the answer to
//! [`Run::advance`].

mod channels;
pub mod dispatch;
pub mod laws;
pub mod machine;
pub mod options;
pub mod outcome;
pub mod outside;
mod privilege;

pub use dispatch::{run, run_with_options};
pub use machine::{Action, Event, Run};
pub use options::{Launch, Pending, Role, RunOptions};
pub use outcome::{ExitStatus, RunError, RunResult, TermSignal};
