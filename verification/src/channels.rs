//! The channels of a supervised run: one on which the operating system's
//! signals arrive, and one on which the worker reports the child's end.
//!
//! Nothing here is proved: each function hands one call to the channel
//! crates and gives back what they made. The run carries the channel ends
//! through to the race and never looks inside them.

use crate::outcome::{ExitStatus, TermSignal};
use vstd::prelude::*;

verus! {

/// Calls `chan_signal::notify` with the given signals, each as the channel
/// crate names it, and gives the channel on which they will arrive.
///
/// The subscription lasts for the life of the process, and the channel is
/// never closed. It must be made before the process starts other threads.
/// Nothing is claimed of the channel.
#[verifier::external_body]
pub(crate) fn subscribe(signals: &Vec<TermSignal>) -> (arrivals: chan::Receiver<
    chan_signal::Signal,
>) {
    let wanted: Vec<chan_signal::Signal> = signals
        .iter()
        .map(|signal| match signal {
            TermSignal::Interrupt => chan_signal::Signal::INT,
            TermSignal::Terminate => chan_signal::Signal::TERM,
        })
        .collect();
    chan_signal::notify(&wanted)
}

/// Calls `chan::sync` with the given buffer size and gives both ends of
/// the new channel. With a buffer of zero a send waits for its receive.
/// Nothing is claimed of the ends.
#[verifier::external_body]
pub(crate) fn open_completion(buffer: usize) -> (ends: (
    chan::Sender<Result<ExitStatus, std::io::Error>>,
    chan::Receiver<Result<ExitStatus, std::io::Error>>,
)) {
    chan::sync(buffer)
}

} // verus!
