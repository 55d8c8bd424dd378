//! The types of other crates that a run carries through.
//!
//! Each is declared so that it can stand in the library's signatures and
//! fields. Nothing is known of what is inside a value of any of them.

use vstd::prelude::*;

verus! {

/// The error of the operating system's file and process calls.
#[verifier::external_type_specification]
#[verifier::external_body]
pub struct ExIoError(std::io::Error);

/// The error number that a failed UNIX call leaves behind, as `nix` names
/// it.
#[verifier::external_type_specification]
#[verifier::external_body]
pub struct ExErrno(nix::errno::Errno);

/// The sending end of a `chan` channel.
#[verifier::external_type_specification]
#[verifier::external_body]
#[verifier::reject_recursive_types(T)]
pub struct ExSender<T>(chan::Sender<T>);

/// The receiving end of a `chan` channel.
#[verifier::external_type_specification]
#[verifier::external_body]
#[verifier::reject_recursive_types(T)]
pub struct ExReceiver<T>(chan::Receiver<T>);

/// A signal as `chan_signal` names it.
#[verifier::external_type_specification]
#[verifier::external_body]
pub struct ExOsSignal(chan_signal::Signal);

} // verus!
