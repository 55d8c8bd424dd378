//! How a run ends: the result of a supervised child, and what can go wrong.

use vstd::prelude::*;

verus! {

/// A termination signal that the supervisor listens for.
#[derive(Clone, Copy, Debug, PartialEq, Eq, Structural)]
pub enum TermSignal {
    /// The interrupt signal (SIGINT).
    Interrupt,
    /// The termination signal (SIGTERM).
    Terminate,
}

/// The status that a child left when it terminated.
#[derive(Clone, Copy, Debug, PartialEq, Eq, Structural)]
pub struct ExitStatus {
    /// The exit code, or `None` where the child did not exit by itself
    /// (it was killed by a signal).
    pub code: Option<i32>,
}

impl ExitStatus {
    /// Whether the child exited with code zero.
    pub fn success(&self) -> (ok: bool)
        ensures
            ok <==> self.code == Some(0i32),
    {
        match self.code {
            Some(code) => code == 0,
            None => false,
        }
    }
}

/// The terminal outcome of a run.
#[derive(Clone, Copy, Debug, PartialEq, Eq, Structural)]
pub enum RunResult {
    /// The child terminated with the recorded status.
    Exited(ExitStatus),
    /// The supervisor was asked to terminate before the child finished;
    /// `None` where the signal channel gave no signal.
    Signalled(Option<TermSignal>),
    /// The completion channel closed without delivering a value.
    ChanEnded,
}

impl RunResult {
    /// The exit code that a caller may hand on as its own: that of a child
    /// that exited by itself, and none otherwise.
    pub fn exit_code(&self) -> (code: Option<i32>)
        ensures
            code == self.spec_exit_code(),
    {
        match self {
            RunResult::Exited(status) => status.code,
            RunResult::Signalled(_) => None,
            RunResult::ChanEnded => None,
        }
    }

    /// The exit code to mirror, as a specification.
    pub open spec fn spec_exit_code(&self) -> Option<i32> {
        match *self {
            RunResult::Exited(status) => status.code,
            _ => None,
        }
    }
}

/// Why a run failed.
#[derive(Debug)]
pub enum RunError {
    /// A name was resolved, and setting the user or group id then failed.
    PrivilegeError(nix::errno::Errno),
    /// The working directory could not be changed.
    IoError(std::io::Error),
    /// The child could not be spawned or waited for.
    ProcessError(std::io::Error),
}

/// The text that `nix` gives an error number: the number's name, a colon
/// and a space, and the description that `nix` keeps for it in a fixed
/// table. It depends on the number alone.
pub uninterp spec fn spec_errno_text(errno: nix::errno::Errno) -> Seq<char>;

/// Formats the error number with `nix`'s `Display` for `Errno`, which
/// writes the number's name and its description from a fixed table. The
/// contract gives that text its name and claims no more of it.
#[verifier::external_body]
fn errno_text(errno: &nix::errno::Errno) -> (text: String)
    ensures
        text@ == spec_errno_text(*errno),
{
    format!("{}", errno)
}

/// Formats the error with std's `Display` for `std::io::Error`. For an
/// error of the operating system the text is the system's message, which
/// need not be the same everywhere. Nothing is claimed of the text.
#[verifier::external_body]
fn io_error_text(error: &std::io::Error) -> (text: String) {
    format!("{}", error)
}

impl RunError {
    /// The words that a description of the error begins with: they say
    /// which kind of call failed.
    pub open spec fn spec_prefix(&self) -> Seq<char> {
        match self {
            RunError::PrivilegeError(_) => "UNIX call: "@,
            RunError::IoError(_) => "I/O call: "@,
            RunError::ProcessError(_) => "Process error: "@,
        }
    }

    /// The line that describes the error, given the underlying error's
    /// own words: the kind of call that failed, then those words, and
    /// nothing else.
    pub fn with_detail(&self, detail: &str) -> (text: String)
        ensures
            text@ == self.spec_prefix() + detail@,
    {
        let prefix = match self {
            RunError::PrivilegeError(_) => String::from_str("UNIX call: "),
            RunError::IoError(_) => String::from_str("I/O call: "),
            RunError::ProcessError(_) => String::from_str("Process error: "),
        };
        prefix.concat(detail)
    }

    /// A line that describes the error: the kind of call that failed, then
    /// the underlying error in its own words, as [`RunError::with_detail`]
    /// joins them. For a privilege error those words are the ones that
    /// `nix` has for the error number.
    pub fn describe(&self) -> (text: String)
        ensures
            self.spec_prefix().is_prefix_of(text@),
            *self matches RunError::PrivilegeError(errno) ==> text@ == self.spec_prefix()
                + spec_errno_text(errno),
    {
        let detail = match self {
            RunError::PrivilegeError(errno) => errno_text(errno),
            RunError::IoError(error) => io_error_text(error),
            RunError::ProcessError(error) => io_error_text(error),
        };
        let text = self.with_detail(detail.as_str());
        assert(text@.subrange(0, self.spec_prefix().len() as int) =~= self.spec_prefix());
        text
    }
}

} // verus!
