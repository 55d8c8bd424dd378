//! The entry points: they begin a run, move it on, and perform what the
//! library can perform itself.
//!
//! Looking names up, setting ids, subscribing to signals and opening the
//! completion channel are plain calls, so they are made here. What needs
//! the operating system's files, processes and threads is left to the
//! caller, as the request that comes back.

use crate::channels::{open_completion, subscribe};
use crate::machine::{replies, spec_start, spec_step, Action, ActionView, Event, Run, RunView};
use crate::options::{Role, RunOptions, RunOptionsView};
use crate::outcome::ExitStatus;
use crate::privilege::{lookup_gid, lookup_uid, set_gid, set_uid};
use std::collections::HashMap;
use vstd::prelude::*;

verus! {

/// What the system answered to the requests that the library performs
/// itself. An answer to a request that was never made plays no part.
pub struct Answers {
    /// The id under which the user database holds the user's name.
    pub user: Option<u32>,
    /// Whether setting the user id succeeded.
    pub uid_set: Result<(), nix::errno::Errno>,
    /// The id under which the group database holds the group's name.
    pub group: Option<u32>,
    /// Whether setting the group id succeeded.
    pub gid_set: Result<(), nix::errno::Errno>,
    /// The channel on which the subscribed signals arrive.
    pub signals: chan::Receiver<chan_signal::Signal>,
    /// The sending end of the completion channel.
    pub sender: chan::Sender<Result<ExitStatus, std::io::Error>>,
    /// The receiving end of the completion channel.
    pub completion: chan::Receiver<Result<ExitStatus, std::io::Error>>,
}

/// The run after the event, where the event answers the pending request,
/// and the run as it is, where it does not.
pub open spec fn spec_answer(at: (RunView, ActionView), event: Event) -> (RunView, ActionView) {
    if replies(event, at.1) {
        spec_step(at.0, event)
    } else {
        at
    }
}

/// Where a run stands once the library has performed what it can, given
/// what the system answered. The requests are answered in their order:
/// user, user id, group, group id, subscription, completion channel.
pub open spec fn spec_settle(at: (RunView, ActionView), given: Answers) -> (RunView, ActionView) {
    let resolved = spec_answer(at, Event::UserResolved(given.user));
    let switched = spec_answer(resolved, Event::UidSet(given.uid_set));
    let grouped = spec_answer(switched, Event::GroupResolved(given.group));
    let regrouped = spec_answer(grouped, Event::GidSet(given.gid_set));
    let subscribed = spec_answer(regrouped, Event::Subscribed(given.signals));
    spec_answer(subscribed, Event::CompletionOpened(given.sender, given.completion))
}

/// The options that [`run`] uses: the given environment, the user `hello`,
/// no group, no working directory, and a timeout of five seconds.
pub open spec fn spec_default_options(env: Option<Map<Seq<char>, Seq<char>>>) -> RunOptionsView {
    RunOptionsView { env, user: Some("hello"@), group: None, work_dir: None, exit_timeout: 5 }
}

/// Performs the requests that the library can perform, one after the
/// other, until a request is left that only the caller can perform.
fn settle(run: Run, action: Action) -> (next: (Run, Action))
    ensures
        !next.1@.is_for_library(),
        exists|given: Answers| (next.0@, next.1@) == #[trigger] spec_settle((run@, action@), given),
        !action@.is_for_library() ==> next == (run, action),
{
    let ghost at = (run@, action@);
    let ghost mut user: Option<u32> = None;
    let ghost mut uid_set: Result<(), nix::errno::Errno> = Ok(());
    let ghost mut group: Option<u32> = None;
    let ghost mut gid_set: Result<(), nix::errno::Errno> = Ok(());
    let ghost mut signals: chan::Receiver<chan_signal::Signal> = arbitrary();
    let ghost mut sender: chan::Sender<Result<ExitStatus, std::io::Error>> = arbitrary();
    let ghost mut completion: chan::Receiver<Result<ExitStatus, std::io::Error>> = arbitrary();

    let (run, action) = match action {
        Action::ResolveUser(name) => {
            let found = lookup_uid(name.as_str());
            proof {
                user = found;
            }
            run.step(Event::UserResolved(found))
        },
        other => (run, other),
    };
    let (run, action) = match action {
        Action::SetUid(uid) => {
            let outcome = set_uid(uid);
            proof {
                uid_set = outcome;
            }
            run.step(Event::UidSet(outcome))
        },
        other => (run, other),
    };
    let (run, action) = match action {
        Action::ResolveGroup(name) => {
            let found = lookup_gid(name.as_str());
            proof {
                group = found;
            }
            run.step(Event::GroupResolved(found))
        },
        other => (run, other),
    };
    let (run, action) = match action {
        Action::SetGid(gid) => {
            let outcome = set_gid(gid);
            proof {
                gid_set = outcome;
            }
            run.step(Event::GidSet(outcome))
        },
        other => (run, other),
    };
    let (run, action) = match action {
        Action::Subscribe(wanted) => {
            let arrivals = subscribe(&wanted);
            proof {
                signals = arrivals;
            }
            run.step(Event::Subscribed(arrivals))
        },
        other => (run, other),
    };
    let (run, action) = match action {
        Action::OpenCompletion { buffer } => {
            let (sending, receiving) = open_completion(buffer);
            proof {
                sender = sending;
                completion = receiving;
            }
            run.step(Event::CompletionOpened(sending, receiving))
        },
        other => (run, other),
    };
    assert((run@, action@) == spec_settle(
        at,
        Answers { user, uid_set, group, gid_set, signals, sender, completion },
    ));
    (run, action)
}

/// Begins a run of `cmd` with `args` and performs its first requests as far
/// as the library can.
///
/// Where a user is named, it is looked up and, if found, the user id is
/// set; then the same for the group. A name that is not found is passed
/// over. A failure to set an id ends the run. For the namespace's first
/// process with no directory to enter, the subscription to the signals and
/// the completion channel are made as well. What comes back is the first
/// request that is left to the caller: to change the directory, to execute
/// the child, to race, or to finish. The caller performs it and hands the
/// answer to [`Run::advance`], and so on until the run finishes.
///
/// The lookups and the system calls decide for themselves, so the contract
/// speaks of every answer they may give; where none is needed it fixes the
/// result.
pub fn run_with_options(
    options: RunOptions,
    cmd: String,
    args: Vec<String>,
    role: Role,
) -> (next: (Run, Action))
    ensures
        !next.1@.is_for_library(),
        exists|given: Answers|
            (next.0@, next.1@) == #[trigger] spec_settle(
                spec_start(options@, cmd@, args.deep_view(), role),
                given,
            ),
        !spec_start(options@, cmd@, args.deep_view(), role).1.is_for_library() ==> (
            next.0@,
            next.1@,
        ) == spec_start(options@, cmd@, args.deep_view(), role),
{
    let (run, action) = Run::start(options, cmd, args, role);
    settle(run, action)
}

/// Begins a run of `cmd` with `args` under the default options: the given
/// environment, the user `hello` where the system knows one, no group and
/// no change of directory.
pub fn run(
    cmd: String,
    args: Vec<String>,
    env: Option<HashMap<String, String>>,
    role: Role,
) -> (next: (Run, Action))
    ensures
        !next.1@.is_for_library(),
        exists|given: Answers|
            (next.0@, next.1@) == #[trigger] spec_settle(
                spec_start(spec_default_options(env.deep_view()), cmd@, args.deep_view(), role),
                given,
            ),
{
    let options = RunOptions {
        env,
        user: Some(String::from_str("hello")),
        group: None,
        work_dir: None,
        exit_timeout: 5,
    };
    assert(options@ == spec_default_options(env.deep_view()));
    run_with_options(options, cmd, args, role)
}

impl Run {
    /// Takes the answer to the last request, steps, and performs the next
    /// requests as far as the library can. What comes back is the next
    /// request that is left to the caller.
    ///
    /// Where the step itself leaves a request for the caller, the result
    /// is that step exactly.
    pub fn advance(self, event: Event) -> (next: (Run, Action))
        ensures
            !next.1@.is_for_library(),
            exists|given: Answers|
                (next.0@, next.1@) == #[trigger] spec_settle(spec_step(self@, event), given),
            !spec_step(self@, event).1.is_for_library() ==> (next.0@, next.1@) == spec_step(
                self@,
                event,
            ),
    {
        let (run, action) = self.step(event);
        settle(run, action)
    }
}

} // verus!
