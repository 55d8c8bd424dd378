//! The run as a machine: from a state and an event to the next state and
//! the next request.
//!
//! The machine performs nothing itself. Each [`Action`] is a request; the
//! [`Event`] that answers it is handed to [`Run::step`], which gives the
//! next request, until the run finishes. No request asks for anything to
//! be done to a child that runs: a run never kills its child and never
//! waits for it once a signal has won.

use crate::options::{Launch, LaunchView, Pending, PendingView, Role, RunOptions, RunOptionsView};
use crate::outcome::{ExitStatus, RunError, RunResult, TermSignal};
use vstd::prelude::*;

verus! {

/// What the machine asks for next.
#[derive(Debug)]
pub enum Action {
    /// Look the user name up in the system's user database.
    ResolveUser(String),
    /// Set the process's user id.
    SetUid(u32),
    /// Look the group name up in the system's group database.
    ResolveGroup(String),
    /// Set the process's group id.
    SetGid(u32),
    /// Change the working directory.
    ChangeDir(String),
    /// Spawn the child and block until it exits.
    Execute(Launch),
    /// Subscribe to these signals. No child exists yet.
    Subscribe(Vec<TermSignal>),
    /// Open the completion channel, with room for `buffer` values.
    OpenCompletion { buffer: usize },
    /// Hand `launch` and `sender` to a worker that runs the launch as
    /// `Execute` would and sends the outcome, and wait for whichever comes
    /// first: a signal on `signals`, or the outcome on `completion`.
    Race {
        launch: Launch,
        signals: chan::Receiver<chan_signal::Signal>,
        sender: chan::Sender<Result<ExitStatus, std::io::Error>>,
        completion: chan::Receiver<Result<ExitStatus, std::io::Error>>,
    },
    /// The run is over, with this result.
    Finish(Result<RunResult, RunError>),
    /// Nothing new: the event answered no request.
    Nothing,
}

/// The mathematical content of [`Action`].
pub enum ActionView {
    ResolveUser(Seq<char>),
    SetUid(u32),
    ResolveGroup(Seq<char>),
    SetGid(u32),
    ChangeDir(Seq<char>),
    Execute(LaunchView),
    Subscribe(Seq<TermSignal>),
    OpenCompletion { buffer: usize },
    Race {
        launch: LaunchView,
        signals: chan::Receiver<chan_signal::Signal>,
        sender: chan::Sender<Result<ExitStatus, std::io::Error>>,
        completion: chan::Receiver<Result<ExitStatus, std::io::Error>>,
    },
    Finish(Result<RunResult, RunError>),
    Nothing,
}

impl View for Action {
    type V = ActionView;

    open spec fn view(&self) -> ActionView {
        match *self {
            Action::ResolveUser(name) => ActionView::ResolveUser(name@),
            Action::SetUid(uid) => ActionView::SetUid(uid),
            Action::ResolveGroup(name) => ActionView::ResolveGroup(name@),
            Action::SetGid(gid) => ActionView::SetGid(gid),
            Action::ChangeDir(dir) => ActionView::ChangeDir(dir@),
            Action::Execute(launch) => ActionView::Execute(launch@),
            Action::Subscribe(signals) => ActionView::Subscribe(signals@),
            Action::OpenCompletion { buffer } => ActionView::OpenCompletion { buffer },
            Action::Race { launch, signals, sender, completion } => ActionView::Race {
                launch: launch@,
                signals,
                sender,
                completion,
            },
            Action::Finish(result) => ActionView::Finish(result),
            Action::Nothing => ActionView::Nothing,
        }
    }
}

impl ActionView {
    /// The launch that the request hands out, if it asks for a child.
    pub open spec fn launch(self) -> Option<LaunchView> {
        match self {
            ActionView::Execute(launch) => Some(launch),
            ActionView::Race { launch, signals, sender, completion } => Some(launch),
            _ => None,
        }
    }

    /// Whether the request is one that the library performs itself: a
    /// lookup, a change of identity, the subscription, or the opening of
    /// the completion channel.
    pub open spec fn is_for_library(self) -> bool {
        ||| self is ResolveUser
        ||| self is SetUid
        ||| self is ResolveGroup
        ||| self is SetGid
        ||| self is Subscribe
        ||| self is OpenCompletion
    }
}

/// What happened: the answer to an [`Action`].
#[derive(Debug)]
pub enum Event {
    /// The user database held the name with this id, or did not hold it.
    UserResolved(Option<u32>),
    /// Setting the user id succeeded or failed.
    UidSet(Result<(), nix::errno::Errno>),
    /// The group database held the name with this id, or did not hold it.
    GroupResolved(Option<u32>),
    /// Setting the group id succeeded or failed.
    GidSet(Result<(), nix::errno::Errno>),
    /// Changing the working directory succeeded or failed.
    DirChanged(Result<(), std::io::Error>),
    /// The child that was executed directly was waited for.
    Waited(Result<ExitStatus, std::io::Error>),
    /// The subscription exists; signals arrive on this channel.
    Subscribed(chan::Receiver<chan_signal::Signal>),
    /// The completion channel exists, with these two ends.
    CompletionOpened(
        chan::Sender<Result<ExitStatus, std::io::Error>>,
        chan::Receiver<Result<ExitStatus, std::io::Error>>,
    ),
    /// The signal channel was ready first, with this value.
    SignalWon(Option<TermSignal>),
    /// The completion channel was ready first: with the worker's outcome,
    /// or with `None` where the channel was closed.
    ChildWon(Option<Result<ExitStatus, std::io::Error>>),
}

/// The state of a run.
#[derive(Debug)]
pub enum Run {
    /// The user name is being looked up.
    ResolvingUser(Pending),
    /// The user id is being set.
    SettingUid(Pending),
    /// The group name is being looked up.
    ResolvingGroup(Pending),
    /// The group id is being set.
    SettingGid(Pending),
    /// The working directory is being changed.
    ChangingDir(Pending),
    /// The child runs and is waited for, with no supervision.
    Waiting,
    /// The supervisor is subscribing to signals; no child exists yet.
    Idle(Launch),
    /// The supervisor has its subscription and is opening the completion
    /// channel; no child exists yet.
    Opening { launch: Launch, signals: chan::Receiver<chan_signal::Signal> },
    /// The supervisor waits for a signal or for the child's completion.
    Racing,
    /// The run is over.
    Done,
}

/// The mathematical content of [`Run`].
pub enum RunView {
    ResolvingUser(PendingView),
    SettingUid(PendingView),
    ResolvingGroup(PendingView),
    SettingGid(PendingView),
    ChangingDir(PendingView),
    Waiting,
    Idle(LaunchView),
    Opening { launch: LaunchView, signals: chan::Receiver<chan_signal::Signal> },
    Racing,
    Done,
}

impl View for Run {
    type V = RunView;

    open spec fn view(&self) -> RunView {
        match *self {
            Run::ResolvingUser(pending) => RunView::ResolvingUser(pending@),
            Run::SettingUid(pending) => RunView::SettingUid(pending@),
            Run::ResolvingGroup(pending) => RunView::ResolvingGroup(pending@),
            Run::SettingGid(pending) => RunView::SettingGid(pending@),
            Run::ChangingDir(pending) => RunView::ChangingDir(pending@),
            Run::Waiting => RunView::Waiting,
            Run::Idle(launch) => RunView::Idle(launch@),
            Run::Opening { launch, signals } => RunView::Opening { launch: launch@, signals },
            Run::Racing => RunView::Racing,
            Run::Done => RunView::Done,
        }
    }
}

/// The signals that a supervisor subscribes to: interrupt and terminate,
/// and no others.
pub open spec fn spec_termination_signals() -> Seq<TermSignal> {
    seq![TermSignal::Interrupt, TermSignal::Terminate]
}

/// The signals that a supervisor subscribes to.
pub fn termination_signals() -> (signals: Vec<TermSignal>)
    ensures
        signals@ == spec_termination_signals(),
{
    let signals = vec![TermSignal::Interrupt, TermSignal::Terminate];
    assert(signals@ =~= spec_termination_signals());
    signals
}

/// The launch itself, once identity and directory are settled: the
/// namespace's first process subscribes to signals before anything else;
/// any other process executes the child directly.
pub open spec fn spec_dispatch(role: Role, launch: LaunchView) -> (RunView, ActionView) {
    match role {
        Role::Init => (RunView::Idle(launch), ActionView::Subscribe(spec_termination_signals())),
        Role::Ordinary => (RunView::Waiting, ActionView::Execute(launch)),
    }
}

/// Enters the working directory if one was asked for, and goes on to the
/// launch if none was.
pub open spec fn spec_begin_dir(pending: PendingView) -> (RunView, ActionView) {
    match pending.work_dir {
        Some(dir) => (
            RunView::ChangingDir(PendingView { work_dir: None, ..pending }),
            ActionView::ChangeDir(dir),
        ),
        None => spec_dispatch(pending.role, pending.launch),
    }
}

/// Resolves the group if one was asked for, and goes on to the working
/// directory if none was.
pub open spec fn spec_begin_group(pending: PendingView) -> (RunView, ActionView) {
    match pending.group {
        Some(name) => (
            RunView::ResolvingGroup(PendingView { group: None, ..pending }),
            ActionView::ResolveGroup(name),
        ),
        None => spec_begin_dir(pending),
    }
}

/// The first state and request of a run. The timeout is not looked at.
pub open spec fn spec_start(
    options: RunOptionsView,
    cmd: Seq<char>,
    args: Seq<Seq<char>>,
    role: Role,
) -> (RunView, ActionView) {
    let pending = PendingView {
        group: options.group,
        work_dir: options.work_dir,
        role,
        launch: LaunchView { cmd, args, env: options.env },
    };
    match options.user {
        Some(name) => (RunView::ResolvingUser(pending), ActionView::ResolveUser(name)),
        None => spec_begin_group(pending),
    }
}

/// How a run ends once the child was waited for: with the child's status,
/// or with the failure to spawn it or to wait for it.
pub open spec fn spec_waited(waited: Result<ExitStatus, std::io::Error>) -> Result<
    RunResult,
    RunError,
> {
    match waited {
        Ok(status) => Ok(RunResult::Exited(status)),
        Err(error) => Err(RunError::ProcessError(error)),
    }
}

/// Whether the event answers the request that the state waits on.
pub open spec fn expects(run: RunView, event: Event) -> bool {
    match run {
        RunView::ResolvingUser(_) => event is UserResolved,
        RunView::SettingUid(_) => event is UidSet,
        RunView::ResolvingGroup(_) => event is GroupResolved,
        RunView::SettingGid(_) => event is GidSet,
        RunView::ChangingDir(_) => event is DirChanged,
        RunView::Waiting => event is Waited,
        RunView::Idle(_) => event is Subscribed,
        RunView::Opening { .. } => event is CompletionOpened,
        RunView::Racing => event is SignalWon || event is ChildWon,
        RunView::Done => false,
    }
}

/// Whether the event is an answer to the request.
pub open spec fn replies(event: Event, action: ActionView) -> bool {
    match action {
        ActionView::ResolveUser(_) => event is UserResolved,
        ActionView::SetUid(_) => event is UidSet,
        ActionView::ResolveGroup(_) => event is GroupResolved,
        ActionView::SetGid(_) => event is GidSet,
        ActionView::ChangeDir(_) => event is DirChanged,
        ActionView::Execute(_) => event is Waited,
        ActionView::Subscribe(_) => event is Subscribed,
        ActionView::OpenCompletion { .. } => event is CompletionOpened,
        ActionView::Race { .. } => event is SignalWon || event is ChildWon,
        ActionView::Finish(_) => false,
        ActionView::Nothing => false,
    }
}

/// Whether the request is the one that the state waits on. `Nothing` goes
/// with every state: it leaves the earlier request standing.
pub open spec fn awaits(run: RunView, action: ActionView) -> bool {
    match action {
        ActionView::ResolveUser(_) => run is ResolvingUser,
        ActionView::SetUid(_) => run is SettingUid,
        ActionView::ResolveGroup(_) => run is ResolvingGroup,
        ActionView::SetGid(_) => run is SettingGid,
        ActionView::ChangeDir(_) => run is ChangingDir,
        ActionView::Execute(_) => run is Waiting,
        ActionView::Subscribe(_) => run is Idle,
        ActionView::OpenCompletion { .. } => run is Opening,
        ActionView::Race { .. } => run is Racing,
        ActionView::Finish(_) => run is Done,
        ActionView::Nothing => true,
    }
}

/// The transition function of the machine.
///
/// An event that answers the state's request moves the run on. A name
/// that the database does not hold is no error: the run goes on as if the
/// name had not been given. A failure to set an id, to change the
/// directory or to wait for the child ends the run with its error. In the
/// race the first event decides. Any other event leaves the state as it is
/// and asks for nothing.
pub open spec fn spec_step(run: RunView, event: Event) -> (RunView, ActionView) {
    match (run, event) {
        (RunView::ResolvingUser(pending), Event::UserResolved(Some(uid))) => (
            RunView::SettingUid(pending),
            ActionView::SetUid(uid),
        ),
        (RunView::ResolvingUser(pending), Event::UserResolved(None)) => spec_begin_group(pending),
        (RunView::SettingUid(pending), Event::UidSet(Ok(_))) => spec_begin_group(pending),
        (RunView::SettingUid(_), Event::UidSet(Err(errno))) => (
            RunView::Done,
            ActionView::Finish(Err(RunError::PrivilegeError(errno))),
        ),
        (RunView::ResolvingGroup(pending), Event::GroupResolved(Some(gid))) => (
            RunView::SettingGid(pending),
            ActionView::SetGid(gid),
        ),
        (RunView::ResolvingGroup(pending), Event::GroupResolved(None)) => spec_begin_dir(pending),
        (RunView::SettingGid(pending), Event::GidSet(Ok(_))) => spec_begin_dir(pending),
        (RunView::SettingGid(_), Event::GidSet(Err(errno))) => (
            RunView::Done,
            ActionView::Finish(Err(RunError::PrivilegeError(errno))),
        ),
        (RunView::ChangingDir(pending), Event::DirChanged(Ok(_))) => spec_dispatch(
            pending.role,
            pending.launch,
        ),
        (RunView::ChangingDir(_), Event::DirChanged(Err(error))) => (
            RunView::Done,
            ActionView::Finish(Err(RunError::IoError(error))),
        ),
        (RunView::Waiting, Event::Waited(waited)) => (
            RunView::Done,
            ActionView::Finish(spec_waited(waited)),
        ),
        (RunView::Idle(launch), Event::Subscribed(signals)) => (
            RunView::Opening { launch, signals },
            ActionView::OpenCompletion { buffer: 0 },
        ),
        (RunView::Opening { launch, signals }, Event::CompletionOpened(sender, completion)) => (
            RunView::Racing,
            ActionView::Race { launch, signals, sender, completion },
        ),
        (RunView::Racing, Event::SignalWon(signal)) => (
            RunView::Done,
            ActionView::Finish(Ok(RunResult::Signalled(signal))),
        ),
        (RunView::Racing, Event::ChildWon(None)) => (
            RunView::Done,
            ActionView::Finish(Ok(RunResult::ChanEnded)),
        ),
        (RunView::Racing, Event::ChildWon(Some(waited))) => (
            RunView::Done,
            ActionView::Finish(spec_waited(waited)),
        ),
        (run, _) => (run, ActionView::Nothing),
    }
}

/// The run after a sequence of events, each stepped in its turn.
pub open spec fn spec_run(first: (RunView, ActionView), events: Seq<Event>) -> (
    RunView,
    ActionView,
)
    decreases events.len(),
{
    if events.len() == 0 {
        first
    } else {
        spec_step(spec_run(first, events.drop_last()).0, events.last())
    }
}

fn dispatch(role: Role, launch: Launch) -> (next: (Run, Action))
    ensures
        (next.0@, next.1@) == spec_dispatch(role, launch@),
{
    match role {
        Role::Init => (Run::Idle(launch), Action::Subscribe(termination_signals())),
        Role::Ordinary => (Run::Waiting, Action::Execute(launch)),
    }
}

fn begin_dir(pending: Pending) -> (next: (Run, Action))
    ensures
        (next.0@, next.1@) == spec_begin_dir(pending@),
{
    let Pending { group, work_dir, role, launch } = pending;
    match work_dir {
        Some(dir) => (
            Run::ChangingDir(Pending { group, work_dir: None, role, launch }),
            Action::ChangeDir(dir),
        ),
        None => dispatch(role, launch),
    }
}

fn begin_group(pending: Pending) -> (next: (Run, Action))
    ensures
        (next.0@, next.1@) == spec_begin_group(pending@),
{
    let Pending { group, work_dir, role, launch } = pending;
    match group {
        Some(name) => (
            Run::ResolvingGroup(Pending { group: None, work_dir, role, launch }),
            Action::ResolveGroup(name),
        ),
        None => begin_dir(Pending { group: None, work_dir, role, launch }),
    }
}

fn waited_result(waited: Result<ExitStatus, std::io::Error>) -> (result: Result<
    RunResult,
    RunError,
>)
    ensures
        result == spec_waited(waited),
{
    match waited {
        Ok(status) => Ok(RunResult::Exited(status)),
        Err(error) => Err(RunError::ProcessError(error)),
    }
}

impl Run {
    /// Begins a run: gives its first state and its first request.
    ///
    /// The requests come in a fixed order: the user (lookup, then id), the
    /// group (lookup, then id), the working directory, and only then the
    /// launch. What was not asked for is passed over.
    pub fn start(options: RunOptions, cmd: String, args: Vec<String>, role: Role) -> (first: (
        Run,
        Action,
    ))
        ensures
            (first.0@, first.1@) == spec_start(options@, cmd@, args.deep_view(), role),
    {
        let RunOptions { env, user, group, work_dir, exit_timeout: _ } = options;
        let pending = Pending { group, work_dir, role, launch: Launch { cmd, args, env } };
        match user {
            Some(name) => (Run::ResolvingUser(pending), Action::ResolveUser(name)),
            None => begin_group(pending),
        }
    }

    /// Takes one event and gives the next state and the next request.
    pub fn step(self, event: Event) -> (next: (Run, Action))
        ensures
            (next.0@, next.1@) == spec_step(self@, event),
    {
        match self {
            Run::ResolvingUser(pending) => match event {
                Event::UserResolved(Some(uid)) => (Run::SettingUid(pending), Action::SetUid(uid)),
                Event::UserResolved(None) => begin_group(pending),
                _ => (Run::ResolvingUser(pending), Action::Nothing),
            },
            Run::SettingUid(pending) => match event {
                Event::UidSet(Ok(_)) => begin_group(pending),
                Event::UidSet(Err(errno)) => (
                    Run::Done,
                    Action::Finish(Err(RunError::PrivilegeError(errno))),
                ),
                _ => (Run::SettingUid(pending), Action::Nothing),
            },
            Run::ResolvingGroup(pending) => match event {
                Event::GroupResolved(Some(gid)) => (Run::SettingGid(pending), Action::SetGid(gid)),
                Event::GroupResolved(None) => begin_dir(pending),
                _ => (Run::ResolvingGroup(pending), Action::Nothing),
            },
            Run::SettingGid(pending) => match event {
                Event::GidSet(Ok(_)) => begin_dir(pending),
                Event::GidSet(Err(errno)) => (
                    Run::Done,
                    Action::Finish(Err(RunError::PrivilegeError(errno))),
                ),
                _ => (Run::SettingGid(pending), Action::Nothing),
            },
            Run::ChangingDir(pending) => match event {
                Event::DirChanged(Ok(_)) => dispatch(pending.role, pending.launch),
                Event::DirChanged(Err(error)) => (
                    Run::Done,
                    Action::Finish(Err(RunError::IoError(error))),
                ),
                _ => (Run::ChangingDir(pending), Action::Nothing),
            },
            Run::Waiting => match event {
                Event::Waited(waited) => (Run::Done, Action::Finish(waited_result(waited))),
                _ => (Run::Waiting, Action::Nothing),
            },
            Run::Idle(launch) => match event {
                Event::Subscribed(signals) => (
                    Run::Opening { launch, signals },
                    Action::OpenCompletion { buffer: 0 },
                ),
                _ => (Run::Idle(launch), Action::Nothing),
            },
            Run::Opening { launch, signals } => match event {
                Event::CompletionOpened(sender, completion) => (
                    Run::Racing,
                    Action::Race { launch, signals, sender, completion },
                ),
                _ => (Run::Opening { launch, signals }, Action::Nothing),
            },
            Run::Racing => match event {
                Event::SignalWon(signal) => (
                    Run::Done,
                    Action::Finish(Ok(RunResult::Signalled(signal))),
                ),
                Event::ChildWon(None) => (Run::Done, Action::Finish(Ok(RunResult::ChanEnded))),
                Event::ChildWon(Some(waited)) => (
                    Run::Done,
                    Action::Finish(waited_result(waited)),
                ),
                _ => (Run::Racing, Action::Nothing),
            },
            Run::Done => (Run::Done, Action::Nothing),
        }
    }
}

} // verus!
