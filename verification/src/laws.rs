//! What holds of every run, proved over the machine's transition function.

use crate::dispatch::{spec_answer, spec_settle, Answers};
use crate::machine::{
    awaits, expects, replies, spec_begin_dir, spec_begin_group, spec_run, spec_start, spec_step,
    ActionView, Event, RunView,
};
use crate::options::{LaunchView, PendingView, Role, RunOptionsView};
use crate::outcome::{ExitStatus, RunError, RunResult, TermSignal};
use vstd::prelude::*;

verus! {

/// How far a run has come. No step takes a run back.
spec fn stage(run: RunView) -> nat {
    match run {
        RunView::ResolvingUser(_) => 0,
        RunView::SettingUid(_) => 1,
        RunView::ResolvingGroup(_) => 2,
        RunView::SettingGid(_) => 3,
        RunView::ChangingDir(_) => 4,
        RunView::Waiting => 5,
        RunView::Idle(_) => 5,
        RunView::Opening { .. } => 6,
        RunView::Racing => 7,
        RunView::Done => 8,
    }
}

/// Every launch that the state still holds is the given one.
spec fn holds_only(run: RunView, launch: LaunchView) -> bool {
    match run {
        RunView::ResolvingUser(pending) => pending.launch == launch,
        RunView::SettingUid(pending) => pending.launch == launch,
        RunView::ResolvingGroup(pending) => pending.launch == launch,
        RunView::SettingGid(pending) => pending.launch == launch,
        RunView::ChangingDir(pending) => pending.launch == launch,
        RunView::Idle(held) => held == launch,
        RunView::Opening { launch: held, signals } => held == launch,
        _ => true,
    }
}

/// The state and the request are those of a run in the given role.
spec fn follows_role(at: (RunView, ActionView), role: Role) -> bool {
    &&& match at.0 {
        RunView::ResolvingUser(pending) => pending.role == role,
        RunView::SettingUid(pending) => pending.role == role,
        RunView::ResolvingGroup(pending) => pending.role == role,
        RunView::SettingGid(pending) => pending.role == role,
        RunView::ChangingDir(pending) => pending.role == role,
        RunView::Waiting => role == Role::Ordinary,
        RunView::Idle(_) => role == Role::Init,
        RunView::Opening { .. } => role == Role::Init,
        RunView::Racing => role == Role::Init,
        RunView::Done => true,
    }
    &&& at.1 is Execute ==> role == Role::Ordinary
    &&& at.1 is Subscribe || at.1 is OpenCompletion || at.1 is Race ==> role == Role::Init
}

proof fn lemma_step_advances(run: RunView, event: Event)
    ensures
        stage(spec_step(run, event).0) >= stage(run),
        awaits(spec_step(run, event).0, spec_step(run, event).1),
{
}

proof fn lemma_step_holds(run: RunView, event: Event, launch: LaunchView)
    requires
        holds_only(run, launch),
    ensures
        holds_only(spec_step(run, event).0, launch),
        spec_step(run, event).1.launch() matches Some(asked) ==> asked == launch,
{
}

proof fn lemma_start(options: RunOptionsView, cmd: Seq<char>, args: Seq<Seq<char>>, role: Role)
    ensures
        awaits(spec_start(options, cmd, args, role).0, spec_start(options, cmd, args, role).1),
        holds_only(
            spec_start(options, cmd, args, role).0,
            LaunchView { cmd, args, env: options.env },
        ),
        spec_start(options, cmd, args, role).1.launch() matches Some(asked) ==> asked
            == (LaunchView { cmd, args, env: options.env }),
{
}

proof fn lemma_run_holds(first: (RunView, ActionView), events: Seq<Event>, launch: LaunchView)
    requires
        holds_only(first.0, launch),
        first.1.launch() matches Some(asked) ==> asked == launch,
        awaits(first.0, first.1),
    ensures
        holds_only(spec_run(first, events).0, launch),
        spec_run(first, events).1.launch() matches Some(asked) ==> asked == launch,
        awaits(spec_run(first, events).0, spec_run(first, events).1),
    decreases events.len(),
{
    if events.len() > 0 {
        lemma_run_holds(first, events.drop_last(), launch);
        lemma_step_advances(spec_run(first, events.drop_last()).0, events.last());
        lemma_step_holds(spec_run(first, events.drop_last()).0, events.last(), launch);
    }
}

proof fn lemma_run_advances(first: (RunView, ActionView), events: Seq<Event>, k: int)
    requires
        0 <= k <= events.len(),
    ensures
        stage(spec_run(first, events.take(k)).0) <= stage(spec_run(first, events).0),
    decreases events.len() - k,
{
    if k == events.len() {
        assert(events.take(k) =~= events);
    } else {
        lemma_run_advances(first, events.drop_last(), k);
        assert(events.drop_last().take(k) =~= events.take(k));
        lemma_step_advances(spec_run(first, events.drop_last()).0, events.last());
    }
}

proof fn lemma_run_joined(first: (RunView, ActionView), before: Seq<Event>, after: Seq<Event>)
    ensures
        spec_run(first, before + after) == spec_run(spec_run(first, before), after),
    decreases after.len(),
{
    if after.len() == 0 {
        assert(before + after =~= before);
    } else {
        lemma_run_joined(first, before, after.drop_last());
        assert((before + after).drop_last() =~= before + after.drop_last());
        assert((before + after).last() == after.last());
    }
}

proof fn lemma_run_pushed(first: (RunView, ActionView), events: Seq<Event>, event: Event)
    ensures
        spec_run(first, events.push(event)) == spec_step(spec_run(first, events).0, event),
{
    assert(events.push(event).drop_last() =~= events);
}

proof fn lemma_run_follows_role(first: (RunView, ActionView), events: Seq<Event>, role: Role)
    requires
        follows_role(first, role),
    ensures
        follows_role(spec_run(first, events), role),
    decreases events.len(),
{
    if events.len() > 0 {
        lemma_run_follows_role(first, events.drop_last(), role);
    }
}

/// Finds the request to subscribe that brought a run to its idle state.
proof fn lemma_idle_was_subscribed(first: (RunView, ActionView), events: Seq<Event>) -> (k: int)
    requires
        first.0 is Idle ==> first.1 is Subscribe,
        spec_run(first, events).0 is Idle,
    ensures
        0 <= k <= events.len(),
        spec_run(first, events.take(k)).1 is Subscribe,
    decreases events.len(),
{
    if events.len() == 0 || spec_run(first, events).1 is Subscribe {
        assert(events.take(events.len() as int) =~= events);
        events.len() as int
    } else {
        let k = lemma_idle_was_subscribed(first, events.drop_last());
        assert(events.drop_last().take(k) =~= events.take(k));
        k
    }
}

/// Finds, for a run that holds a subscription, the request to subscribe
/// and the event that brought the subscription.
proof fn lemma_opening_was_subscribed(first: (RunView, ActionView), events: Seq<Event>) -> (found: (
    int,
    int,
))
    requires
        first.0 is Idle ==> first.1 is Subscribe,
        !(first.0 is Opening),
        spec_run(first, events).0 is Opening,
    ensures
        0 <= found.0 <= found.1 < events.len(),
        spec_run(first, events.take(found.0)).1 is Subscribe,
        events[found.1] == Event::Subscribed(spec_run(first, events).0->Opening_signals),
    decreases events.len(),
{
    let earlier = events.drop_last();
    if spec_run(first, earlier).0 is Opening {
        let found = lemma_opening_was_subscribed(first, earlier);
        assert(earlier.take(found.0) =~= events.take(found.0));
        found
    } else {
        let k = lemma_idle_was_subscribed(first, earlier);
        assert(earlier.take(k) =~= events.take(k));
        (k, events.len() - 1)
    }
}

/// An event that does not answer the state's request changes nothing and
/// asks for nothing; an event that answers it always asks for something.
pub proof fn only_an_answer_moves_the_run(run: RunView, event: Event)
    ensures
        !expects(run, event) ==> spec_step(run, event) == (run, ActionView::Nothing),
        expects(run, event) ==> spec_step(run, event).1 !is Nothing,
{
}

/// At every point of a run the request is the one that the state waits
/// on, so the event that replies to it is never ignored.
pub proof fn reply_is_never_ignored(
    options: RunOptionsView,
    cmd: Seq<char>,
    args: Seq<Seq<char>>,
    role: Role,
    events: Seq<Event>,
    reply: Event,
)
    requires
        replies(reply, spec_run(spec_start(options, cmd, args, role), events).1),
    ensures
        awaits(
            spec_run(spec_start(options, cmd, args, role), events).0,
            spec_run(spec_start(options, cmd, args, role), events).1,
        ),
        spec_step(spec_run(spec_start(options, cmd, args, role), events).0, reply).1 !is Nothing,
{
    lemma_start(options, cmd, args, role);
    lemma_run_holds(
        spec_start(options, cmd, args, role),
        events,
        LaunchView { cmd, args, env: options.env },
    );
}

/// A run that is over stays over: it asks for nothing more, whatever
/// events it is handed.
pub proof fn finished_run_asks_nothing(last: ActionView, events: Seq<Event>)
    ensures
        spec_run((RunView::Done, last), events).0 == RunView::Done,
        events.len() > 0 ==> spec_run((RunView::Done, last), events).1 == ActionView::Nothing,
    decreases events.len(),
{
    if events.len() > 0 {
        finished_run_asks_nothing(last, events.drop_last());
    }
}

/// Every launch that a run asks for, at whatever point and after whatever
/// events, is the command, the arguments and the environment that the run
/// was begun with.
pub proof fn launch_is_as_asked(
    options: RunOptionsView,
    cmd: Seq<char>,
    args: Seq<Seq<char>>,
    role: Role,
    events: Seq<Event>,
)
    ensures
        spec_run(spec_start(options, cmd, args, role), events).1.launch() matches Some(launch)
            ==> launch == (LaunchView { cmd, args, env: options.env }),
{
    lemma_start(options, cmd, args, role);
    lemma_run_holds(
        spec_start(options, cmd, args, role),
        events,
        LaunchView { cmd, args, env: options.env },
    );
}

/// A run that was given no environment asks for a child with an empty
/// environment, at whatever point it launches.
pub proof fn no_mapping_gives_empty_environment(
    options: RunOptionsView,
    cmd: Seq<char>,
    args: Seq<Seq<char>>,
    role: Role,
    events: Seq<Event>,
)
    requires
        options.env is None,
    ensures
        spec_run(spec_start(options, cmd, args, role), events).1.launch() matches Some(launch)
            ==> launch.environment() == Map::<Seq<char>, Seq<char>>::empty(),
{
    launch_is_as_asked(options, cmd, args, role, events);
}

/// A run that was given a mapping asks for a child whose environment is
/// exactly that mapping, at whatever point it launches.
pub proof fn mapping_gives_exact_environment(
    options: RunOptionsView,
    vars: Map<Seq<char>, Seq<char>>,
    cmd: Seq<char>,
    args: Seq<Seq<char>>,
    role: Role,
    events: Seq<Event>,
)
    requires
        options.env == Some(vars),
    ensures
        spec_run(spec_start(options, cmd, args, role), events).1.launch() matches Some(launch)
            ==> launch.environment() == vars,
{
    launch_is_as_asked(options, cmd, args, role, events);
}

/// A user name that the database does not hold is passed over in every
/// run that looks a user up: the run goes on to the group, the working
/// directory or the launch. No id is set and the run does not end.
pub proof fn unresolved_user_goes_on(pending: PendingView)
    ensures
        spec_step(RunView::ResolvingUser(pending), Event::UserResolved(None)) == spec_begin_group(
            pending,
        ),
        spec_step(RunView::ResolvingUser(pending), Event::UserResolved(None)).1 !is SetUid,
        spec_step(RunView::ResolvingUser(pending), Event::UserResolved(None)).1 !is Finish,
{
}

/// A user name that the database does not hold is no error and changes no
/// id: the run goes on exactly as a run that was given no user name.
pub proof fn unresolved_user_is_passed_over(
    options: RunOptionsView,
    cmd: Seq<char>,
    args: Seq<Seq<char>>,
    role: Role,
)
    requires
        options.user is Some,
    ensures
        spec_start(options, cmd, args, role).0 is ResolvingUser,
        spec_step(spec_start(options, cmd, args, role).0, Event::UserResolved(None)) == spec_start(
            RunOptionsView { user: None, ..options },
            cmd,
            args,
            role,
        ),
        spec_step(spec_start(options, cmd, args, role).0, Event::UserResolved(None)).1 !is SetUid,
        spec_step(spec_start(options, cmd, args, role).0, Event::UserResolved(None)).1 !is Finish,
        forall|given: Answers|
            given.user is None ==> #[trigger] spec_settle(
                spec_start(options, cmd, args, role),
                given,
            ) == spec_settle(
                spec_start(RunOptionsView { user: None, ..options }, cmd, args, role),
                given,
            ),
{
}

/// A group name that the database does not hold is passed over in the
/// same way, in every run that looks a group up, whatever came before:
/// the run goes on to the working directory, or to the launch where none
/// was asked for. No id is set and the run does not end.
pub proof fn unresolved_group_is_passed_over(pending: PendingView)
    ensures
        spec_step(RunView::ResolvingGroup(pending), Event::GroupResolved(None)) == spec_begin_dir(
            pending,
        ),
        spec_step(RunView::ResolvingGroup(pending), Event::GroupResolved(None)).1 !is SetGid,
        spec_step(RunView::ResolvingGroup(pending), Event::GroupResolved(None)).1 !is Finish,
        forall|name: Seq<char>, given: Answers|
            given.group is None ==> #[trigger] spec_settle(
                (RunView::ResolvingGroup(pending), ActionView::ResolveGroup(name)),
                given,
            ) == spec_settle(spec_begin_dir(pending), given),
{
}

/// A run that names a group and no user begins, where the database does
/// not hold the group, exactly as a run that names neither.
pub proof fn unresolved_group_alone_is_no_group(
    options: RunOptionsView,
    cmd: Seq<char>,
    args: Seq<Seq<char>>,
    role: Role,
)
    requires
        options.user is None,
        options.group is Some,
    ensures
        spec_step(spec_start(options, cmd, args, role).0, Event::GroupResolved(None))
            == spec_start(RunOptionsView { group: None, ..options }, cmd, args, role),
        forall|given: Answers|
            given.group is None ==> #[trigger] spec_settle(
                spec_start(options, cmd, args, role),
                given,
            ) == spec_settle(
                spec_start(RunOptionsView { group: None, ..options }, cmd, args, role),
                given,
            ),
{
}

/// An id that was resolved and could not be set ends the run with a
/// privilege error that carries the error number.
pub proof fn refused_id_ends_the_run(run: RunView, errno: nix::errno::Errno)
    ensures
        run is SettingUid ==> spec_step(run, Event::UidSet(Err(errno))) == (
            RunView::Done,
            ActionView::Finish(Err(RunError::PrivilegeError(errno))),
        ),
        run is SettingGid ==> spec_step(run, Event::GidSet(Err(errno))) == (
            RunView::Done,
            ActionView::Finish(Err(RunError::PrivilegeError(errno))),
        ),
{
}

/// Where the working directory cannot be entered, the run ends with the
/// I/O error and no child is ever asked for: not before the failure, and
/// not after it, whatever events follow.
pub proof fn failed_directory_change_launches_nothing(
    options: RunOptionsView,
    cmd: Seq<char>,
    args: Seq<Seq<char>>,
    role: Role,
    before: Seq<Event>,
    error: std::io::Error,
    after: Seq<Event>,
)
    requires
        spec_run(spec_start(options, cmd, args, role), before).1 is ChangeDir,
    ensures
        spec_run(
            spec_start(options, cmd, args, role),
            before.push(Event::DirChanged(Err(error))),
        ) == (RunView::Done, ActionView::Finish(Err(RunError::IoError(error)))),
        forall|k: int|
            0 <= k <= before.len() + 1 + after.len() ==> (#[trigger] spec_run(
                spec_start(options, cmd, args, role),
                (before.push(Event::DirChanged(Err(error))) + after).take(k),
            )).1.launch() is None,
{
    let first = spec_start(options, cmd, args, role);
    let launch = LaunchView { cmd, args, env: options.env };
    let failed = before.push(Event::DirChanged(Err(error)));
    let whole = failed + after;
    let end = (RunView::Done, ActionView::Finish(Err(RunError::IoError(error))));

    lemma_start(options, cmd, args, role);
    lemma_run_holds(first, before, launch);
    assert(failed.drop_last() =~= before);
    assert(spec_run(first, failed) == end);

    assert forall|k: int| 0 <= k <= whole.len() implies (#[trigger] spec_run(
        first,
        whole.take(k),
    )).1.launch() is None by {
        if k <= before.len() {
            assert(whole.take(k) =~= before.take(k));
            lemma_run_advances(first, before, k);
            lemma_run_holds(first, before.take(k), launch);
        } else {
            let rest = after.take(k - failed.len());
            assert(whole.take(k) =~= failed + rest);
            lemma_run_joined(first, failed, rest);
            finished_run_asks_nothing(end.1, rest);
            if rest.len() == 0 {
                assert(spec_run(end, rest) == end);
            }
        }
    }
}

/// The role decides how the child is supervised: only a run of an
/// ordinary process executes the child directly, and only a run of the
/// namespace's first process subscribes to signals and races.
pub proof fn supervision_follows_role(
    options: RunOptionsView,
    cmd: Seq<char>,
    args: Seq<Seq<char>>,
    role: Role,
    events: Seq<Event>,
)
    ensures
        spec_run(spec_start(options, cmd, args, role), events).1 is Execute ==> role
            == Role::Ordinary,
        spec_run(spec_start(options, cmd, args, role), events).1 is Subscribe ==> role
            == Role::Init,
        spec_run(spec_start(options, cmd, args, role), events).1 is Race ==> role == Role::Init,
{
    lemma_run_follows_role(spec_start(options, cmd, args, role), events, role);
}

/// The subscription comes before the child. A run that asks for the race,
/// in which the child is spawned, has asked for the subscription at an
/// earlier point, was handed the subscription after that, and races on the
/// channel of that very subscription.
pub proof fn subscription_precedes_the_race(
    options: RunOptionsView,
    cmd: Seq<char>,
    args: Seq<Seq<char>>,
    role: Role,
    events: Seq<Event>,
)
    requires
        spec_run(spec_start(options, cmd, args, role), events).1 is Race,
    ensures
        exists|k: int, j: int|
            0 <= k <= j < events.len() - 1 && (#[trigger] spec_run(
                spec_start(options, cmd, args, role),
                events.take(k),
            )).1 is Subscribe && #[trigger] events[j] == Event::Subscribed(
                spec_run(spec_start(options, cmd, args, role), events).1->Race_signals,
            ),
{
    let first = spec_start(options, cmd, args, role);
    let earlier = events.drop_last();
    let found = lemma_opening_was_subscribed(first, earlier);
    assert(earlier.take(found.0) =~= events.take(found.0));
    assert(earlier[found.1] == events[found.1]);
}

/// A process that is not the namespace's first and changes neither
/// identity nor directory executes the child at once, and ends with the
/// child's status, whose exit code is the one to mirror.
pub proof fn direct_run_ends_with_the_status(
    options: RunOptionsView,
    cmd: Seq<char>,
    args: Seq<Seq<char>>,
    status: ExitStatus,
)
    requires
        options.user is None,
        options.group is None,
        options.work_dir is None,
    ensures
        spec_start(options, cmd, args, Role::Ordinary) == (
            RunView::Waiting,
            ActionView::Execute(LaunchView { cmd, args, env: options.env }),
        ),
        spec_step(RunView::Waiting, Event::Waited(Ok(status))) == (
            RunView::Done,
            ActionView::Finish(Ok(RunResult::Exited(status))),
        ),
        RunResult::Exited(status).spec_exit_code() == status.code,
{
}

/// The first event decides the race, on that very step. A signal ends the
/// run as signalled, and nothing is asked to be done to the child. An
/// outcome of the worker ends it as the direct wait would, and a closed
/// channel ends it as such.
pub proof fn race_ends_with_the_first_event(
    signal: Option<TermSignal>,
    status: ExitStatus,
    error: std::io::Error,
)
    ensures
        spec_step(RunView::Racing, Event::SignalWon(signal)) == (
            RunView::Done,
            ActionView::Finish(Ok(RunResult::Signalled(signal))),
        ),
        spec_step(RunView::Racing, Event::ChildWon(Some(Ok(status)))) == (
            RunView::Done,
            ActionView::Finish(Ok(RunResult::Exited(status))),
        ),
        spec_step(RunView::Racing, Event::ChildWon(Some(Err(error)))) == (
            RunView::Done,
            ActionView::Finish(Err(RunError::ProcessError(error))),
        ),
        spec_step(RunView::Racing, Event::ChildWon(None)) == (
            RunView::Done,
            ActionView::Finish(Ok(RunResult::ChanEnded)),
        ),
{
}

/// The timeout is carried and never consulted: runs that differ in it
/// alone begin alike.
pub proof fn timeout_is_not_consulted(
    options: RunOptionsView,
    timeout: i64,
    cmd: Seq<char>,
    args: Seq<Seq<char>>,
    role: Role,
)
    ensures
        spec_start(RunOptionsView { exit_timeout: timeout, ..options }, cmd, args, role)
            == spec_start(options, cmd, args, role),
{
}

/// The events so far, and the event too where it replies to the request.
pub open spec fn spec_answered(so_far: Seq<Event>, at: (RunView, ActionView), event: Event) -> Seq<
    Event,
> {
    if replies(event, at.1) {
        so_far.push(event)
    } else {
        so_far
    }
}

/// The events that the library hands to the machine when it performs what
/// it can: of the six answers, those whose request the run made, in order.
pub open spec fn spec_settle_events(at: (RunView, ActionView), given: Answers) -> Seq<Event> {
    let resolved = spec_answer(at, Event::UserResolved(given.user));
    let switched = spec_answer(resolved, Event::UidSet(given.uid_set));
    let grouped = spec_answer(switched, Event::GroupResolved(given.group));
    let regrouped = spec_answer(grouped, Event::GidSet(given.gid_set));
    let subscribed = spec_answer(regrouped, Event::Subscribed(given.signals));
    let e1 = spec_answered(Seq::empty(), at, Event::UserResolved(given.user));
    let e2 = spec_answered(e1, resolved, Event::UidSet(given.uid_set));
    let e3 = spec_answered(e2, switched, Event::GroupResolved(given.group));
    let e4 = spec_answered(e3, grouped, Event::GidSet(given.gid_set));
    let e5 = spec_answered(e4, regrouped, Event::Subscribed(given.signals));
    spec_answered(e5, subscribed, Event::CompletionOpened(given.sender, given.completion))
}

/// What the library performs by itself is a run of the machine: it steps
/// through at most six events, so what holds of every run holds of the
/// runs that the entry points hand back.
pub proof fn settled_run_is_a_run(at: (RunView, ActionView), given: Answers)
    ensures
        spec_settle_events(at, given).len() <= 6,
        spec_settle(at, given) == spec_run(at, spec_settle_events(at, given)),
{
    let resolved = spec_answer(at, Event::UserResolved(given.user));
    let switched = spec_answer(resolved, Event::UidSet(given.uid_set));
    let grouped = spec_answer(switched, Event::GroupResolved(given.group));
    let regrouped = spec_answer(grouped, Event::GidSet(given.gid_set));
    let subscribed = spec_answer(regrouped, Event::Subscribed(given.signals));
    let e0 = Seq::<Event>::empty();
    let e1 = spec_answered(e0, at, Event::UserResolved(given.user));
    let e2 = spec_answered(e1, resolved, Event::UidSet(given.uid_set));
    let e3 = spec_answered(e2, switched, Event::GroupResolved(given.group));
    let e4 = spec_answered(e3, grouped, Event::GidSet(given.gid_set));
    let e5 = spec_answered(e4, regrouped, Event::Subscribed(given.signals));
    lemma_run_pushed(at, e0, Event::UserResolved(given.user));
    assert(spec_run(at, e1) == resolved);
    lemma_run_pushed(at, e1, Event::UidSet(given.uid_set));
    assert(spec_run(at, e2) == switched);
    lemma_run_pushed(at, e2, Event::GroupResolved(given.group));
    assert(spec_run(at, e3) == grouped);
    lemma_run_pushed(at, e3, Event::GidSet(given.gid_set));
    assert(spec_run(at, e4) == regrouped);
    lemma_run_pushed(at, e4, Event::Subscribed(given.signals));
    assert(spec_run(at, e5) == subscribed);
    lemma_run_pushed(at, e5, Event::CompletionOpened(given.sender, given.completion));
}

/// The library leaves nothing undone that it can do: once it has
/// performed what it can on a run that was begun or stepped, the request
/// that is left is one for the caller.
pub proof fn settled_run_asks_the_caller(at: (RunView, ActionView), given: Answers)
    ensures
        !spec_settle(at, given).1.is_for_library(),
{
}

} // verus!
