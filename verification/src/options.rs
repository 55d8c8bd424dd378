//! What a caller asks for: the options of a run and the command to launch.

use std::collections::HashMap;
use vstd::prelude::*;
use vstd::std_specs::hash::lemma_hashmap_deepview_dom;

verus! {

/// The place of the supervising process among the processes of its
/// namespace.
#[derive(Clone, Copy, Debug, PartialEq, Eq, Structural)]
pub enum Role {
    /// The first process of the namespace (process id 1).
    Init,
    /// Any other process.
    Ordinary,
}

impl Role {
    /// The role that a process id stands for.
    pub open spec fn spec_of_pid(pid: u32) -> Role {
        if pid == 1 {
            Role::Init
        } else {
            Role::Ordinary
        }
    }

    /// The role of the process with the given id: `Init` for process 1,
    /// `Ordinary` for every other.
    pub fn of_pid(pid: u32) -> (role: Role)
        ensures
            role == Role::spec_of_pid(pid),
    {
        if pid == 1 {
            Role::Init
        } else {
            Role::Ordinary
        }
    }
}

/// The options of one run. They are made once and consumed by the run.
#[derive(Clone, Debug)]
pub struct RunOptions {
    /// The child's environment. With `None` the child gets an empty
    /// environment; with a mapping it gets exactly that mapping.
    pub env: Option<HashMap<String, String>>,
    /// The name of the user to run as.
    pub user: Option<String>,
    /// The name of the group to run as.
    pub group: Option<String>,
    /// The working directory to change to before the launch.
    pub work_dir: Option<String>,
    /// A timeout in seconds. It is carried and never consulted.
    pub exit_timeout: i64,
}

/// The mathematical content of [`RunOptions`].
pub struct RunOptionsView {
    pub env: Option<Map<Seq<char>, Seq<char>>>,
    pub user: Option<Seq<char>>,
    pub group: Option<Seq<char>>,
    pub work_dir: Option<Seq<char>>,
    pub exit_timeout: i64,
}

impl View for RunOptions {
    type V = RunOptionsView;

    open spec fn view(&self) -> RunOptionsView {
        RunOptionsView {
            env: self.env.deep_view(),
            user: self.user.deep_view(),
            group: self.group.deep_view(),
            work_dir: self.work_dir.deep_view(),
            exit_timeout: self.exit_timeout,
        }
    }
}

/// The command to launch, with its arguments and the environment that the
/// child is to see.
#[derive(Clone, Debug)]
pub struct Launch {
    /// The program.
    pub cmd: String,
    /// Its arguments, in order.
    pub args: Vec<String>,
    /// The child's environment, as in [`RunOptions::env`].
    pub env: Option<HashMap<String, String>>,
}

/// The mathematical content of [`Launch`].
pub struct LaunchView {
    pub cmd: Seq<char>,
    pub args: Seq<Seq<char>>,
    pub env: Option<Map<Seq<char>, Seq<char>>>,
}

impl LaunchView {
    /// The environment that the child is to observe: the mapping that was
    /// given, and the empty one where none was. Nothing is inherited from
    /// the supervisor in either case.
    pub open spec fn environment(self) -> Map<Seq<char>, Seq<char>> {
        match self.env {
            Some(vars) => vars,
            None => Map::empty(),
        }
    }
}

impl Launch {
    /// Gives up the launch for the environment that the child is to
    /// observe: the mapping that was given, and an empty one where none
    /// was. The child's environment is to be cleared and then set to
    /// exactly this.
    pub fn into_environment(self) -> (vars: HashMap<String, String>)
        ensures
            vars.deep_view() == self@.environment(),
    {
        match self.env {
            Some(vars) => vars,
            None => {
                let vars: HashMap<String, String> = HashMap::new();
                proof {
                    lemma_hashmap_deepview_dom(vars);
                    assert(vars.deep_view() =~= Map::<Seq<char>, Seq<char>>::empty());
                }
                vars
            },
        }
    }
}

impl View for Launch {
    type V = LaunchView;

    open spec fn view(&self) -> LaunchView {
        LaunchView {
            cmd: self.cmd@,
            args: self.args.deep_view(),
            env: self.env.deep_view(),
        }
    }
}

/// What is still to be done before and at the launch.
#[derive(Debug)]
pub struct Pending {
    /// The group whose id is still to be set, if any.
    pub group: Option<String>,
    /// The directory that is still to be entered, if any.
    pub work_dir: Option<String>,
    /// The role that decides how the child is supervised.
    pub role: Role,
    /// The command to launch at the end.
    pub launch: Launch,
}

/// The mathematical content of [`Pending`].
pub struct PendingView {
    pub group: Option<Seq<char>>,
    pub work_dir: Option<Seq<char>>,
    pub role: Role,
    pub launch: LaunchView,
}

impl View for Pending {
    type V = PendingView;

    open spec fn view(&self) -> PendingView {
        PendingView {
            group: self.group.deep_view(),
            work_dir: self.work_dir.deep_view(),
            role: self.role,
            launch: self.launch@,
        }
    }
}

} // verus!
