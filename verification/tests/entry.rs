use child_supervisor::{
    run, run_with_options, Action, Event, ExitStatus, Role, Run, RunError, RunOptions, RunResult,
};
use std::collections::HashMap;

fn plain() -> RunOptions {
    RunOptions { env: None, user: None, group: None, work_dir: None, exit_timeout: 5 }
}

#[test]
fn run_without_names_asks_for_the_launch_at_once() {
    let (run, action) =
        run_with_options(plain(), "true".to_string(), vec!["-v".to_string()], Role::Ordinary);
    assert!(matches!(run, Run::Waiting));
    match action {
        Action::Execute(launch) => {
            assert_eq!(launch.cmd, "true");
            assert_eq!(launch.args, vec!["-v".to_string()]);
            assert_eq!(launch.env, None);
        }
        other => panic!("expected the launch, got {:?}", other),
    }
}

#[test]
fn run_of_the_first_process_asks_for_the_race() {
    let (run, action) = run_with_options(plain(), "true".to_string(), Vec::new(), Role::Init);
    assert!(matches!(run, Run::Racing));
    match action {
        Action::Race { launch, sender, completion, .. } => {
            assert_eq!(launch.cmd, "true");
            assert_eq!(launch.env, None);
            drop(sender);
            assert!(completion.recv().is_none());
        }
        other => panic!("expected the race, got {:?}", other),
    }
}

#[test]
fn advance_after_the_directory_leads_the_first_process_to_the_race() {
    let options = RunOptions { work_dir: Some("/".to_string()), ..plain() };
    let (run, action) = run_with_options(options, "true".to_string(), Vec::new(), Role::Init);
    assert!(matches!(&action, Action::ChangeDir(dir) if dir == "/"));
    let (run, action) = run.advance(Event::DirChanged(Ok(())));
    assert!(matches!(run, Run::Racing));
    assert!(matches!(action, Action::Race { .. }));
    let (run, action) = run.advance(Event::ChildWon(Some(Ok(ExitStatus { code: Some(0) }))));
    assert!(matches!(run, Run::Done));
    assert!(matches!(
        action,
        Action::Finish(Ok(RunResult::Exited(ExitStatus { code: Some(0) })))
    ));
}

#[test]
fn advance_after_a_failed_directory_change_finishes_with_the_error() {
    let options = RunOptions { work_dir: Some("/no/such/directory".to_string()), ..plain() };
    let (run, _) = run_with_options(options, "true".to_string(), Vec::new(), Role::Init);
    let failure = std::io::Error::from_raw_os_error(2);
    let (run, action) = run.advance(Event::DirChanged(Err(failure)));
    assert!(matches!(run, Run::Done));
    match action {
        Action::Finish(Err(RunError::IoError(error))) => assert_eq!(error.raw_os_error(), Some(2)),
        other => panic!("expected an I/O error, got {:?}", other),
    }
}

#[test]
fn advance_of_a_direct_run_is_the_step() {
    let (run, _) = run_with_options(plain(), "false".to_string(), Vec::new(), Role::Ordinary);
    let (run, action) = run.advance(Event::Waited(Ok(ExitStatus { code: Some(1) })));
    assert!(matches!(run, Run::Done));
    assert!(matches!(
        action,
        Action::Finish(Ok(RunResult::Exited(ExitStatus { code: Some(1) })))
    ));
    let (run, action) = run.advance(Event::Waited(Ok(ExitStatus { code: Some(1) })));
    assert!(matches!(run, Run::Done));
    assert!(matches!(action, Action::Nothing));
}

#[test]
fn run_with_a_working_directory_asks_for_the_change_first() {
    let options = RunOptions { work_dir: Some("/no/such/directory".to_string()), ..plain() };
    let (run, action) = run_with_options(options, "true".to_string(), Vec::new(), Role::Ordinary);
    assert!(matches!(run, Run::ChangingDir(_)));
    assert!(matches!(&action, Action::ChangeDir(dir) if dir == "/no/such/directory"));
}

#[test]
fn unknown_user_leaves_the_identity_and_launches() {
    let before = nix::unistd::geteuid();
    let options = RunOptions { user: Some("no-user-is-called-this-7f3a".to_string()), ..plain() };
    let (run, action) = run_with_options(options, "true".to_string(), Vec::new(), Role::Ordinary);
    assert!(matches!(run, Run::Waiting));
    assert!(matches!(&action, Action::Execute(launch) if launch.cmd == "true"));
    assert_eq!(nix::unistd::geteuid(), before);
}

#[test]
fn unknown_group_leaves_the_identity_and_launches() {
    let before = nix::unistd::getegid();
    let options = RunOptions { group: Some("no-group-is-called-this-7f3a".to_string()), ..plain() };
    let (run, action) = run_with_options(options, "true".to_string(), Vec::new(), Role::Ordinary);
    assert!(matches!(run, Run::Waiting));
    assert!(matches!(action, Action::Execute(_)));
    assert_eq!(nix::unistd::getegid(), before);
}

#[test]
fn name_with_a_nul_byte_is_unknown() {
    let options = RunOptions { user: Some("ro\0ot".to_string()), ..plain() };
    let (_, action) = run_with_options(options, "true".to_string(), Vec::new(), Role::Ordinary);
    assert!(matches!(action, Action::Execute(_)));
}

#[test]
fn own_user_is_resolved_and_set() {
    let uid = nix::unistd::getuid();
    let name = match users::get_user_by_uid(uid.as_raw()) {
        Some(user) => user.name().to_string_lossy().into_owned(),
        None => return,
    };
    let options = RunOptions { user: Some(name), ..plain() };
    let (run, action) = run_with_options(options, "true".to_string(), Vec::new(), Role::Ordinary);
    assert!(matches!(run, Run::Waiting));
    assert!(matches!(action, Action::Execute(_)));
    assert_eq!(nix::unistd::getuid(), uid);
    assert_eq!(nix::unistd::geteuid(), uid);
}

#[test]
fn own_group_is_resolved_and_set() {
    let gid = nix::unistd::getgid();
    let name = match users::get_group_by_gid(gid.as_raw()) {
        Some(group) => group.name().to_string_lossy().into_owned(),
        None => return,
    };
    let options = RunOptions { group: Some(name), ..plain() };
    let (run, action) = run_with_options(options, "true".to_string(), Vec::new(), Role::Ordinary);
    assert!(matches!(run, Run::Waiting));
    assert!(matches!(action, Action::Execute(_)));
    assert_eq!(nix::unistd::getgid(), gid);
}

#[test]
fn superuser_is_refused_to_others() {
    let root = match users::get_user_by_name("root") {
        Some(user) => user.uid(),
        None => return,
    };
    let allowed = nix::unistd::geteuid().as_raw() == 0 || nix::unistd::getuid().as_raw() == root;
    let options = RunOptions { user: Some("root".to_string()), ..plain() };
    let (run, action) = run_with_options(options, "true".to_string(), Vec::new(), Role::Ordinary);
    if allowed {
        assert!(matches!(run, Run::Waiting));
        assert!(matches!(action, Action::Execute(_)));
    } else {
        assert!(matches!(run, Run::Done));
        match action {
            Action::Finish(Err(RunError::PrivilegeError(errno))) => {
                assert_eq!(errno, nix::errno::Errno::EPERM);
            }
            other => panic!("expected a privilege error, got {:?}", other),
        }
    }
}

#[test]
fn default_run_hands_the_environment_on() {
    let mut vars = HashMap::new();
    vars.insert("GREETING".to_string(), "hello".to_string());
    let (run, action) = run("env".to_string(), Vec::new(), Some(vars.clone()), Role::Ordinary);
    if users::get_user_by_name("hello").is_none() {
        assert!(matches!(run, Run::Waiting));
        match action {
            Action::Execute(launch) => {
                assert_eq!(launch.cmd, "env");
                assert!(launch.args.is_empty());
                assert_eq!(launch.env, Some(vars));
            }
            other => panic!("expected the launch, got {:?}", other),
        }
    } else {
        assert!(matches!(
            action,
            Action::Execute(_) | Action::Finish(Err(RunError::PrivilegeError(_)))
        ));
    }
}

#[test]
fn default_run_of_the_first_process_is_supervised() {
    let (_, action) = run("true".to_string(), Vec::new(), None, Role::Init);
    if users::get_user_by_name("hello").is_none() {
        assert!(matches!(action, Action::Race { .. }));
    } else {
        assert!(matches!(
            action,
            Action::Race { .. } | Action::Finish(Err(RunError::PrivilegeError(_)))
        ));
    }
}
