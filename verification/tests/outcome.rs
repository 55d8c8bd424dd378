use child_supervisor::{ExitStatus, Launch, RunError, RunResult, TermSignal};
use std::collections::HashMap;
use std::io;

#[test]
fn success_is_exit_code_zero() {
    assert!(ExitStatus { code: Some(0) }.success());
    assert!(!ExitStatus { code: Some(7) }.success());
    assert!(!ExitStatus { code: Some(-1) }.success());
    assert!(!ExitStatus { code: None }.success());
}

#[test]
fn exit_code_mirrors_a_child_that_exited() {
    assert_eq!(RunResult::Exited(ExitStatus { code: Some(7) }).exit_code(), Some(7));
    assert_eq!(RunResult::Exited(ExitStatus { code: Some(0) }).exit_code(), Some(0));
    assert_eq!(RunResult::Exited(ExitStatus { code: Some(255) }).exit_code(), Some(255));
}

#[test]
fn exit_code_is_absent_for_a_child_killed_by_a_signal() {
    assert_eq!(RunResult::Exited(ExitStatus { code: None }).exit_code(), None);
}

#[test]
fn exit_code_is_absent_without_an_exit() {
    assert_eq!(RunResult::Signalled(Some(TermSignal::Terminate)).exit_code(), None);
    assert_eq!(RunResult::Signalled(None).exit_code(), None);
    assert_eq!(RunResult::ChanEnded.exit_code(), None);
}

#[test]
fn privilege_error_is_described_as_a_unix_call() {
    let error = RunError::PrivilegeError(nix::errno::Errno::EPERM);
    assert_eq!(error.describe(), "UNIX call: EPERM: Operation not permitted");
}

#[test]
fn io_error_is_described_as_an_io_call() {
    let error = RunError::IoError(io::Error::new(io::ErrorKind::NotFound, "no such directory"));
    assert_eq!(error.describe(), "I/O call: no such directory");
}

#[test]
fn process_error_is_described_as_a_process_error() {
    let error = RunError::ProcessError(io::Error::new(io::ErrorKind::Other, "cannot spawn"));
    assert_eq!(error.describe(), "Process error: cannot spawn");
}

#[test]
fn io_error_with_the_text_boom_reads_io_call_boom() {
    let error = RunError::IoError(io::Error::new(io::ErrorKind::Other, "boom"));
    assert_eq!(error.describe(), "I/O call: boom");
    assert_eq!(format!("{}", error.describe()), "I/O call: boom");
}

#[test]
fn process_error_with_the_text_boom_reads_process_error_boom() {
    let process = RunError::ProcessError(io::Error::new(io::ErrorKind::Other, "boom"));
    let plain = RunError::IoError(io::Error::new(io::ErrorKind::Other, "boom"));
    assert_eq!(process.describe(), "Process error: boom");
    assert_ne!(process.describe(), plain.describe());
}

#[test]
fn privilege_error_reads_the_name_and_description_of_its_number() {
    let error = RunError::PrivilegeError(nix::errno::Errno::EINVAL);
    assert_eq!(error.describe(), "UNIX call: EINVAL: Invalid argument");
    let other = RunError::PrivilegeError(nix::errno::Errno::ENOENT);
    assert_eq!(other.describe(), "UNIX call: ENOENT: No such file or directory");
}

#[test]
fn description_is_the_prefix_and_the_underlying_text() {
    let privilege = RunError::PrivilegeError(nix::errno::Errno::EPERM);
    assert_eq!(
        privilege.describe(),
        format!("UNIX call: {}", nix::errno::Errno::EPERM)
    );
    let failure = io::Error::from_raw_os_error(2);
    let text = failure.to_string();
    assert_eq!(RunError::IoError(failure).describe(), format!("I/O call: {}", text));
    let failure = io::Error::from_raw_os_error(13);
    let text = failure.to_string();
    assert_eq!(RunError::ProcessError(failure).describe(), format!("Process error: {}", text));
}

#[test]
fn with_detail_joins_the_prefix_and_the_detail() {
    let privilege = RunError::PrivilegeError(nix::errno::Errno::EPERM);
    let plain = RunError::IoError(io::Error::new(io::ErrorKind::Other, "ignored"));
    let process = RunError::ProcessError(io::Error::new(io::ErrorKind::Other, "ignored"));
    assert_eq!(privilege.with_detail("boom"), "UNIX call: boom");
    assert_eq!(plain.with_detail("boom"), "I/O call: boom");
    assert_eq!(process.with_detail("boom"), "Process error: boom");
    assert_eq!(plain.with_detail(""), "I/O call: ");
}

#[test]
fn launch_without_mapping_gives_an_empty_environment() {
    let launch = Launch { cmd: "env".to_string(), args: Vec::new(), env: None };
    assert_eq!(launch.into_environment(), HashMap::new());
}

#[test]
fn launch_with_mapping_gives_exactly_that_environment() {
    let mut vars = HashMap::new();
    vars.insert("HOME".to_string(), "/root".to_string());
    vars.insert("EMPTY".to_string(), String::new());
    let launch = Launch { cmd: "env".to_string(), args: Vec::new(), env: Some(vars.clone()) };
    let given = launch.into_environment();
    assert_eq!(given.len(), 2);
    assert_eq!(given, vars);
    let empty = Launch { cmd: "env".to_string(), args: Vec::new(), env: Some(HashMap::new()) };
    assert!(empty.into_environment().is_empty());
}
