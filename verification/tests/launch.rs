use qemu::error::Error;
use qemu::launch::{Invocation, Launch, Observation};
use qemu::machine::MachineStatus;
use std::io;

fn invocation(capture_stderr: bool, check_delay_ms: Option<u64>) -> Invocation {
    Invocation {
        program: "qemu-system-x86_64".to_string(),
        args: vec!["-m".to_string(), "512".to_string()],
        capture_stderr,
        check_delay_ms,
    }
}

fn os_error(text: &str) -> io::Error {
    io::Error::new(io::ErrorKind::Other, text.to_string())
}

#[test]
fn process_alive_after_the_delay_is_running() {
    let launch = Launch::Spawn(invocation(true, Some(500)));
    let launch = launch.next(Observation::Spawned);
    assert!(matches!(launch, Launch::Poll { delay_ms: 500, captured: true }));
    let launch = launch.next(Observation::Running);
    assert!(matches!(launch, Launch::Done(Ok(MachineStatus { running: true }))));
}

#[test]
fn process_that_exits_at_once_fails_with_its_error_output() {
    let launch = Launch::Spawn(invocation(true, Some(500)));
    let launch = launch.next(Observation::Spawned);
    let launch = launch.next(Observation::Exited);
    assert!(matches!(launch, Launch::ReadDiagnostics));
    let launch = launch.next(Observation::Diagnostics("qemu: could not load kernel\n".to_string()));
    match launch {
        Launch::Done(Err(Error::Runtime(message))) => {
            assert_eq!(message, "QEMU exited: qemu: could not load kernel\n");
            assert!(message.contains("could not load kernel"));
        }
        other => panic!("unexpected launch: {:?}", other),
    }
}

#[test]
fn early_exit_with_empty_error_output() {
    let launch = Launch::ReadDiagnostics.next(Observation::Diagnostics(String::new()));
    match launch {
        Launch::Done(Err(Error::Runtime(message))) => assert_eq!(message, "QEMU exited: "),
        other => panic!("unexpected launch: {:?}", other),
    }
}

#[test]
fn early_exit_with_unreadable_error_output() {
    let launch = Launch::ReadDiagnostics.next(Observation::Unreadable);
    match launch {
        Launch::Done(Err(Error::Runtime(message))) => {
            assert_eq!(message, "QEMU exited unexpectedly")
        }
        other => panic!("unexpected launch: {:?}", other),
    }
}

#[test]
fn early_exit_without_captured_error_output() {
    let launch = Launch::Spawn(invocation(false, Some(100)));
    let launch = launch.next(Observation::Spawned);
    assert!(matches!(launch, Launch::Poll { delay_ms: 100, captured: false }));
    match launch.next(Observation::Exited) {
        Launch::Done(Err(Error::Runtime(message))) => {
            assert_eq!(message, "QEMU exited unexpectedly")
        }
        other => panic!("unexpected launch: {:?}", other),
    }
}

#[test]
fn spawn_failure_is_an_io_error() {
    let launch = Launch::Spawn(invocation(true, Some(500)));
    match launch.next(Observation::SpawnFailed(os_error("no such file"))) {
        Launch::Done(Err(Error::Io(cause))) => assert_eq!(cause.to_string(), "no such file"),
        other => panic!("unexpected launch: {:?}", other),
    }
}

#[test]
fn poll_failure_is_an_io_error() {
    let launch = Launch::Poll { delay_ms: 500, captured: true };
    match launch.next(Observation::PollFailed(os_error("no child"))) {
        Launch::Done(Err(Error::Io(cause))) => assert_eq!(cause.to_string(), "no child"),
        other => panic!("unexpected launch: {:?}", other),
    }
}

#[test]
fn launch_without_check_is_running_once_spawned() {
    let launch = Launch::Spawn(invocation(false, None));
    match launch.next(Observation::Spawned) {
        Launch::Done(Ok(status)) => assert_eq!(status, MachineStatus { running: true }),
        other => panic!("unexpected launch: {:?}", other),
    }
}

#[test]
fn observation_that_answers_nothing_is_ignored() {
    let launch = Launch::Spawn(invocation(true, Some(500))).next(Observation::Running);
    match &launch {
        Launch::Spawn(invocation) => {
            assert_eq!(invocation.program, "qemu-system-x86_64");
            assert_eq!(invocation.args, vec!["-m", "512"]);
            assert!(invocation.capture_stderr);
            assert_eq!(invocation.check_delay_ms, Some(500));
        }
        other => panic!("unexpected launch: {:?}", other),
    }
    let launch = launch.next(Observation::Diagnostics("late".to_string()));
    assert!(matches!(launch, Launch::Spawn(_)));
    let launch = Launch::Poll { delay_ms: 1, captured: true }.next(Observation::Spawned);
    assert!(matches!(launch, Launch::Poll { delay_ms: 1, captured: true }));
    let launch = Launch::ReadDiagnostics.next(Observation::Exited);
    assert!(matches!(launch, Launch::ReadDiagnostics));
}

#[test]
fn finished_launch_stays_finished() {
    let done = Launch::Done(Ok(MachineStatus { running: true }));
    let done = done.next(Observation::Exited);
    let done = done.next(Observation::SpawnFailed(os_error("late")));
    let done = done.next(Observation::Unreadable);
    assert!(matches!(done, Launch::Done(Ok(MachineStatus { running: true }))));
    let failed = Launch::Done(Err(Error::Runtime("QEMU exited unexpectedly".to_string())));
    match failed.next(Observation::Running) {
        Launch::Done(Err(Error::Runtime(message))) => {
            assert_eq!(message, "QEMU exited unexpectedly")
        }
        other => panic!("unexpected launch: {:?}", other),
    }
}
