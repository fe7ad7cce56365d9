//! The launch of an emulator as a sequence of steps.
//!
//! Nothing here touches the operating system. A [`Launch`] says what is to be
//! done next; the caller does it and reports what it saw as an
//! [`Observation`]; [`Launch::next`] then says how the launch goes on.
//!
//! Whether the emulator came up is judged by one look at the process a short
//! while after it was spawned. This is a guess, not a guarantee: an emulator
//! that fails after that look is taken for running.

use crate::error::{Error, ErrorView};
use crate::machine::MachineStatus;
use vstd::prelude::*;

verus! {

/// The process to spawn and how its launch is to be checked.
#[derive(Debug)]
pub struct Invocation {
    /// The program to run.
    pub program: String,
    /// Its arguments, the program's own name not among them.
    pub args: Vec<String>,
    /// Whether the standard error stream of the process is to be piped, so
    /// that it can be read should the process exit early.
    pub capture_stderr: bool,
    /// How many milliseconds after the spawn the process is looked at; `None`
    /// when it is taken for running as soon as it is spawned.
    pub check_delay_ms: Option<u64>,
}

/// What an [`Invocation`] holds.
pub struct InvocationView {
    pub program: Seq<char>,
    pub args: Seq<Seq<char>>,
    pub capture_stderr: bool,
    pub check_delay_ms: Option<u64>,
}

impl View for Invocation {
    type V = InvocationView;

    open spec fn view(&self) -> InvocationView {
        InvocationView {
            program: self.program@,
            args: self.args.deep_view(),
            capture_stderr: self.capture_stderr,
            check_delay_ms: self.check_delay_ms,
        }
    }
}

/// A launch, named by what is to be done next.
#[derive(Debug)]
pub enum Launch {
    /// Nothing runs yet: the process is to be spawned.
    Spawn(Invocation),
    /// The process was spawned: after `delay_ms` milliseconds it is to be
    /// asked, without blocking, whether it has exited.
    Poll { delay_ms: u64, captured: bool },
    /// The process exited early: its captured standard error is to be read
    /// to the end.
    ReadDiagnostics,
    /// The launch is over, with this result.
    Done(Result<MachineStatus, Error>),
}

/// What a [`Launch`] holds.
pub enum LaunchView {
    Spawn(InvocationView),
    Poll { delay_ms: u64, captured: bool },
    ReadDiagnostics,
    Done(Result<MachineStatus, ErrorView>),
}

impl View for Launch {
    type V = LaunchView;

    open spec fn view(&self) -> LaunchView {
        match self {
            Launch::Spawn(invocation) => LaunchView::Spawn(invocation@),
            Launch::Poll { delay_ms, captured } => LaunchView::Poll {
                delay_ms: *delay_ms,
                captured: *captured,
            },
            Launch::ReadDiagnostics => LaunchView::ReadDiagnostics,
            Launch::Done(Ok(status)) => LaunchView::Done(Ok(*status)),
            Launch::Done(Err(error)) => LaunchView::Done(Err(error@)),
        }
    }
}

/// What the caller saw when it did the step that a [`Launch`] asked for.
#[derive(Debug)]
pub enum Observation {
    /// The process was spawned.
    Spawned,
    /// The operating system refused to spawn the process.
    SpawnFailed(std::io::Error),
    /// The process has not exited.
    Running,
    /// The process has exited.
    Exited,
    /// The operating system could not tell whether the process has exited.
    PollFailed(std::io::Error),
    /// The standard error of the process, read to its end.
    Diagnostics(String),
    /// The standard error of the process could not be read.
    Unreadable,
}

/// What an [`Observation`] holds.
pub enum ObservationView {
    Spawned,
    SpawnFailed(std::io::Error),
    Running,
    Exited,
    PollFailed(std::io::Error),
    Diagnostics(Seq<char>),
    Unreadable,
}

impl View for Observation {
    type V = ObservationView;

    open spec fn view(&self) -> ObservationView {
        match self {
            Observation::Spawned => ObservationView::Spawned,
            Observation::SpawnFailed(cause) => ObservationView::SpawnFailed(*cause),
            Observation::Running => ObservationView::Running,
            Observation::Exited => ObservationView::Exited,
            Observation::PollFailed(cause) => ObservationView::PollFailed(*cause),
            Observation::Diagnostics(text) => ObservationView::Diagnostics(text@),
            Observation::Unreadable => ObservationView::Unreadable,
        }
    }
}

/// The result of a launch whose process is taken for running.
pub open spec fn running() -> Result<MachineStatus, ErrorView> {
    Ok(MachineStatus { running: true })
}

/// The result of a launch whose process exited early and left `text` on its
/// standard error.
pub open spec fn exited_with(text: Seq<char>) -> Result<MachineStatus, ErrorView> {
    Err(ErrorView::Runtime("QEMU exited: "@ + text))
}

/// The result of a launch whose process exited early and whose standard
/// error could not be had.
pub open spec fn exited_silently() -> Result<MachineStatus, ErrorView> {
    Err(ErrorView::Runtime("QEMU exited unexpectedly"@))
}

impl LaunchView {
    /// Whether `seen` is an answer to the step that this launch asks for.
    pub open spec fn expects(self, seen: ObservationView) -> bool {
        match self {
            LaunchView::Spawn(_) => seen is Spawned || seen is SpawnFailed,
            LaunchView::Poll { .. } => seen is Running || seen is Exited || seen is PollFailed,
            LaunchView::ReadDiagnostics => seen is Diagnostics || seen is Unreadable,
            LaunchView::Done(_) => false,
        }
    }

    /// The launch after `seen` was observed. An observation that does not
    /// answer the pending step leaves the launch as it is.
    pub open spec fn next(self, seen: ObservationView) -> LaunchView {
        match (self, seen) {
            (LaunchView::Spawn(invocation), ObservationView::Spawned) => {
                match invocation.check_delay_ms {
                    Some(delay_ms) => LaunchView::Poll {
                        delay_ms,
                        captured: invocation.capture_stderr,
                    },
                    None => LaunchView::Done(running()),
                }
            },
            (LaunchView::Spawn(_), ObservationView::SpawnFailed(cause)) => LaunchView::Done(
                Err(ErrorView::Io(cause)),
            ),
            (LaunchView::Poll { .. }, ObservationView::Running) => LaunchView::Done(running()),
            (LaunchView::Poll { captured, .. }, ObservationView::Exited) => {
                if captured {
                    LaunchView::ReadDiagnostics
                } else {
                    LaunchView::Done(exited_silently())
                }
            },
            (LaunchView::Poll { .. }, ObservationView::PollFailed(cause)) => LaunchView::Done(
                Err(ErrorView::Io(cause)),
            ),
            (LaunchView::ReadDiagnostics, ObservationView::Diagnostics(text)) => LaunchView::Done(
                exited_with(text),
            ),
            (LaunchView::ReadDiagnostics, ObservationView::Unreadable) => LaunchView::Done(
                exited_silently(),
            ),
            _ => self,
        }
    }
}

impl LaunchView {
    /// How many steps the launch still has before it at most.
    pub open spec fn steps_left(self) -> nat {
        match self {
            LaunchView::Spawn(_) => 3,
            LaunchView::Poll { .. } => 2,
            LaunchView::ReadDiagnostics => 1,
            LaunchView::Done(_) => 0,
        }
    }
}

/// Each observation that answers the pending step brings the launch nearer
/// to its end, so that a launch is over after three steps at most; any other
/// observation changes nothing, and a launch that is over stays as it is.
pub proof fn lemma_launch_advances(launch: LaunchView, seen: ObservationView)
    ensures
        launch.expects(seen) ==> launch.next(seen).steps_left() < launch.steps_left(),
        !launch.expects(seen) ==> launch.next(seen) == launch,
        launch is Done ==> launch.next(seen) == launch,
        launch.steps_left() == 0 <==> launch is Done,
{
}

/// A process that is still alive when it is looked at, after the delay,
/// counts as running.
pub proof fn lemma_survivor_is_running(invocation: InvocationView)
    requires
        invocation.check_delay_ms is Some,
    ensures
        LaunchView::Spawn(invocation).next(ObservationView::Spawned).next(
            ObservationView::Running,
        ) == LaunchView::Done(running()),
{
}

/// A process that has exited when it is looked at fails the launch with
/// [`ErrorView::Runtime`], and what it wrote on its captured standard error
/// ends the message.
pub proof fn lemma_early_exit_is_reported(invocation: InvocationView, diagnostics: Seq<char>)
    requires
        invocation.check_delay_ms is Some,
        invocation.capture_stderr,
    ensures
        LaunchView::Spawn(invocation).next(ObservationView::Spawned).next(
            ObservationView::Exited,
        ).next(ObservationView::Diagnostics(diagnostics)) == LaunchView::Done(
            exited_with(diagnostics),
        ),
        exited_with(diagnostics) matches Err(ErrorView::Runtime(message))
            && diagnostics.is_suffix_of(message),
{
    let message = "QEMU exited: "@ + diagnostics;
    assert(message.skip(message.len() - diagnostics.len()) =~= diagnostics);
}

/// A process that the operating system cannot spawn fails the launch with
/// the operating system's error.
pub proof fn lemma_spawn_failure_is_io(invocation: InvocationView, cause: std::io::Error)
    ensures
        LaunchView::Spawn(invocation).next(ObservationView::SpawnFailed(cause))
            == LaunchView::Done(Err(ErrorView::Io(cause))),
{
}

impl Launch {
    /// Goes on with the launch after `seen` was observed.
    pub fn next(self, seen: Observation) -> (after: Launch)
        ensures
            after@ == self@.next(seen@),
    {
        match (self, seen) {
            (Launch::Spawn(invocation), Observation::Spawned) => {
                match invocation.check_delay_ms {
                    Some(delay_ms) => Launch::Poll { delay_ms, captured: invocation.capture_stderr },
                    None => Launch::Done(Ok(MachineStatus { running: true })),
                }
            },
            (Launch::Spawn(_), Observation::SpawnFailed(cause)) => Launch::Done(
                Err(Error::Io(cause)),
            ),
            (Launch::Poll { .. }, Observation::Running) => Launch::Done(
                Ok(MachineStatus { running: true }),
            ),
            (Launch::Poll { captured, .. }, Observation::Exited) => {
                if captured {
                    Launch::ReadDiagnostics
                } else {
                    Launch::Done(Err(Error::Runtime("QEMU exited unexpectedly".to_owned())))
                }
            },
            (Launch::Poll { .. }, Observation::PollFailed(cause)) => Launch::Done(
                Err(Error::Io(cause)),
            ),
            (Launch::ReadDiagnostics, Observation::Diagnostics(text)) => {
                let mut message = "QEMU exited: ".to_owned();
                message.append(text.as_str());
                Launch::Done(Err(Error::Runtime(message)))
            },
            (Launch::ReadDiagnostics, Observation::Unreadable) => Launch::Done(
                Err(Error::Runtime("QEMU exited unexpectedly".to_owned())),
            ),
            (launch, _) => launch,
        }
    }
}

} // verus!
