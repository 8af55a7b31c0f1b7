use vstd::prelude::*;
use vstd::string::StringExecFns;

use crate::error::IoErrorKind;
use crate::error::MarkdownPreviewError;

verus! {

/// The wall-clock deadline, in milliseconds, after which a viewer that has
/// not reported its exit status is killed and the run fails with a timeout.
pub const DEADLINE_MS: u64 = 10000;

/// The fixed pause, in milliseconds, between two polls of the viewer process.
pub const POLL_INTERVAL_MS: u64 = 1000;

/// The platforms the launcher can be asked about.  Only one of them has a
/// viewer command; the others are rejected before any process is spawned.
#[derive(Clone, Copy, Debug, PartialEq, Eq, Structural)]
pub enum Platform {
    Windows,
    Linux,
    MacOs,
    Other,
}

/// What one non-blocking poll of the spawned viewer process reported.
#[derive(Clone, Copy, Debug, PartialEq, Eq, Structural)]
pub enum PollEvent {
    /// The process exited, reporting success or failure.
    Exited { success: bool },
    /// The process had not exited yet.
    StillRunning,
    /// Asking for the process's status itself failed.
    PollFailed { kind: IoErrorKind },
}

/// What the launcher decides to do after one poll.
#[derive(Clone, Copy, Debug, PartialEq, Eq, Structural)]
pub enum LaunchAction {
    /// The viewer started successfully; the run is over.
    Succeed,
    /// Stop and report the error, with no process left to kill.
    Fail { error: MarkdownPreviewError },
    /// Pause for `POLL_INTERVAL_MS`, then poll again.
    SleepThenPoll,
    /// Kill the still-running process, then report the error.
    KillThenFail { error: MarkdownPreviewError },
}

/// The launcher's decision for one poll outcome at a given elapsed time:
/// a successful exit ends the run; a failed exit is reported; a process that
/// is still running is given until `DEADLINE_MS` of wall-clock time and is
/// then killed with a timeout error; a failed poll kills the process and
/// reports the underlying I/O error.
pub open spec fn spec_launch_step(elapsed_ms: u64, event: PollEvent) -> LaunchAction {
    match event {
        PollEvent::Exited { success } => if success {
            LaunchAction::Succeed
        } else {
            (LaunchAction::Fail { error: MarkdownPreviewError::ViewerExitedWithError })
        },
        PollEvent::StillRunning => if elapsed_ms > DEADLINE_MS {
            (LaunchAction::KillThenFail { error: MarkdownPreviewError::Timeout })
        } else {
            LaunchAction::SleepThenPoll
        },
        PollEvent::PollFailed { kind } => (LaunchAction::KillThenFail {
            error: MarkdownPreviewError::IoError(kind),
        }),
    }
}

/// Decide what the launcher does after one poll of the viewer process,
/// `elapsed_ms` milliseconds after it was spawned.
pub fn launch_step(elapsed_ms: u64, event: &PollEvent) -> (a: LaunchAction)
    ensures
        a == spec_launch_step(elapsed_ms, *event),
{
    match event {
        PollEvent::Exited { success } => {
            if *success {
                LaunchAction::Succeed
            } else {
                LaunchAction::Fail { error: MarkdownPreviewError::ViewerExitedWithError }
            }
        },
        PollEvent::StillRunning => {
            if elapsed_ms > DEADLINE_MS {
                LaunchAction::KillThenFail { error: MarkdownPreviewError::Timeout }
            } else {
                LaunchAction::SleepThenPoll
            }
        },
        PollEvent::PollFailed { kind } => {
            LaunchAction::KillThenFail { error: MarkdownPreviewError::IoError(*kind) }
        },
    }
}

/// A timeout is decided exactly when the viewer is still running strictly
/// after the deadline: never sooner.
pub proof fn lemma_timeout_only_after_deadline(elapsed_ms: u64)
    ensures
        spec_launch_step(elapsed_ms, PollEvent::StillRunning) == (LaunchAction::KillThenFail {
            error: MarkdownPreviewError::Timeout,
        }) <==> elapsed_ms > DEADLINE_MS,
{
}

/// A timeout is decided at most one poll interval after the deadline: if the
/// previous poll let the loop continue and the next poll comes within
/// `POLL_INTERVAL_MS`, then whenever the next poll decides a timeout, the
/// elapsed time lies strictly above the deadline and at most one interval
/// beyond it.
pub proof fn lemma_timeout_within_one_interval(prev_elapsed_ms: u64, next_elapsed_ms: u64)
    requires
        spec_launch_step(prev_elapsed_ms, PollEvent::StillRunning) == LaunchAction::SleepThenPoll,
        next_elapsed_ms <= prev_elapsed_ms + POLL_INTERVAL_MS,
    ensures
        next_elapsed_ms <= DEADLINE_MS + POLL_INTERVAL_MS,
        spec_launch_step(next_elapsed_ms, PollEvent::StillRunning) == (LaunchAction::KillThenFail {
            error: MarkdownPreviewError::Timeout,
        }) ==> DEADLINE_MS < next_elapsed_ms,
{
}

/// The command that asks the operating system to open the given file in a
/// browser: a program to start and its arguments, the file's path last.
pub struct ViewerCommand {
    pub program: String,
    pub args: Vec<String>,
}

/// Build the viewer command for a platform, or reject the platform.  Exactly
/// one platform is supported: on Windows the command asks the shell to start
/// a browser on the file; every other platform is refused with
/// `UnsupportedPlatform` before any process could be spawned.
pub fn viewer_command(platform: Platform, path: &str) -> (r: Result<
    ViewerCommand,
    MarkdownPreviewError,
>)
    ensures
        r is Ok <==> platform == Platform::Windows,
        r matches Ok(c) ==> c.program@ == "cmd.exe"@ && c.args@.len() == 4 && c.args@[0]@ == "/C"@
            && c.args@[1]@ == "start"@ && c.args@[2]@ == "chrome"@ && c.args@[3]@ == path@,
        r matches Err(e) ==> e == MarkdownPreviewError::UnsupportedPlatform,
{
    match platform {
        Platform::Windows => {
            let mut args: Vec<String> = Vec::new();
            args.push(String::from_str("/C"));
            args.push(String::from_str("start"));
            args.push(String::from_str("chrome"));
            args.push(String::from_str(path));
            Ok(ViewerCommand { program: String::from_str("cmd.exe"), args })
        },
        _ => Err(MarkdownPreviewError::UnsupportedPlatform),
    }
}

} // verus!
