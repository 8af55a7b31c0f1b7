use mdp::IoErrorKind;
use mdp::LaunchAction;
use mdp::MarkdownPreviewError;
use mdp::MarkdownPreviewTool;
use mdp::Options;
use mdp::Platform;
use mdp::PollEvent;
use mdp::RunAction;
use mdp::RunEvent;
use mdp::RunState;
use mdp::launch::DEADLINE_MS;
use mdp::launch::POLL_INTERVAL_MS;
use mdp::launch::launch_step;
use mdp::launch::viewer_command;

fn tool(platform: Platform, css: Option<&str>) -> MarkdownPreviewTool {
    MarkdownPreviewTool::new(Options {
        markdown_file: String::from("notes.md"),
        css_file: css.map(String::from),
        platform,
    })
}

#[test]
fn launch_constants() {
    assert_eq!(DEADLINE_MS, 10_000);
    assert_eq!(POLL_INTERVAL_MS, 1_000);
}

#[test]
fn launch_step_succeeds_on_clean_exit() {
    let a = launch_step(3_000, &PollEvent::Exited { success: true });
    assert_eq!(a, LaunchAction::Succeed);
}

#[test]
fn launch_step_fails_on_unclean_exit() {
    let a = launch_step(3_000, &PollEvent::Exited { success: false });
    assert_eq!(a, LaunchAction::Fail { error: MarkdownPreviewError::ViewerExitedWithError });
}

#[test]
fn launch_step_keeps_polling_until_the_deadline() {
    assert_eq!(launch_step(0, &PollEvent::StillRunning), LaunchAction::SleepThenPoll);
    assert_eq!(launch_step(9_999, &PollEvent::StillRunning), LaunchAction::SleepThenPoll);
    assert_eq!(launch_step(10_000, &PollEvent::StillRunning), LaunchAction::SleepThenPoll);
}

#[test]
fn launch_step_times_out_after_the_deadline() {
    assert_eq!(
        launch_step(10_001, &PollEvent::StillRunning),
        LaunchAction::KillThenFail { error: MarkdownPreviewError::Timeout }
    );
    assert_eq!(
        launch_step(11_000, &PollEvent::StillRunning),
        LaunchAction::KillThenFail { error: MarkdownPreviewError::Timeout }
    );
}

#[test]
fn launch_step_kills_on_poll_failure() {
    let a = launch_step(2_000, &PollEvent::PollFailed { kind: IoErrorKind::Interrupted });
    assert_eq!(
        a,
        LaunchAction::KillThenFail {
            error: MarkdownPreviewError::IoError(IoErrorKind::Interrupted)
        }
    );
}

#[test]
fn viewer_command_on_windows() {
    let c = viewer_command(Platform::Windows, "C:\\tmp\\mdp1\\temp.html").unwrap();
    assert_eq!(c.program, "cmd.exe");
    assert_eq!(c.args, vec!["/C", "start", "chrome", "C:\\tmp\\mdp1\\temp.html"]);
}

#[test]
fn viewer_command_rejects_other_platforms() {
    for p in [Platform::Linux, Platform::MacOs, Platform::Other] {
        match viewer_command(p, "/tmp/mdp1/temp.html") {
            Err(e) => assert_eq!(e, MarkdownPreviewError::UnsupportedPlatform),
            Ok(_) => panic!("platform unexpectedly supported"),
        }
    }
}

#[test]
fn full_run_with_stylesheet() {
    let t = tool(Platform::Windows, Some("assets/style.css"));
    let (state, action) = t.start();
    assert!(matches!(state, RunState::ReadingInput));
    match &action {
        RunAction::ReadInput { path } => assert_eq!(path, "notes.md"),
        _ => panic!("expected a read request"),
    }

    let (state, action) = t.run_step(
        state,
        RunEvent::InputRead { result: Ok(String::from("# Hello\n\nWorld")) },
    );
    assert!(matches!(action, RunAction::CreateWorkspace));
    match &state {
        RunState::CreatingWorkspace { document } => {
            assert!(document.contains("<h1>Hello</h1>"));
            assert!(document.contains("<p>World</p>"));
            assert!(document.contains(
                "<link rel=\"stylesheet\" href=\"style.css\" type=\"text/css\">"
            ));
        },
        _ => panic!("expected to be waiting on the workspace"),
    }

    let (state, action) = t.run_step(
        state,
        RunEvent::WorkspaceCreated { result: Ok(String::from("C:\\tmp\\mdp1")) },
    );
    match &action {
        RunAction::SaveDocument { path, contents } => {
            assert_eq!(path, "C:\\tmp\\mdp1\\temp.html");
            assert!(contents.contains("<h1>Hello</h1>"));
        },
        _ => panic!("expected a save request"),
    }

    let (state, action) = t.run_step(state, RunEvent::DocumentSaved { result: Ok(()) });
    match &action {
        RunAction::CopyStylesheet { source, destination } => {
            assert_eq!(source, "assets/style.css");
            assert_eq!(destination, "C:\\tmp\\mdp1\\style.css");
        },
        _ => panic!("expected a copy request"),
    }

    let (state, action) = t.run_step(state, RunEvent::StylesheetCopied { result: Ok(()) });
    match &action {
        RunAction::SpawnViewer { command } => {
            assert_eq!(command.program, "cmd.exe");
            assert_eq!(
                command.args,
                vec!["/C", "start", "chrome", "C:\\tmp\\mdp1\\temp.html"]
            );
        },
        _ => panic!("expected a spawn request"),
    }
    assert!(matches!(state, RunState::Spawning));

    let (state, action) = t.run_step(state, RunEvent::SpawnFinished { result: Ok(()) });
    assert!(matches!(state, RunState::Polling));
    assert!(matches!(action, RunAction::PollViewer));

    let (state, action) = t.run_step(
        state,
        RunEvent::Polled { elapsed_ms: 20, event: PollEvent::StillRunning },
    );
    assert!(matches!(state, RunState::Polling));
    assert!(matches!(action, RunAction::SleepThenPoll));

    let (state, action) = t.run_step(
        state,
        RunEvent::Polled { elapsed_ms: 1_030, event: PollEvent::Exited { success: true } },
    );
    assert!(matches!(action, RunAction::Report));
    match state {
        RunState::Finished { result } => assert_eq!(result, Ok(())),
        _ => panic!("expected the run to be finished"),
    }
}

#[test]
fn missing_input_fails_before_any_workspace() {
    let t = tool(Platform::Windows, None);
    let (state, _) = t.start();
    let (state, action) = t.run_step(
        state,
        RunEvent::InputRead { result: Err(IoErrorKind::NotFound) },
    );
    assert!(matches!(action, RunAction::Report));
    match state {
        RunState::Finished { result } => {
            assert_eq!(result, Err(MarkdownPreviewError::IoError(IoErrorKind::NotFound)));
        },
        _ => panic!("expected the run to be finished"),
    }
}

#[test]
fn unsupported_platform_fails_before_any_spawn() {
    let t = tool(Platform::Linux, None);
    let (state, _) = t.start();
    let (state, _) = t.run_step(
        state,
        RunEvent::InputRead { result: Ok(String::from("hi")) },
    );
    let (state, _) = t.run_step(
        state,
        RunEvent::WorkspaceCreated { result: Ok(String::from("/tmp/mdp1")) },
    );
    let (state, action) = t.run_step(state, RunEvent::DocumentSaved { result: Ok(()) });
    assert!(matches!(action, RunAction::Report));
    assert!(!matches!(action, RunAction::SpawnViewer { .. }));
    match state {
        RunState::Finished { result } => {
            assert_eq!(result, Err(MarkdownPreviewError::UnsupportedPlatform));
        },
        _ => panic!("expected the run to be finished"),
    }
}

#[test]
fn save_failure_aborts_the_run() {
    let t = tool(Platform::Windows, None);
    let (state, _) = t.start();
    let (state, _) = t.run_step(
        state,
        RunEvent::InputRead { result: Ok(String::from("hi")) },
    );
    let (state, _) = t.run_step(
        state,
        RunEvent::WorkspaceCreated { result: Ok(String::from("C:\\tmp\\mdp2")) },
    );
    let (state, action) = t.run_step(
        state,
        RunEvent::DocumentSaved { result: Err(IoErrorKind::PermissionDenied) },
    );
    assert!(matches!(action, RunAction::Report));
    match state {
        RunState::Finished { result } => {
            assert_eq!(
                result,
                Err(MarkdownPreviewError::IoError(IoErrorKind::PermissionDenied))
            );
        },
        _ => panic!("expected the run to be finished"),
    }
}

#[test]
fn timeout_kills_the_viewer() {
    let t = tool(Platform::Windows, None);
    let (state, _) = t.start();
    let (state, _) = t.run_step(
        state,
        RunEvent::InputRead { result: Ok(String::from("hi")) },
    );
    let (state, _) = t.run_step(
        state,
        RunEvent::WorkspaceCreated { result: Ok(String::from("C:\\tmp\\mdp3")) },
    );
    let (state, _) = t.run_step(state, RunEvent::DocumentSaved { result: Ok(()) });
    let (state, _) = t.run_step(state, RunEvent::SpawnFinished { result: Ok(()) });
    let mut state = state;
    for k in 0..11u64 {
        let (next, action) = t.run_step(
            state,
            RunEvent::Polled { elapsed_ms: k * 1_000, event: PollEvent::StillRunning },
        );
        assert!(matches!(action, RunAction::SleepThenPoll));
        state = next;
    }
    let (state, action) = t.run_step(
        state,
        RunEvent::Polled { elapsed_ms: 11_000, event: PollEvent::StillRunning },
    );
    assert!(matches!(action, RunAction::KillViewer));
    match state {
        RunState::Finished { result } => {
            assert_eq!(result, Err(MarkdownPreviewError::Timeout));
        },
        _ => panic!("expected the run to be finished"),
    }
}

#[test]
fn error_messages() {
    assert_eq!(
        MarkdownPreviewError::IoError(IoErrorKind::NotFound).message(),
        "IO Error"
    );
    assert_eq!(IoErrorKind::NotFound.message(), "file not found");
    assert_eq!(
        MarkdownPreviewError::Timeout.message(),
        "Timed out waiting for browser to open file"
    );
    assert_eq!(MarkdownPreviewError::UnsupportedPlatform.message(), "OS not supported");
    assert_eq!(
        MarkdownPreviewError::ViewerExitedWithError.message(),
        "Failed to open file in browser"
    );
    assert_eq!(
        MarkdownPreviewError::TemplateError.message(),
        "Template Rendering Error"
    );
}
