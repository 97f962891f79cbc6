use neuro_kar_manager::error::{EngineError, ErrorKind};
use neuro_kar_manager::runner::{RunAction, RunEvent, RunPhase, Resume, Runner, Stream};

fn fail(kind: ErrorKind, detail: &str) -> RunAction {
    RunAction::Finish(Err(EngineError { kind, detail: detail.to_string() }))
}

fn line(text: &str) -> RunEvent {
    RunEvent::Line(text.to_string())
}

fn forward(text: &str, resume: Resume) -> RunAction {
    RunAction::Forward { line: text.to_string(), resume }
}

fn running() -> Runner {
    let mut runner = Runner::new();
    assert_eq!(runner.on_event(RunEvent::Start), RunAction::Spawn);
    assert_eq!(runner.on_event(RunEvent::Spawned), RunAction::Watch);
    assert_eq!(runner.phase, RunPhase::Running);
    runner
}

#[test]
fn child_that_succeeds_yields_its_output() {
    let mut runner = running();
    assert_eq!(runner.on_event(RunEvent::Exited { success: true }), RunAction::Collect);
    assert_eq!(
        runner.on_event(RunEvent::Collected { stdout: "ok\n".to_string() }),
        RunAction::Finish(Ok("ok\n".to_string()))
    );
    assert_eq!(runner.phase, RunPhase::Done);
}

#[test]
fn child_that_fails_yields_both_outputs() {
    let mut runner = running();
    assert_eq!(runner.on_event(line("oops")), forward("oops", Resume::Watching));
    assert_eq!(runner.on_event(line("bad flag")), forward("bad flag", Resume::Watching));
    assert_eq!(runner.on_event(RunEvent::Exited { success: false }), RunAction::Collect);
    assert_eq!(runner.on_event(line("late")), forward("late", Resume::Collecting));
    let action = runner.on_event(RunEvent::Collected { stdout: "partial".to_string() });
    assert_eq!(
        action,
        fail(ErrorKind::ProcessExit, "Command failed: partial\nStderr: oops\nbad flag\nlate\n")
    );
    match action {
        RunAction::Finish(Err(e)) => {
            assert_eq!(e.kind, ErrorKind::ProcessExit);
            assert!(e.message().contains("oops\nbad flag\nlate\n"));
        }
        _ => unreachable!(),
    }
}

#[test]
fn lines_are_kept_in_order_with_line_feeds() {
    let mut runner = running();
    for text in ["a", "", "b c"] {
        assert_eq!(runner.on_event(line(text)), forward(text, Resume::Watching));
    }
    assert_eq!(runner.stderr, "a\n\nb c\n");
}

#[test]
fn cancel_before_exit_kills_reaps_and_ends_cancelled() {
    let mut runner = running();
    runner.on_event(line("waiting for code"));
    assert_eq!(runner.on_event(RunEvent::Cancel), RunAction::KillAndReap);
    assert_eq!(runner.phase, RunPhase::Reaping);
    assert_eq!(runner.on_event(line("killed")), forward("killed", Resume::Reaping));
    assert_eq!(runner.on_event(RunEvent::Exited { success: false }), RunAction::Idle);
    assert_eq!(runner.on_event(RunEvent::Collected { stdout: "x".to_string() }), RunAction::Idle);
    assert_eq!(runner.on_event(RunEvent::Reaped), fail(ErrorKind::Cancelled, "Command cancelled by user"));
    assert_eq!(runner.phase, RunPhase::Done);
}

#[test]
fn second_cancel_is_a_no_op() {
    let mut runner = running();
    assert_eq!(runner.on_event(RunEvent::Cancel), RunAction::KillAndReap);
    assert_eq!(runner.on_event(RunEvent::Cancel), RunAction::Idle);
    assert_eq!(runner.phase, RunPhase::Reaping);
}

#[test]
fn cancel_after_exit_does_not_change_the_outcome() {
    let mut runner = running();
    runner.on_event(RunEvent::Exited { success: true });
    assert_eq!(runner.on_event(RunEvent::Cancel), RunAction::Idle);
    assert_eq!(
        runner.on_event(RunEvent::Collected { stdout: "done".to_string() }),
        RunAction::Finish(Ok("done".to_string()))
    );
    assert_eq!(runner.on_event(RunEvent::Cancel), RunAction::Idle);
}

#[test]
fn cancel_before_spawn_is_a_no_op() {
    let mut runner = Runner::new();
    assert_eq!(runner.on_event(RunEvent::Cancel), RunAction::Idle);
    runner.on_event(RunEvent::Start);
    assert_eq!(runner.on_event(RunEvent::Cancel), RunAction::Idle);
    assert_eq!(runner.phase, RunPhase::Spawning);
}

#[test]
fn child_spawn_failures_are_typed() {
    let mut runner = Runner::new();
    runner.on_event(RunEvent::Start);
    assert_eq!(
        runner.on_event(RunEvent::SpawnFailed("No such file or directory".to_string())),
        fail(ErrorKind::Spawn, "Failed to spawn command: No such file or directory")
    );
    let mut runner = Runner::new();
    runner.on_event(RunEvent::Start);
    assert_eq!(
        runner.on_event(RunEvent::StreamMissing(Stream::Stderr)),
        fail(ErrorKind::Spawn, "Failed to capture stderr")
    );
    let mut runner = Runner::new();
    runner.on_event(RunEvent::Start);
    assert_eq!(
        runner.on_event(RunEvent::StreamMissing(Stream::Stdout)),
        fail(ErrorKind::Spawn, "Failed to capture stdout")
    );
}

#[test]
fn wait_and_read_failures_are_typed() {
    let mut runner = running();
    assert_eq!(
        runner.on_event(RunEvent::WaitFailed("interrupted".to_string())),
        fail(ErrorKind::Spawn, "Failed to run command: interrupted")
    );
    let mut runner = running();
    runner.on_event(RunEvent::Exited { success: true });
    assert_eq!(
        runner.on_event(RunEvent::StdoutUnread("broken pipe".to_string())),
        fail(ErrorKind::Transport, "Failed to read stdout: broken pipe")
    );
    let mut runner = running();
    runner.on_event(RunEvent::Exited { success: true });
    assert_eq!(
        runner.on_event(RunEvent::ReaderLost { stream: Stream::Stdout, cause: "panicked".to_string() }),
        fail(ErrorKind::Transport, "Join error: panicked")
    );
    let mut runner = running();
    runner.on_event(RunEvent::Exited { success: true });
    assert_eq!(
        runner.on_event(RunEvent::ReaderLost { stream: Stream::Stderr, cause: "panicked".to_string() }),
        fail(ErrorKind::Transport, "panicked")
    );
}

#[test]
fn ended_run_takes_nothing_in() {
    let mut runner = running();
    runner.on_event(RunEvent::Exited { success: true });
    runner.on_event(RunEvent::Collected { stdout: String::new() });
    for event in [RunEvent::Start, line("x"), RunEvent::Reaped, RunEvent::Exited { success: false }] {
        assert_eq!(runner.on_event(event), RunAction::Idle);
    }
    assert_eq!(runner.stderr, "");
}
