//! The run of a child process whose error output is streamed and which the
//! user can cancel.

use crate::error::{failure, EngineError, EngineErrorView, ErrorKind};
use vstd::prelude::*;

verus! {

/// What is put before the cause where the child could not be created.
pub const SPAWN_FAILED: &'static str = "Failed to spawn command: ";

/// Detail of the failure where the error output cannot be read.
pub const STDERR_MISSING: &'static str = "Failed to capture stderr";

/// Detail of the failure where the standard output cannot be read.
pub const STDOUT_MISSING: &'static str = "Failed to capture stdout";

/// What is put before the cause where waiting for the child failed.
pub const WAIT_FAILED: &'static str = "Failed to run command: ";

/// Detail of the outcome of a run that the user cancelled.
pub const CANCELLED: &'static str = "Command cancelled by user";

/// What is put before the cause where reading the standard output failed.
pub const STDOUT_UNREAD: &'static str = "Failed to read stdout: ";

/// What is put before the cause where the reader of the standard output was lost.
pub const READER_LOST: &'static str = "Join error: ";

/// What is put before the standard output of a child that failed.
pub const EXIT_FAILED: &'static str = "Command failed: ";

/// What is put before the error output of a child that failed.
pub const EXIT_STDERR: &'static str = "\nStderr: ";

/// Where a run of a child process stands.
#[derive(Clone, Copy, Debug, PartialEq, Eq, Structural)]
pub enum RunPhase {
    /// Nothing was asked for yet.
    Created,
    /// The child is being spawned.
    Spawning,
    /// The child runs; its exit or a cancellation is awaited.
    Running,
    /// The run was cancelled: the child is being killed and waited for.
    Reaping,
    /// The child exited: what is left of its output is being gathered.
    Collecting,
    /// The run has ended and its outcome was handed out.
    Done,
}

/// A run of a child process that streams its error output and can be
/// cancelled.
#[derive(Debug, PartialEq, Eq)]
pub struct Runner {
    pub phase: RunPhase,
    /// Whether the child exited with success. Holds from `Collecting` on.
    pub succeeded: bool,
    /// The lines of the child's error output so far, each with a line feed
    /// after it.
    pub stderr: String,
}

/// One of the two output streams of a child.
#[derive(Clone, Copy, Debug, PartialEq, Eq, Structural)]
pub enum Stream {
    Stdout,
    Stderr,
}

/// What the caller goes on with after it has handed a line on.
#[derive(Clone, Copy, Debug, PartialEq, Eq, Structural)]
pub enum Resume {
    /// Awaiting the child's exit or a cancellation, as after `Watch`.
    Watching,
    /// Killing the child and waiting for it, as after `KillAndReap`.
    Reaping,
    /// Reading both streams to their end, as after `Collect`.
    Collecting,
}

/// What happened outside, for the run to react to.
#[derive(Debug, PartialEq, Eq)]
pub enum RunEvent {
    /// The caller asks for the run.
    Start,
    /// The child could not be created. Holds the cause.
    SpawnFailed(String),
    /// The child was created, but this stream of it cannot be read.
    StreamMissing(Stream),
    /// The child was created and both its streams are read.
    Spawned,
    /// The child wrote a line to its error output. Holds it without its
    /// terminator.
    Line(String),
    /// The user cancels the run.
    Cancel,
    /// The child exited by itself.
    Exited { success: bool },
    /// Waiting for the child failed. Holds the cause.
    WaitFailed(String),
    /// The killed child has been waited for.
    Reaped,
    /// All of both streams has been read. Holds the standard output.
    Collected { stdout: String },
    /// Reading the standard output failed. Holds the cause.
    StdoutUnread(String),
    /// The reader of a stream was lost. Holds the cause.
    ReaderLost { stream: Stream, cause: String },
}

/// What the caller is to do next for the run.
#[derive(Debug, PartialEq, Eq)]
pub enum RunAction {
    /// Create the child, with both its output streams piped, and so that it
    /// is terminated if this process dies, where the platform can do that.
    Spawn,
    /// Await the child's exit or a cancellation, whichever comes first, and
    /// read its streams meanwhile.
    Watch,
    /// Hand the line to the sink for error output, then go on with what was
    /// under way.
    Forward { line: String, resume: Resume },
    /// Kill the child, then wait for it, so that nothing of it is left.
    KillAndReap,
    /// Read both streams to their end.
    Collect,
    /// The run has ended: this is its outcome.
    Finish(Result<String, EngineError>),
    /// The event was none that the run awaited: nothing to do.
    Idle,
}

/// Mathematical value of a `Runner`.
pub ghost struct RunnerView {
    pub phase: RunPhase,
    pub succeeded: bool,
    pub stderr: Seq<char>,
}

/// Mathematical value of a `RunEvent`.
pub ghost enum RunEventView {
    Start,
    SpawnFailed(Seq<char>),
    StreamMissing(Stream),
    Spawned,
    Line(Seq<char>),
    Cancel,
    Exited { success: bool },
    WaitFailed(Seq<char>),
    Reaped,
    Collected { stdout: Seq<char> },
    StdoutUnread(Seq<char>),
    ReaderLost { stream: Stream, cause: Seq<char> },
}

/// Mathematical value of a `RunAction`.
pub ghost enum RunActionView {
    Spawn,
    Watch,
    Forward { line: Seq<char>, resume: Resume },
    KillAndReap,
    Collect,
    Finish(Result<Seq<char>, EngineErrorView>),
    Idle,
}

impl View for Runner {
    type V = RunnerView;

    open spec fn view(&self) -> RunnerView {
        RunnerView { phase: self.phase, succeeded: self.succeeded, stderr: self.stderr@ }
    }
}

impl View for RunEvent {
    type V = RunEventView;

    open spec fn view(&self) -> RunEventView {
        match self {
            RunEvent::Start => RunEventView::Start,
            RunEvent::SpawnFailed(cause) => RunEventView::SpawnFailed(cause@),
            RunEvent::StreamMissing(stream) => RunEventView::StreamMissing(*stream),
            RunEvent::Spawned => RunEventView::Spawned,
            RunEvent::Line(line) => RunEventView::Line(line@),
            RunEvent::Cancel => RunEventView::Cancel,
            RunEvent::Exited { success } => RunEventView::Exited { success: *success },
            RunEvent::WaitFailed(cause) => RunEventView::WaitFailed(cause@),
            RunEvent::Reaped => RunEventView::Reaped,
            RunEvent::Collected { stdout } => RunEventView::Collected { stdout: stdout@ },
            RunEvent::StdoutUnread(cause) => RunEventView::StdoutUnread(cause@),
            RunEvent::ReaderLost { stream, cause } => RunEventView::ReaderLost {
                stream: *stream,
                cause: cause@,
            },
        }
    }
}

impl View for RunAction {
    type V = RunActionView;

    open spec fn view(&self) -> RunActionView {
        match self {
            RunAction::Spawn => RunActionView::Spawn,
            RunAction::Watch => RunActionView::Watch,
            RunAction::Forward { line, resume } => RunActionView::Forward {
                line: line@,
                resume: *resume,
            },
            RunAction::KillAndReap => RunActionView::KillAndReap,
            RunAction::Collect => RunActionView::Collect,
            RunAction::Finish(Ok(stdout)) => RunActionView::Finish(Ok(stdout@)),
            RunAction::Finish(Err(e)) => RunActionView::Finish(Err(e@)),
            RunAction::Idle => RunActionView::Idle,
        }
    }
}

/// The run in phase `phase`, otherwise as it was.
pub open spec fn in_phase(runner: RunnerView, phase: RunPhase) -> RunnerView {
    RunnerView { phase, ..runner }
}

/// The run has ended in the failure `error`.
pub open spec fn ended(runner: RunnerView, error: EngineErrorView) -> (RunnerView, RunActionView) {
    (in_phase(runner, RunPhase::Done), RunActionView::Finish(Err(error)))
}

/// What is under way in a phase in which lines are taken in.
pub open spec fn under_way(phase: RunPhase) -> Resume {
    match phase {
        RunPhase::Reaping => Resume::Reaping,
        RunPhase::Collecting => Resume::Collecting,
        _ => Resume::Watching,
    }
}

/// The line was written to the error output: it is kept, with a line feed
/// after it, and handed on; what was under way goes on.
pub open spec fn heard(runner: RunnerView, line: Seq<char>) -> (RunnerView, RunActionView) {
    (
        RunnerView { stderr: runner.stderr + line + "\n"@, ..runner },
        RunActionView::Forward { line, resume: under_way(runner.phase) },
    )
}

/// The detail of the failure of a child that exited without success.
pub open spec fn exit_detail(stdout: Seq<char>, stderr: Seq<char>) -> Seq<char> {
    EXIT_FAILED@ + stdout + EXIT_STDERR@ + stderr
}

/// What the run becomes on `event`, and what is to be done next.
///
/// The child is spawned, then watched. Each line of its error output is kept
/// and handed on as it comes. If the child exits by itself, the rest of its
/// output is gathered, and the run ends with the standard output where the
/// child succeeded, and with a failure that holds both outputs where it did
/// not. If the run is cancelled first, the child is killed and waited for,
/// and the run ends as cancelled, whatever the child did. A cancellation at
/// any other time does nothing. An event that the phase does not await
/// changes nothing.
pub open spec fn step(runner: RunnerView, event: RunEventView) -> (RunnerView, RunActionView) {
    match (runner.phase, event) {
        (RunPhase::Created, RunEventView::Start) => (
            in_phase(runner, RunPhase::Spawning),
            RunActionView::Spawn,
        ),
        (RunPhase::Spawning, RunEventView::SpawnFailed(cause)) => ended(
            runner,
            failure(ErrorKind::Spawn, SPAWN_FAILED@ + cause),
        ),
        (RunPhase::Spawning, RunEventView::StreamMissing(Stream::Stderr)) => ended(
            runner,
            failure(ErrorKind::Spawn, STDERR_MISSING@),
        ),
        (RunPhase::Spawning, RunEventView::StreamMissing(Stream::Stdout)) => ended(
            runner,
            failure(ErrorKind::Spawn, STDOUT_MISSING@),
        ),
        (RunPhase::Spawning, RunEventView::Spawned) => (
            in_phase(runner, RunPhase::Running),
            RunActionView::Watch,
        ),
        (RunPhase::Running, RunEventView::Line(line)) => heard(runner, line),
        (RunPhase::Reaping, RunEventView::Line(line)) => heard(runner, line),
        (RunPhase::Collecting, RunEventView::Line(line)) => heard(runner, line),
        (RunPhase::Running, RunEventView::Cancel) => (
            in_phase(runner, RunPhase::Reaping),
            RunActionView::KillAndReap,
        ),
        (RunPhase::Running, RunEventView::Exited { success }) => (
            RunnerView { phase: RunPhase::Collecting, succeeded: success, ..runner },
            RunActionView::Collect,
        ),
        (RunPhase::Running, RunEventView::WaitFailed(cause)) => ended(
            runner,
            failure(ErrorKind::Spawn, WAIT_FAILED@ + cause),
        ),
        (RunPhase::Reaping, RunEventView::Reaped) => ended(
            runner,
            failure(ErrorKind::Cancelled, CANCELLED@),
        ),
        (RunPhase::Collecting, RunEventView::Collected { stdout }) => if runner.succeeded {
            (in_phase(runner, RunPhase::Done), RunActionView::Finish(Ok(stdout)))
        } else {
            ended(runner, failure(ErrorKind::ProcessExit, exit_detail(stdout, runner.stderr)))
        },
        (RunPhase::Collecting, RunEventView::StdoutUnread(cause)) => ended(
            runner,
            failure(ErrorKind::Transport, STDOUT_UNREAD@ + cause),
        ),
        (RunPhase::Collecting, RunEventView::ReaderLost { stream: Stream::Stdout, cause }) => ended(
            runner,
            failure(ErrorKind::Transport, READER_LOST@ + cause),
        ),
        (RunPhase::Collecting, RunEventView::ReaderLost { stream: Stream::Stderr, cause }) => ended(
            runner,
            failure(ErrorKind::Transport, cause),
        ),
        _ => (runner, RunActionView::Idle),
    }
}

/// The run after `events`, one after the other, and what was to be done on
/// each.
pub open spec fn run(runner: RunnerView, events: Seq<RunEventView>) -> (
    RunnerView,
    Seq<RunActionView>,
)
    decreases events.len(),
{
    if events.len() == 0 {
        (runner, seq![])
    } else {
        let (next, action) = step(runner, events[0]);
        let (last, actions) = run(next, events.drop_first());
        (last, seq![action] + actions)
    }
}

/// The events of the child writing `texts`, line by line, to its error
/// output.
pub open spec fn lines(texts: Seq<Seq<char>>) -> Seq<RunEventView> {
    Seq::new(texts.len(), |i: int| RunEventView::Line(texts[i]))
}

/// Handing `texts` to the sink, line by line, each time going on with
/// `resume`.
pub open spec fn forwards(texts: Seq<Seq<char>>, resume: Resume) -> Seq<RunActionView> {
    Seq::new(texts.len(), |i: int| RunActionView::Forward { line: texts[i], resume })
}

/// `texts`, each with a line feed after it, in one text.
pub open spec fn joined(texts: Seq<Seq<char>>) -> Seq<char>
    decreases texts.len(),
{
    if texts.len() == 0 {
        seq![]
    } else {
        texts[0] + "\n"@ + joined(texts.drop_first())
    }
}

/// Whether `action` ends a run with an outcome other than cancelled.
pub open spec fn ends_uncancelled(action: RunActionView) -> bool {
    match action {
        RunActionView::Finish(Ok(_)) => true,
        RunActionView::Finish(Err(e)) => e.kind != ErrorKind::Cancelled,
        _ => false,
    }
}

/// Running events one stretch after another is running them all.
pub proof fn lemma_run_concat(
    runner: RunnerView,
    first: Seq<RunEventView>,
    second: Seq<RunEventView>,
)
    ensures
        run(runner, first + second) == ({
            let (middle, before) = run(runner, first);
            let (last, after) = run(middle, second);
            (last, before + after)
        }),
    decreases first.len(),
{
    if first.len() == 0 {
        assert(first + second =~= second);
        let (last, after) = run(runner, second);
        assert(Seq::<RunActionView>::empty() + after =~= after);
    } else {
        let (next, action) = step(runner, first[0]);
        assert((first + second).drop_first() =~= first.drop_first() + second);
        lemma_run_concat(next, first.drop_first(), second);
        let (middle, before) = run(next, first.drop_first());
        let (last, after) = run(middle, second);
        assert(seq![action] + (before + after) =~= (seq![action] + before) + after);
    }
}

/// Running one event is taking one step.
pub proof fn lemma_run_single(runner: RunnerView, event: RunEventView)
    ensures
        run(runner, seq![event]) == (step(runner, event).0, seq![step(runner, event).1]),
{
    let events = seq![event];
    assert(events.drop_first().len() == 0);
    let (next, action) = step(runner, events[0]);
    assert(run(next, events.drop_first()) == (next, Seq::<RunActionView>::empty()));
    assert(seq![action] + Seq::<RunActionView>::empty() =~= seq![action]);
}

/// The lines that a child writes to its error output while it is watched,
/// reaped or gathered are handed on one by one in the order in which they
/// came, and kept in that order.
pub proof fn lemma_lines_keep_their_order(runner: RunnerView, texts: Seq<Seq<char>>)
    requires
        runner.phase == RunPhase::Running || runner.phase == RunPhase::Reaping || runner.phase
            == RunPhase::Collecting,
    ensures
        run(runner, lines(texts)) == (
            RunnerView { stderr: runner.stderr + joined(texts), ..runner },
            forwards(texts, under_way(runner.phase)),
        ),
    decreases texts.len(),
{
    if texts.len() == 0 {
        assert(runner.stderr + joined(texts) =~= runner.stderr);
        assert(forwards(texts, under_way(runner.phase)) =~= Seq::<RunActionView>::empty());
    } else {
        let (next, action) = step(runner, lines(texts)[0]);
        let rest = texts.drop_first();
        assert(lines(texts).drop_first() =~= lines(rest));
        lemma_lines_keep_their_order(next, rest);
        assert(next.stderr + joined(rest) =~= runner.stderr + joined(texts));
        assert(seq![action] + forwards(rest, under_way(runner.phase)) =~= forwards(
            texts,
            under_way(runner.phase),
        ));
    }
}

/// A run that is cancelled while the child runs has the child killed and
/// waited for, and ends as cancelled once that is done, whatever the child
/// wrote meanwhile.
pub proof fn lemma_cancelled_run_is_reaped(runner: RunnerView, during: Seq<Seq<char>>)
    requires
        runner.phase == RunPhase::Running,
    ensures
        run(runner, seq![RunEventView::Cancel] + lines(during) + seq![RunEventView::Reaped]) == (
            RunnerView { phase: RunPhase::Done, stderr: runner.stderr + joined(during), ..runner },
            seq![RunActionView::KillAndReap] + forwards(during, Resume::Reaping) + seq![
                RunActionView::Finish(Err(failure(ErrorKind::Cancelled, CANCELLED@))),
            ],
        ),
{
    let reaping = in_phase(runner, RunPhase::Reaping);
    lemma_run_single(runner, RunEventView::Cancel);
    lemma_lines_keep_their_order(reaping, during);
    lemma_run_concat(runner, seq![RunEventView::Cancel], lines(during));
    let heard = RunnerView { stderr: runner.stderr + joined(during), ..reaping };
    lemma_run_single(heard, RunEventView::Reaped);
    lemma_run_concat(
        runner,
        seq![RunEventView::Cancel] + lines(during),
        seq![RunEventView::Reaped],
    );
}

/// Once a run is cancelled, nothing that happens makes it end otherwise than
/// as cancelled: neither an exit of the child nor its output is taken for the
/// outcome.
pub proof fn lemma_cancelled_run_ends_cancelled(runner: RunnerView, events: Seq<RunEventView>)
    requires
        runner.phase == RunPhase::Reaping || runner.phase == RunPhase::Done,
    ensures
        forall|i: int|
            0 <= i < run(runner, events).1.len() ==> !ends_uncancelled(
                #[trigger] run(runner, events).1[i],
            ),
    decreases events.len(),
{
    if events.len() > 0 {
        let (next, action) = step(runner, events[0]);
        let (last, actions) = run(next, events.drop_first());
        lemma_cancelled_run_ends_cancelled(next, events.drop_first());
        assert forall|i: int| 0 <= i < run(runner, events).1.len() implies !ends_uncancelled(
            #[trigger] run(runner, events).1[i],
        ) by {
            if i > 0 {
                assert(run(runner, events).1[i] == actions[i - 1]);
            }
        }
    }
}

/// A run hands out one outcome: it is handed out exactly when the run comes
/// to be done, and a run that is done takes no event in.
pub proof fn lemma_one_outcome(runner: RunnerView, event: RunEventView)
    ensures
        runner.phase != RunPhase::Done ==> (step(runner, event).1 is Finish <==> step(
            runner,
            event,
        ).0.phase == RunPhase::Done),
        runner.phase == RunPhase::Done ==> step(runner, event) == (runner, RunActionView::Idle),
{
}

/// A cancellation that does not find the child running does nothing.
pub proof fn lemma_cancel_elsewhere_is_no_op(runner: RunnerView)
    requires
        runner.phase != RunPhase::Running,
    ensures
        step(runner, RunEventView::Cancel) == (runner, RunActionView::Idle),
{
}

/// A child that exits by itself has its output gathered. The run then ends
/// with the standard output, unchanged, where the child succeeded, and with a
/// failure that holds the standard output and every line of the error output
/// where it did not.
pub proof fn lemma_exit_decides(
    runner: RunnerView,
    texts: Seq<Seq<char>>,
    success: bool,
    stdout: Seq<char>,
)
    requires
        runner.phase == RunPhase::Running,
    ensures
        ({
            let (last, actions) = run(
                runner,
                lines(texts) + seq![
                    RunEventView::Exited { success },
                    RunEventView::Collected { stdout },
                ],
            );
            &&& last.phase == RunPhase::Done
            &&& actions == forwards(texts, Resume::Watching) + seq![
                RunActionView::Collect,
                RunActionView::Finish(
                    if success {
                        Ok(stdout)
                    } else {
                        Err(
                            failure(
                                ErrorKind::ProcessExit,
                                exit_detail(stdout, runner.stderr + joined(texts)),
                            ),
                        )
                    },
                ),
            ]
        }),
{
    let heard = RunnerView { stderr: runner.stderr + joined(texts), ..runner };
    let exited = RunEventView::Exited { success };
    let collected = RunEventView::Collected { stdout };
    lemma_lines_keep_their_order(runner, texts);
    lemma_run_single(heard, exited);
    lemma_run_single(step(heard, exited).0, collected);
    lemma_run_concat(heard, seq![exited], seq![collected]);
    assert(seq![exited] + seq![collected] =~= seq![exited, collected]);
    lemma_run_concat(runner, lines(texts), seq![exited, collected]);
    let (last, actions) = run(heard, seq![exited, collected]);
    assert(actions =~= seq![RunActionView::Collect, actions[1]]);
}

/// The run before anything was asked for.
pub open spec fn new_runner() -> RunnerView {
    RunnerView { phase: RunPhase::Created, succeeded: false, stderr: Seq::empty() }
}

impl Runner {
    /// A run that has not started.
    pub fn new() -> (runner: Runner)
        ensures
            runner@ == new_runner(),
    {
        Runner { phase: RunPhase::Created, succeeded: false, stderr: String::new() }
    }

    fn end(&mut self, error: EngineError) -> (action: RunAction)
        ensures
            (final(self)@, action@) == ended(old(self)@, error@),
    {
        self.phase = RunPhase::Done;
        RunAction::Finish(Err(error))
    }

    fn hear(&mut self, line: String) -> (action: RunAction)
        ensures
            (final(self)@, action@) == heard(old(self)@, line@),
    {
        self.stderr.append(line.as_str());
        self.stderr.append("\n");
        let resume = match self.phase {
            RunPhase::Reaping => Resume::Reaping,
            RunPhase::Collecting => Resume::Collecting,
            _ => Resume::Watching,
        };
        RunAction::Forward { line, resume }
    }

    /// Takes `event` in and says what is to be done next.
    pub fn on_event(&mut self, event: RunEvent) -> (action: RunAction)
        ensures
            (final(self)@, action@) == step(old(self)@, event@),
    {
        match self.phase {
            RunPhase::Created => match event {
                RunEvent::Start => {
                    self.phase = RunPhase::Spawning;
                    RunAction::Spawn
                },
                _ => RunAction::Idle,
            },
            RunPhase::Spawning => match event {
                RunEvent::SpawnFailed(cause) => self.end(
                    EngineError::caused(ErrorKind::Spawn, SPAWN_FAILED, cause.as_str()),
                ),
                RunEvent::StreamMissing(Stream::Stderr) => self.end(
                    EngineError::new(ErrorKind::Spawn, STDERR_MISSING),
                ),
                RunEvent::StreamMissing(Stream::Stdout) => self.end(
                    EngineError::new(ErrorKind::Spawn, STDOUT_MISSING),
                ),
                RunEvent::Spawned => {
                    self.phase = RunPhase::Running;
                    RunAction::Watch
                },
                _ => RunAction::Idle,
            },
            RunPhase::Running => match event {
                RunEvent::Line(line) => self.hear(line),
                RunEvent::Cancel => {
                    self.phase = RunPhase::Reaping;
                    RunAction::KillAndReap
                },
                RunEvent::Exited { success } => {
                    self.phase = RunPhase::Collecting;
                    self.succeeded = success;
                    RunAction::Collect
                },
                RunEvent::WaitFailed(cause) => self.end(
                    EngineError::caused(ErrorKind::Spawn, WAIT_FAILED, cause.as_str()),
                ),
                _ => RunAction::Idle,
            },
            RunPhase::Reaping => match event {
                RunEvent::Line(line) => self.hear(line),
                RunEvent::Reaped => self.end(EngineError::new(ErrorKind::Cancelled, CANCELLED)),
                _ => RunAction::Idle,
            },
            RunPhase::Collecting => match event {
                RunEvent::Line(line) => self.hear(line),
                RunEvent::Collected { stdout } => {
                    if self.succeeded {
                        self.phase = RunPhase::Done;
                        RunAction::Finish(Ok(stdout))
                    } else {
                        let mut detail = EXIT_FAILED.to_owned();
                        detail.append(stdout.as_str());
                        detail.append(EXIT_STDERR);
                        detail.append(self.stderr.as_str());
                        self.end(EngineError { kind: ErrorKind::ProcessExit, detail })
                    }
                },
                RunEvent::StdoutUnread(cause) => self.end(
                    EngineError::caused(ErrorKind::Transport, STDOUT_UNREAD, cause.as_str()),
                ),
                RunEvent::ReaderLost { stream: Stream::Stdout, cause } => self.end(
                    EngineError::caused(ErrorKind::Transport, READER_LOST, cause.as_str()),
                ),
                RunEvent::ReaderLost { stream: Stream::Stderr, cause } => self.end(
                    EngineError { kind: ErrorKind::Transport, detail: cause },
                ),
                _ => RunAction::Idle,
            },
            RunPhase::Done => RunAction::Idle,
        }
    }
}

} // verus!
