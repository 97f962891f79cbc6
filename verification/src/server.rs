//! The supervisor of the one engine process: starting it when it does not
//! answer, stopping it when it does, and waiting with a bound for either.

use crate::error::{failure, EngineError, EngineErrorView, ErrorKind};
use vstd::prelude::*;

verus! {

/// Port of the engine's control interface.
pub const RC_PORT: u16 = 5572;

/// Address on which the engine is told to listen.
pub const RC_ADDRESS: &'static str = "localhost:5572";

/// Base of the engine's control interface.
pub const RC_URL: &'static str = "http://localhost:5572";

/// Time after which a liveness check takes the engine not to answer, in
/// milliseconds: short, so that an engine that hangs does not hold up the
/// supervisor.
pub const LIVENESS_TIMEOUT_MS: u64 = 2000;

/// Number of liveness checks after which a wait gives up.
pub const LIVENESS_POLLS: u32 = 20;

/// Time between two liveness checks of a wait, in milliseconds.
pub const LIVENESS_INTERVAL_MS: u64 = 500;

/// What is put before the cause where the engine could not be spawned.
pub const SPAWN_FAILED: &'static str = "Failed to spawn rclone rcd: ";

/// What is put before the cause where the request to quit failed.
pub const QUIT_FAILED: &'static str = "Failed to stop rclone: ";

/// Detail of the failure where the engine did not come to answer in time.
pub const START_TIMED_OUT: &'static str = "Timed out waiting for rclone rc server";

/// Detail of the failure where the engine did not cease to answer in time.
pub const STOP_TIMED_OUT: &'static str = "Timed out waiting for rclone rc server to stop";

/// What is known of the engine process.
#[derive(Clone, Copy, Debug, PartialEq, Eq, Structural)]
pub enum EngineState {
    NotStarted,
    /// Spawned, not yet seen to answer.
    Starting,
    /// Seen to answer.
    Running,
    /// Asked to quit, not yet seen to be gone.
    Stopping,
    /// Seen not to answer when asked to stop, or after it was asked to quit.
    Stopped,
}

/// What the supervisor is in the middle of.
#[derive(Clone, Copy, Debug, PartialEq, Eq, Structural)]
pub enum Task {
    /// Nothing: a request can be taken.
    Idle,
    /// Asked to make the engine reachable: checking whether it is.
    Probing,
    /// The engine is being spawned.
    Spawning,
    /// Waiting for the engine to answer: a check is under way.
    AwaitingUp,
    /// Waiting for the engine to answer: between two checks.
    PausingUp,
    /// Asked to stop the engine: checking whether it answers.
    ProbingForStop,
    /// The engine is being asked to quit.
    Quitting,
    /// Waiting for the engine to be gone: a check is under way.
    AwaitingDown,
    /// Waiting for the engine to be gone: between two checks.
    PausingDown,
}

/// The supervisor of the one engine process.
#[derive(Clone, Copy, Debug, PartialEq, Eq, Structural)]
pub struct Supervisor {
    pub state: EngineState,
    pub task: Task,
    /// Number of checks of the wait under way that found the engine not yet
    /// as waited for, and were followed by a pause.
    pub polls: u32,
}

/// A request to the supervisor, or what happened outside.
#[derive(Debug, PartialEq, Eq)]
pub enum SupervisorEvent {
    /// A caller wants the engine reachable.
    EnsureRunning,
    /// A caller wants the engine stopped.
    Stop,
    /// A liveness check ended: whether the engine answered.
    Alive(bool),
    /// The engine was spawned.
    Spawned,
    /// The engine could not be prepared for. Holds the detail.
    StartRefused(String),
    /// The engine could not be spawned. Holds the cause.
    SpawnFailed(String),
    /// The engine took the request to quit.
    QuitAccepted,
    /// The request to quit failed. Holds the cause.
    QuitFailed(String),
    /// The time between two liveness checks has passed.
    Waited,
}

/// What the caller is to do next for the supervisor.
#[derive(Debug, PartialEq, Eq)]
pub enum SupervisorAction {
    /// Check whether the engine answers, and take it not to answer where it
    /// has not done so within the time given.
    CheckLiveness { timeout_millis: u64 },
    /// Clear the log of the last run and spawn the engine.
    StartEngine,
    /// Let time pass.
    Wait { millis: u64 },
    /// Ask the engine to quit.
    RequestQuit,
    /// The engine is reachable: the request is served.
    Ready,
    /// The engine is gone: the request is served.
    Stopped,
    /// The request failed.
    Fail(EngineError),
    /// Another request is being served: ask again when it is done.
    Busy,
    /// The event was none that the supervisor awaited: nothing to do.
    Idle,
}

/// Mathematical value of a `SupervisorEvent`.
pub ghost enum SupervisorEventView {
    EnsureRunning,
    Stop,
    Alive(bool),
    Spawned,
    StartRefused(Seq<char>),
    SpawnFailed(Seq<char>),
    QuitAccepted,
    QuitFailed(Seq<char>),
    Waited,
}

/// Mathematical value of a `SupervisorAction`.
pub ghost enum SupervisorActionView {
    CheckLiveness { timeout_millis: u64 },
    StartEngine,
    Wait { millis: u64 },
    RequestQuit,
    Ready,
    Stopped,
    Fail(EngineErrorView),
    Busy,
    Idle,
}

impl View for SupervisorEvent {
    type V = SupervisorEventView;

    open spec fn view(&self) -> SupervisorEventView {
        match self {
            SupervisorEvent::EnsureRunning => SupervisorEventView::EnsureRunning,
            SupervisorEvent::Stop => SupervisorEventView::Stop,
            SupervisorEvent::Alive(alive) => SupervisorEventView::Alive(*alive),
            SupervisorEvent::Spawned => SupervisorEventView::Spawned,
            SupervisorEvent::StartRefused(detail) => SupervisorEventView::StartRefused(detail@),
            SupervisorEvent::SpawnFailed(cause) => SupervisorEventView::SpawnFailed(cause@),
            SupervisorEvent::QuitAccepted => SupervisorEventView::QuitAccepted,
            SupervisorEvent::QuitFailed(cause) => SupervisorEventView::QuitFailed(cause@),
            SupervisorEvent::Waited => SupervisorEventView::Waited,
        }
    }
}

impl View for SupervisorAction {
    type V = SupervisorActionView;

    open spec fn view(&self) -> SupervisorActionView {
        match self {
            SupervisorAction::CheckLiveness {
                timeout_millis,
            } => SupervisorActionView::CheckLiveness { timeout_millis: *timeout_millis },
            SupervisorAction::StartEngine => SupervisorActionView::StartEngine,
            SupervisorAction::Wait { millis } => SupervisorActionView::Wait { millis: *millis },
            SupervisorAction::RequestQuit => SupervisorActionView::RequestQuit,
            SupervisorAction::Ready => SupervisorActionView::Ready,
            SupervisorAction::Stopped => SupervisorActionView::Stopped,
            SupervisorAction::Fail(e) => SupervisorActionView::Fail(e@),
            SupervisorAction::Busy => SupervisorActionView::Busy,
            SupervisorAction::Idle => SupervisorActionView::Idle,
        }
    }
}

/// The arguments with which the engine is spawned: control mode without
/// authentication on the fixed address, with its log in `log_file`.
pub open spec fn engine_arguments_text(log_file: Seq<char>) -> Seq<Seq<char>> {
    seq![
        "rcd"@,
        "--rc-no-auth"@,
        "--rc-addr="@ + RC_ADDRESS@,
        "--log-file"@,
        log_file,
        "--log-level"@,
        "INFO"@,
    ]
}

/// The request to check whether the engine answers, within the fixed time.
pub open spec fn liveness_check() -> SupervisorActionView {
    SupervisorActionView::CheckLiveness { timeout_millis: LIVENESS_TIMEOUT_MS }
}

/// The supervisor at rest, with the engine in state `state`.
pub open spec fn at_rest(state: EngineState) -> Supervisor {
    Supervisor { state, task: Task::Idle, polls: 0 }
}

/// The supervisor in the middle of `task`, otherwise as it was.
pub open spec fn doing(sup: Supervisor, task: Task) -> Supervisor {
    Supervisor { task, ..sup }
}

/// The request under way has failed with `error`; the engine is in state
/// `state`.
pub open spec fn gave_up(state: EngineState, error: EngineErrorView) -> (
    Supervisor,
    SupervisorActionView,
) {
    (at_rest(state), SupervisorActionView::Fail(error))
}

/// A check of the wait under way found the engine not yet as waited for, and
/// the pause after it has passed: the wait gives up with `detail` where this
/// was the last check, and checks again otherwise.
pub open spec fn next_poll(sup: Supervisor, check: Task, detail: Seq<char>) -> (
    Supervisor,
    SupervisorActionView,
) {
    if sup.polls >= LIVENESS_POLLS - 1 {
        gave_up(sup.state, failure(ErrorKind::Timeout, detail))
    } else {
        (
            Supervisor { task: check, polls: (sup.polls + 1) as u32, ..sup },
            liveness_check(),
        )
    }
}

/// What the supervisor becomes on `event`, and what is to be done next.
///
/// Asked to make the engine reachable, the supervisor checks whether it
/// answers. If it does, nothing more is done. If not, the engine is spawned,
/// and its liveness checked at a fixed interval until it answers or the
/// checks run out, which is a failure. Asked to stop the engine, the
/// supervisor checks whether it answers. If not, nothing more is done. If it
/// does, it is asked to quit, and its liveness checked in the same way until
/// it no longer answers. A request that comes while another is served is
/// turned away. An event that the task does not await changes nothing.
pub open spec fn step(sup: Supervisor, event: SupervisorEventView) -> (
    Supervisor,
    SupervisorActionView,
) {
    match (sup.task, event) {
        (Task::Idle, SupervisorEventView::EnsureRunning) => (
            Supervisor { task: Task::Probing, polls: 0, ..sup },
            liveness_check(),
        ),
        (Task::Idle, SupervisorEventView::Stop) => (
            Supervisor { task: Task::ProbingForStop, polls: 0, ..sup },
            liveness_check(),
        ),
        (_, SupervisorEventView::EnsureRunning) => (sup, SupervisorActionView::Busy),
        (_, SupervisorEventView::Stop) => (sup, SupervisorActionView::Busy),
        (Task::Probing, SupervisorEventView::Alive(true)) => (
            at_rest(EngineState::Running),
            SupervisorActionView::Ready,
        ),
        (Task::Probing, SupervisorEventView::Alive(false)) => (
            Supervisor { state: EngineState::NotStarted, task: Task::Spawning, polls: 0 },
            SupervisorActionView::StartEngine,
        ),
        (Task::Spawning, SupervisorEventView::Spawned) => (
            Supervisor { state: EngineState::Starting, task: Task::AwaitingUp, polls: 0 },
            liveness_check(),
        ),
        (Task::Spawning, SupervisorEventView::StartRefused(detail)) => gave_up(
            EngineState::NotStarted,
            failure(ErrorKind::Spawn, detail),
        ),
        (Task::Spawning, SupervisorEventView::SpawnFailed(cause)) => gave_up(
            EngineState::NotStarted,
            failure(ErrorKind::Spawn, SPAWN_FAILED@ + cause),
        ),
        (Task::AwaitingUp, SupervisorEventView::Alive(true)) => (
            at_rest(EngineState::Running),
            SupervisorActionView::Ready,
        ),
        (Task::AwaitingUp, SupervisorEventView::Alive(false)) => (
            doing(sup, Task::PausingUp),
            SupervisorActionView::Wait { millis: LIVENESS_INTERVAL_MS },
        ),
        (Task::PausingUp, SupervisorEventView::Waited) => next_poll(
            sup,
            Task::AwaitingUp,
            START_TIMED_OUT@,
        ),
        (Task::ProbingForStop, SupervisorEventView::Alive(false)) => (
            at_rest(EngineState::Stopped),
            SupervisorActionView::Stopped,
        ),
        (Task::ProbingForStop, SupervisorEventView::Alive(true)) => (
            Supervisor { state: EngineState::Running, task: Task::Quitting, polls: 0 },
            SupervisorActionView::RequestQuit,
        ),
        (Task::Quitting, SupervisorEventView::QuitAccepted) => (
            Supervisor { state: EngineState::Stopping, task: Task::AwaitingDown, polls: 0 },
            liveness_check(),
        ),
        (Task::Quitting, SupervisorEventView::QuitFailed(cause)) => gave_up(
            sup.state,
            failure(ErrorKind::Transport, QUIT_FAILED@ + cause),
        ),
        (Task::AwaitingDown, SupervisorEventView::Alive(false)) => (
            at_rest(EngineState::Stopped),
            SupervisorActionView::Stopped,
        ),
        (Task::AwaitingDown, SupervisorEventView::Alive(true)) => (
            doing(sup, Task::PausingDown),
            SupervisorActionView::Wait { millis: LIVENESS_INTERVAL_MS },
        ),
        (Task::PausingDown, SupervisorEventView::Waited) => next_poll(
            sup,
            Task::AwaitingDown,
            STOP_TIMED_OUT@,
        ),
        _ => (sup, SupervisorActionView::Idle),
    }
}

/// The supervisor after `events`, one after the other, and what was to be
/// done on each.
pub open spec fn run(sup: Supervisor, events: Seq<SupervisorEventView>) -> (
    Supervisor,
    Seq<SupervisorActionView>,
)
    decreases events.len(),
{
    if events.len() == 0 {
        (sup, seq![])
    } else {
        let (next, action) = step(sup, events[0]);
        let (last, actions) = run(next, events.drop_first());
        (last, seq![action] + actions)
    }
}

/// How often `actions` has the engine spawned.
pub open spec fn starts(actions: Seq<SupervisorActionView>) -> nat
    decreases actions.len(),
{
    if actions.len() == 0 {
        0
    } else if actions[0] == SupervisorActionView::StartEngine {
        1 + starts(actions.drop_first())
    } else {
        starts(actions.drop_first())
    }
}

/// How often `actions` has the engine asked to quit.
pub open spec fn quits(actions: Seq<SupervisorActionView>) -> nat
    decreases actions.len(),
{
    if actions.len() == 0 {
        0
    } else if actions[0] == SupervisorActionView::RequestQuit {
        1 + quits(actions.drop_first())
    } else {
        quits(actions.drop_first())
    }
}

/// How many of `events` are requests of kind `request` that the supervisor
/// takes up, because they find it at rest.
pub open spec fn taken_up(
    sup: Supervisor,
    events: Seq<SupervisorEventView>,
    request: SupervisorEventView,
) -> nat
    decreases events.len(),
{
    if events.len() == 0 {
        0
    } else {
        let later = taken_up(step(sup, events[0]).0, events.drop_first(), request);
        if sup.task == Task::Idle && events[0] == request {
            1 + later
        } else {
            later
        }
    }
}

/// `rounds` times: a liveness check with the outcome `alive`, and the pause
/// after it.
pub open spec fn checks(alive: bool, rounds: nat) -> Seq<SupervisorEventView>
    decreases rounds,
{
    if rounds == 0 {
        seq![]
    } else {
        seq![SupervisorEventView::Alive(alive), SupervisorEventView::Waited] + checks(
            alive,
            (rounds - 1) as nat,
        )
    }
}

/// Running events one stretch after another is running them all.
pub proof fn lemma_run_concat(
    sup: Supervisor,
    first: Seq<SupervisorEventView>,
    second: Seq<SupervisorEventView>,
)
    ensures
        run(sup, first + second) == ({
            let (middle, before) = run(sup, first);
            let (last, after) = run(middle, second);
            (last, before + after)
        }),
    decreases first.len(),
{
    if first.len() == 0 {
        assert(first + second =~= second);
        let (last, after) = run(sup, second);
        assert(Seq::<SupervisorActionView>::empty() + after =~= after);
    } else {
        let (next, action) = step(sup, first[0]);
        assert((first + second).drop_first() =~= first.drop_first() + second);
        lemma_run_concat(next, first.drop_first(), second);
        let (middle, before) = run(next, first.drop_first());
        let (last, after) = run(middle, second);
        assert(seq![action] + (before + after) =~= (seq![action] + before) + after);
    }
}

/// Running two events is taking two steps.
pub proof fn lemma_run_pair(
    sup: Supervisor,
    first: SupervisorEventView,
    second: SupervisorEventView,
)
    ensures
        run(sup, seq![first, second]) == ({
            let (middle, a) = step(sup, first);
            let (last, b) = step(middle, second);
            (last, seq![a, b])
        }),
{
    let events = seq![first, second];
    let (middle, a) = step(sup, first);
    let (last, b) = step(middle, second);
    let rest = events.drop_first();
    assert(rest[0] == second);
    assert(rest.drop_first().len() == 0);
    assert(run(last, rest.drop_first()) == (last, Seq::<SupervisorActionView>::empty()));
    assert(run(middle, rest) == (last, seq![b] + Seq::<SupervisorActionView>::empty()));
    assert(seq![a] + (seq![b] + Seq::<SupervisorActionView>::empty()) =~= seq![a, b]);
}

/// What holds of the supervisor at every time: the state of the engine goes
/// with what the supervisor is doing, and the checks of a wait are counted
/// and fewer than the bound.
pub open spec fn well_formed(sup: Supervisor) -> bool {
    match sup.task {
        Task::Idle | Task::Probing | Task::ProbingForStop => sup.polls == 0,
        Task::Spawning => sup.polls == 0 && sup.state == EngineState::NotStarted,
        Task::Quitting => sup.polls == 0 && sup.state == EngineState::Running,
        Task::AwaitingUp | Task::PausingUp => sup.polls < LIVENESS_POLLS && sup.state
            == EngineState::Starting,
        Task::AwaitingDown | Task::PausingDown => sup.polls < LIVENESS_POLLS && sup.state
            == EngineState::Stopping,
    }
}

/// A supervisor at rest is well formed, and whatever events come it stays so.
pub proof fn lemma_supervisor_stays_well_formed(sup: Supervisor, event: SupervisorEventView)
    requires
        well_formed(sup),
    ensures
        well_formed(step(sup, event).0),
        forall|state: EngineState| well_formed(#[trigger] at_rest(state)),
{
}

/// A request is served in the end by one answer: that the engine is
/// reachable, that it is gone, or a failure. With that answer the supervisor
/// is at rest again, and only then.
pub proof fn lemma_answers_end_the_request(sup: Supervisor, event: SupervisorEventView)
    requires
        sup.task != Task::Idle,
    ensures
        ({
            let (next, action) = step(sup, event);
            (action is Ready || action is Stopped || action is Fail) <==> next.task == Task::Idle
        }),
{
}

/// No liveness check is asked for without the fixed time after which the
/// engine is taken not to answer.
pub proof fn lemma_checks_are_timed(sup: Supervisor, event: SupervisorEventView)
    ensures
        step(sup, event).1 is CheckLiveness ==> step(sup, event).1 == liveness_check(),
{
}

/// An engine that answers is not spawned: asked to make it reachable, the
/// supervisor checks its liveness and is done.
pub proof fn lemma_live_engine_is_not_spawned(sup: Supervisor)
    requires
        sup.task == Task::Idle,
    ensures
        run(sup, seq![SupervisorEventView::EnsureRunning, SupervisorEventView::Alive(true)]) == (
            at_rest(EngineState::Running),
            seq![liveness_check(), SupervisorActionView::Ready],
        ),
{
    lemma_run_pair(sup, SupervisorEventView::EnsureRunning, SupervisorEventView::Alive(true));
}

/// An engine that does not answer is not asked to quit: asked to stop it, the
/// supervisor checks its liveness and is done, without a failure.
pub proof fn lemma_stop_of_stopped_engine_is_no_op(sup: Supervisor)
    requires
        sup.task == Task::Idle,
    ensures
        run(sup, seq![SupervisorEventView::Stop, SupervisorEventView::Alive(false)]) == (
            at_rest(EngineState::Stopped),
            seq![liveness_check(), SupervisorActionView::Stopped],
        ),
{
    lemma_run_pair(sup, SupervisorEventView::Stop, SupervisorEventView::Alive(false));
}

/// A request that comes while another is served is turned away and changes
/// nothing.
pub proof fn lemma_requests_are_serialized(sup: Supervisor)
    requires
        sup.task != Task::Idle,
    ensures
        step(sup, SupervisorEventView::EnsureRunning) == (sup, SupervisorActionView::Busy),
        step(sup, SupervisorEventView::Stop) == (sup, SupervisorActionView::Busy),
{
}

/// Whatever happens, the engine is spawned at most once for each request to
/// make it reachable that the supervisor takes up, and asked to quit at most
/// once for each request to stop it that the supervisor takes up.
pub proof fn lemma_once_per_request(sup: Supervisor, events: Seq<SupervisorEventView>)
    ensures
        starts(run(sup, events).1) <= taken_up(sup, events, SupervisorEventView::EnsureRunning) + (
        if sup.task == Task::Probing {
            1nat
        } else {
            0nat
        }),
        quits(run(sup, events).1) <= taken_up(sup, events, SupervisorEventView::Stop) + (
        if sup.task == Task::ProbingForStop {
            1nat
        } else {
            0nat
        }),
    decreases events.len(),
{
    if events.len() > 0 {
        let (next, action) = step(sup, events[0]);
        let (last, actions) = run(next, events.drop_first());
        lemma_once_per_request(next, events.drop_first());
        assert((seq![action] + actions).drop_first() =~= actions);
    }
}

/// While the checks of a wait find the engine not yet as waited for, and
/// fewer of them than the bound have been made, the wait goes on: it has not
/// ended, well or otherwise.
pub proof fn lemma_wait_goes_on(sup: Supervisor, up: bool, rounds: nat)
    requires
        sup.task == (if up {
            Task::AwaitingUp
        } else {
            Task::AwaitingDown
        }),
        sup.polls + rounds < LIVENESS_POLLS,
    ensures
        run(sup, checks(!up, rounds)).0 == (Supervisor {
            polls: (sup.polls + rounds) as u32,
            ..sup
        }),
    decreases rounds,
{
    if rounds > 0 {
        let round = seq![SupervisorEventView::Alive(!up), SupervisorEventView::Waited];
        lemma_run_pair(sup, SupervisorEventView::Alive(!up), SupervisorEventView::Waited);
        let next = run(sup, round).0;
        lemma_wait_goes_on(next, up, (rounds - 1) as nat);
        lemma_run_concat(sup, round, checks(!up, (rounds - 1) as nat));
    }
}

/// A wait whose checks all find the engine not yet as waited for ends after
/// as many checks as the bound allows, and it ends in a timeout, never in
/// success.
pub proof fn lemma_wait_times_out(sup: Supervisor, up: bool)
    requires
        sup.task == (if up {
            Task::AwaitingUp
        } else {
            Task::AwaitingDown
        }),
        sup.polls == 0,
    ensures
        ({
            let (last, actions) = run(sup, checks(!up, LIVENESS_POLLS as nat));
            &&& last == at_rest(sup.state)
            &&& actions.len() == 2 * LIVENESS_POLLS
            &&& actions.last() == SupervisorActionView::Fail(
                failure(
                    ErrorKind::Timeout,
                    if up {
                        START_TIMED_OUT@
                    } else {
                        STOP_TIMED_OUT@
                    },
                ),
            )
        }),
{
    let before = (LIVENESS_POLLS - 1) as nat;
    let round = seq![SupervisorEventView::Alive(!up), SupervisorEventView::Waited];
    lemma_wait_goes_on(sup, up, before);
    lemma_checks_split(!up, before);
    lemma_run_concat(sup, checks(!up, before), round);
    let middle = run(sup, checks(!up, before)).0;
    lemma_run_pair(middle, SupervisorEventView::Alive(!up), SupervisorEventView::Waited);
    lemma_run_len(sup, checks(!up, before));
    lemma_checks_len(!up, before);
}

/// One more round of checks can be counted at the end as well as at the
/// start.
pub proof fn lemma_checks_split(alive: bool, rounds: nat)
    ensures
        checks(alive, rounds + 1) == checks(alive, rounds) + seq![
            SupervisorEventView::Alive(alive),
            SupervisorEventView::Waited,
        ],
    decreases rounds,
{
    let round = seq![SupervisorEventView::Alive(alive), SupervisorEventView::Waited];
    if rounds == 0 {
        assert(checks(alive, 1) =~= round + checks(alive, 0));
        assert(round + Seq::<SupervisorEventView>::empty() =~= Seq::<SupervisorEventView>::empty()
            + round);
    } else {
        lemma_checks_split(alive, (rounds - 1) as nat);
        assert(round + (checks(alive, (rounds - 1) as nat) + round) =~= (round + checks(
            alive,
            (rounds - 1) as nat,
        )) + round);
    }
}

/// `rounds` rounds of checks are twice as many events.
pub proof fn lemma_checks_len(alive: bool, rounds: nat)
    ensures
        checks(alive, rounds).len() == 2 * rounds,
    decreases rounds,
{
    if rounds > 0 {
        lemma_checks_len(alive, (rounds - 1) as nat);
    }
}

/// Each event is answered by one action.
pub proof fn lemma_run_len(sup: Supervisor, events: Seq<SupervisorEventView>)
    ensures
        run(sup, events).1.len() == events.len(),
    decreases events.len(),
{
    if events.len() > 0 {
        lemma_run_len(step(sup, events[0]).0, events.drop_first());
    }
}

/// Writes the arguments with which the engine is spawned.
pub fn engine_arguments(log_file: &str) -> (arguments: Vec<String>)
    ensures
        arguments.deep_view() == engine_arguments_text(log_file@),
{
    let mut address = "--rc-addr=".to_owned();
    address.append(RC_ADDRESS);
    let mut arguments: Vec<String> = Vec::new();
    arguments.push("rcd".to_owned());
    arguments.push("--rc-no-auth".to_owned());
    arguments.push(address);
    arguments.push("--log-file".to_owned());
    arguments.push(log_file.to_owned());
    arguments.push("--log-level".to_owned());
    arguments.push("INFO".to_owned());
    assert(arguments.deep_view() =~= engine_arguments_text(log_file@));
    arguments
}

impl Supervisor {
    /// The supervisor before the engine was looked at.
    pub fn new() -> (sup: Supervisor)
        ensures
            sup == at_rest(EngineState::NotStarted),
    {
        Supervisor { state: EngineState::NotStarted, task: Task::Idle, polls: 0 }
    }

    fn give_up(&mut self, state: EngineState, error: EngineError) -> (action: SupervisorAction)
        ensures
            (*final(self), action@) == gave_up(state, error@),
    {
        self.state = state;
        self.task = Task::Idle;
        self.polls = 0;
        SupervisorAction::Fail(error)
    }

    fn settle(&mut self, state: EngineState)
        ensures
            *final(self) == at_rest(state),
    {
        self.state = state;
        self.task = Task::Idle;
        self.polls = 0;
    }

    fn poll_again(&mut self, check: Task, detail: &str) -> (action: SupervisorAction)
        ensures
            (*final(self), action@) == next_poll(*old(self), check, detail@),
    {
        if self.polls >= LIVENESS_POLLS - 1 {
            let state = self.state;
            self.give_up(state, EngineError::new(ErrorKind::Timeout, detail))
        } else {
            self.task = check;
            self.polls = self.polls + 1;
            SupervisorAction::CheckLiveness { timeout_millis: LIVENESS_TIMEOUT_MS }
        }
    }

    /// Takes up a request to make the engine reachable.
    pub fn ensure_running(&mut self) -> (action: SupervisorAction)
        ensures
            (*final(self), action@) == step(*old(self), SupervisorEventView::EnsureRunning),
    {
        self.on_event(SupervisorEvent::EnsureRunning)
    }

    /// Takes up a request to stop the engine.
    pub fn stop(&mut self) -> (action: SupervisorAction)
        ensures
            (*final(self), action@) == step(*old(self), SupervisorEventView::Stop),
    {
        self.on_event(SupervisorEvent::Stop)
    }

    /// Takes `event` in and says what is to be done next.
    pub fn on_event(&mut self, event: SupervisorEvent) -> (action: SupervisorAction)
        ensures
            (*final(self), action@) == step(*old(self), event@),
    {
        match event {
            SupervisorEvent::EnsureRunning => match self.task {
                Task::Idle => {
                    self.task = Task::Probing;
                    self.polls = 0;
                    SupervisorAction::CheckLiveness { timeout_millis: LIVENESS_TIMEOUT_MS }
                },
                _ => SupervisorAction::Busy,
            },
            SupervisorEvent::Stop => match self.task {
                Task::Idle => {
                    self.task = Task::ProbingForStop;
                    self.polls = 0;
                    SupervisorAction::CheckLiveness { timeout_millis: LIVENESS_TIMEOUT_MS }
                },
                _ => SupervisorAction::Busy,
            },
            SupervisorEvent::Alive(alive) => match self.task {
                Task::Probing => {
                    if alive {
                        self.settle(EngineState::Running);
                        SupervisorAction::Ready
                    } else {
                        self.state = EngineState::NotStarted;
                        self.task = Task::Spawning;
                        self.polls = 0;
                        SupervisorAction::StartEngine
                    }
                },
                Task::AwaitingUp => {
                    if alive {
                        self.settle(EngineState::Running);
                        SupervisorAction::Ready
                    } else {
                        self.task = Task::PausingUp;
                        SupervisorAction::Wait { millis: LIVENESS_INTERVAL_MS }
                    }
                },
                Task::ProbingForStop => {
                    if alive {
                        self.state = EngineState::Running;
                        self.task = Task::Quitting;
                        self.polls = 0;
                        SupervisorAction::RequestQuit
                    } else {
                        self.settle(EngineState::Stopped);
                        SupervisorAction::Stopped
                    }
                },
                Task::AwaitingDown => {
                    if alive {
                        self.task = Task::PausingDown;
                        SupervisorAction::Wait { millis: LIVENESS_INTERVAL_MS }
                    } else {
                        self.settle(EngineState::Stopped);
                        SupervisorAction::Stopped
                    }
                },
                _ => SupervisorAction::Idle,
            },
            SupervisorEvent::Spawned => match self.task {
                Task::Spawning => {
                    self.state = EngineState::Starting;
                    self.task = Task::AwaitingUp;
                    self.polls = 0;
                    SupervisorAction::CheckLiveness { timeout_millis: LIVENESS_TIMEOUT_MS }
                },
                _ => SupervisorAction::Idle,
            },
            SupervisorEvent::StartRefused(detail) => match self.task {
                Task::Spawning => self.give_up(
                    EngineState::NotStarted,
                    EngineError { kind: ErrorKind::Spawn, detail },
                ),
                _ => SupervisorAction::Idle,
            },
            SupervisorEvent::SpawnFailed(cause) => match self.task {
                Task::Spawning => self.give_up(
                    EngineState::NotStarted,
                    EngineError::caused(ErrorKind::Spawn, SPAWN_FAILED, cause.as_str()),
                ),
                _ => SupervisorAction::Idle,
            },
            SupervisorEvent::QuitAccepted => match self.task {
                Task::Quitting => {
                    self.state = EngineState::Stopping;
                    self.task = Task::AwaitingDown;
                    self.polls = 0;
                    SupervisorAction::CheckLiveness { timeout_millis: LIVENESS_TIMEOUT_MS }
                },
                _ => SupervisorAction::Idle,
            },
            SupervisorEvent::QuitFailed(cause) => match self.task {
                Task::Quitting => {
                    let state = self.state;
                    self.give_up(
                        state,
                        EngineError::caused(ErrorKind::Transport, QUIT_FAILED, cause.as_str()),
                    )
                },
                _ => SupervisorAction::Idle,
            },
            SupervisorEvent::Waited => match self.task {
                Task::PausingUp => self.poll_again(Task::AwaitingUp, START_TIMED_OUT),
                Task::PausingDown => self.poll_again(Task::AwaitingDown, STOP_TIMED_OUT),
                _ => SupervisorAction::Idle,
            },
        }
    }
}

} // verus!
