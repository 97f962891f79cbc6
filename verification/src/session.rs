//! The setting up of a remote by an authorization, and the slot through which
//! the authorization under way is cancelled.

use crate::auth::{
    auth_url, authorize_arguments, authorize_arguments_text, extract_auth_url, remote_parameters,
    remote_parameters_text, TOKEN_MISSING,
};
use crate::error::{failure, EngineError, EngineErrorView, ErrorKind};
use crate::install::BINARY_MISSING;
use crate::remotes::{DRIVE_TYPE, REMOTE_REJECTED};
use vstd::prelude::*;

verus! {

/// Name of the remote that an authorization sets up.
pub const DEFAULT_REMOTE: &'static str = "gdrive_unofficial_neuro_kar";

/// The slot for the cancel token of the authorization that is under way.
///
/// A token is a number that stands for the one-time notification by which
/// the authorization subprocess is cancelled.
#[derive(Clone, Copy, Debug, PartialEq, Eq, Structural)]
pub struct GdriveAuthState {
    /// The token of the authorization under way, until it is taken or
    /// cleared.
    pub pending: Option<u64>,
    /// The token that was issued last; 0 before the first.
    pub issued: u64,
}

/// The token that is issued after `issued`.
pub open spec fn next_token(issued: u64) -> u64 {
    if issued < u64::MAX {
        (issued + 1) as u64
    } else {
        0
    }
}

/// Detail of the failure of a start that finds an authorization under way.
pub const ALREADY_PENDING: &'static str = "Authorization already in progress";

/// The empty slot after an authorization has begun: it holds a token that was
/// not issued before.
pub open spec fn begun(slot: GdriveAuthState) -> GdriveAuthState {
    GdriveAuthState { pending: Some(next_token(slot.issued)), issued: next_token(slot.issued) }
}

/// The slot with nothing in it.
pub open spec fn emptied(slot: GdriveAuthState) -> GdriveAuthState {
    GdriveAuthState { pending: None, issued: slot.issued }
}

impl GdriveAuthState {
    /// A slot with nothing in it.
    pub fn new() -> (slot: GdriveAuthState)
        ensures
            slot == (GdriveAuthState { pending: None, issued: 0 }),
    {
        GdriveAuthState { pending: None, issued: 0 }
    }

    /// Begins an authorization, where none is under way: issues a token, puts
    /// it into the slot and returns it. Where the slot holds a token, that
    /// token stays, nothing is issued, and `None` is returned.
    pub fn begin(&mut self) -> (token: Option<u64>)
        ensures
            old(self).pending is None ==> token == Some(next_token(old(self).issued))
                && *final(self) == begun(*old(self)),
            old(self).pending is Some ==> token is None && *final(self) == *old(self),
    {
        if self.pending.is_some() {
            return None;
        }
        let token = if self.issued < u64::MAX {
            self.issued + 1
        } else {
            0
        };
        self.pending = Some(token);
        self.issued = token;
        Some(token)
    }

    /// Takes the token out of the slot, for the caller to signal it. Returns
    /// `None`, and changes nothing, where the slot holds none.
    pub fn cancel(&mut self) -> (token: Option<u64>)
        ensures
            token == old(self).pending,
            *final(self) == emptied(*old(self)),
    {
        let token = self.pending;
        self.pending = None;
        token
    }

    /// Empties the slot when the authorization has ended, however it ended.
    pub fn clear(&mut self)
        ensures
            *final(self) == emptied(*old(self)),
    {
        self.pending = None;
    }
}

impl Default for GdriveAuthState {
    fn default() -> (slot: GdriveAuthState)
        ensures
            slot == (GdriveAuthState { pending: None, issued: 0 }),
    {
        GdriveAuthState::new()
    }
}

/// A token is handed out for signalling at most once: after it was taken, or
/// after the slot was cleared, nothing is left to take. A token that was put
/// into the empty slot is the one that is taken.
pub proof fn lemma_token_is_taken_once(slot: GdriveAuthState)
    ensures
        emptied(slot).pending is None,
        emptied(emptied(slot)) == emptied(slot),
        begun(slot).pending == Some(next_token(slot.issued)),
        emptied(begun(slot)).pending is None,
{
}

/// Where the setting up of a remote stands.
#[derive(Clone, Copy, Debug, PartialEq, Eq, Structural)]
pub enum SetupPhase {
    /// Nothing was asked for yet.
    Created,
    /// The engine binary is looked for.
    LocatingBinary,
    /// The authorization subprocess runs.
    Authorizing,
    /// The supervisor was asked to make the engine reachable.
    AwaitingEngine,
    /// The engine was asked to create the remote.
    CreatingRemote,
    /// The setting up has ended and its outcome was handed out.
    Done,
}

/// The setting up of the default remote by an authorization that the user can
/// cancel.
#[derive(Debug, PartialEq, Eq)]
pub struct RemoteSetup {
    pub phase: SetupPhase,
    /// The parameters of the remote, once the authorization has given them.
    pub parameters: String,
}

/// What happened outside, for the setting up to react to.
#[derive(Debug, PartialEq, Eq)]
pub enum SetupEvent {
    /// The caller asks for the remote.
    Start,
    /// The search for the engine binary ended; holds its path if found.
    BinaryLocated(Option<String>),
    /// The authorization subprocess wrote a line to its error output.
    Line(String),
    /// The run of the authorization subprocess ended. Holds its outcome.
    Authorized(Result<String, EngineError>),
    /// The engine is reachable.
    EngineReady,
    /// The engine could not be made reachable.
    EngineFailed(EngineError),
    /// The engine created the remote.
    RemoteCreated,
    /// The engine did not create the remote. Holds the cause.
    RemoteRejected(String),
}

/// What the caller is to do next for the setting up.
#[derive(Debug, PartialEq, Eq)]
pub enum SetupAction {
    /// Look for the engine binary.
    LocateBinary,
    /// Run `program` with `arguments` so that the notification that `token`
    /// stands for cancels it, and report each line of its error output.
    Authorize { program: String, arguments: Vec<String>, token: u64 },
    /// Tell the user to open the link.
    Announce(String),
    /// Ask the supervisor to make the engine reachable.
    EnsureEngine,
    /// Ask the engine to create a remote; as a job of its own where
    /// `asynchronous` is set.
    CreateRemote { name: String, kind: String, parameters: String, asynchronous: bool },
    /// The setting up has ended: this is its outcome, the name of the remote
    /// where it went well.
    Finish(Result<String, EngineError>),
    /// Nothing to do: the line held no link, or the event was none that the
    /// setting up awaited.
    Idle,
}

/// Mathematical value of a `RemoteSetup`.
pub ghost struct RemoteSetupView {
    pub phase: SetupPhase,
    pub parameters: Seq<char>,
}

/// Mathematical value of a `SetupEvent`.
pub ghost enum SetupEventView {
    Start,
    BinaryLocated(Option<Seq<char>>),
    Line(Seq<char>),
    Authorized(Result<Seq<char>, EngineErrorView>),
    EngineReady,
    EngineFailed(EngineErrorView),
    RemoteCreated,
    RemoteRejected(Seq<char>),
}

/// Mathematical value of a `SetupAction`.
pub ghost enum SetupActionView {
    LocateBinary,
    Authorize { program: Seq<char>, arguments: Seq<Seq<char>>, token: u64 },
    Announce(Seq<char>),
    EnsureEngine,
    CreateRemote { name: Seq<char>, kind: Seq<char>, parameters: Seq<char>, asynchronous: bool },
    Finish(Result<Seq<char>, EngineErrorView>),
    Idle,
}

impl View for RemoteSetup {
    type V = RemoteSetupView;

    open spec fn view(&self) -> RemoteSetupView {
        RemoteSetupView { phase: self.phase, parameters: self.parameters@ }
    }
}

impl View for SetupEvent {
    type V = SetupEventView;

    open spec fn view(&self) -> SetupEventView {
        match self {
            SetupEvent::Start => SetupEventView::Start,
            SetupEvent::BinaryLocated(path) => SetupEventView::BinaryLocated(path.deep_view()),
            SetupEvent::Line(line) => SetupEventView::Line(line@),
            SetupEvent::Authorized(Ok(output)) => SetupEventView::Authorized(Ok(output@)),
            SetupEvent::Authorized(Err(e)) => SetupEventView::Authorized(Err(e@)),
            SetupEvent::EngineReady => SetupEventView::EngineReady,
            SetupEvent::EngineFailed(e) => SetupEventView::EngineFailed(e@),
            SetupEvent::RemoteCreated => SetupEventView::RemoteCreated,
            SetupEvent::RemoteRejected(cause) => SetupEventView::RemoteRejected(cause@),
        }
    }
}

impl View for SetupAction {
    type V = SetupActionView;

    open spec fn view(&self) -> SetupActionView {
        match self {
            SetupAction::LocateBinary => SetupActionView::LocateBinary,
            SetupAction::Authorize { program, arguments, token } => SetupActionView::Authorize {
                program: program@,
                arguments: arguments.deep_view(),
                token: *token,
            },
            SetupAction::Announce(url) => SetupActionView::Announce(url@),
            SetupAction::EnsureEngine => SetupActionView::EnsureEngine,
            SetupAction::CreateRemote {
                name,
                kind,
                parameters,
                asynchronous,
            } => SetupActionView::CreateRemote {
                name: name@,
                kind: kind@,
                parameters: parameters@,
                asynchronous: *asynchronous,
            },
            SetupAction::Finish(Ok(name)) => SetupActionView::Finish(Ok(name@)),
            SetupAction::Finish(Err(e)) => SetupActionView::Finish(Err(e@)),
            SetupAction::Idle => SetupActionView::Idle,
        }
    }
}

/// The setting up in phase `phase`, otherwise as it was.
pub open spec fn in_phase(setup: RemoteSetupView, phase: SetupPhase) -> RemoteSetupView {
    RemoteSetupView { phase, ..setup }
}

/// The setting up has ended in the failure `error`.
pub open spec fn ended(setup: RemoteSetupView, slot: GdriveAuthState, error: EngineErrorView) -> (
    RemoteSetupView,
    GdriveAuthState,
    SetupActionView,
) {
    (in_phase(setup, SetupPhase::Done), slot, SetupActionView::Finish(Err(error)))
}

/// What the setting up and the slot become on `event`, and what is to be done
/// next.
///
/// The engine binary is looked for and run to have the user authorize, with a
/// cancel token in the slot for as long as it runs. Where the slot holds a
/// token already, an authorization is under way: the start is turned down
/// with a failure, the token stays where it is, and nothing is run. Each line
/// of the error output that holds a link is announced. When the run has
/// ended, the slot is emptied, however the run ended. A failed or cancelled
/// run ends the setting up with the run's failure. Otherwise the token is
/// read off the output, the engine is made reachable, and it is asked to
/// create the remote, whose name is the outcome. An event that the phase does
/// not await changes nothing.
pub open spec fn step(setup: RemoteSetupView, slot: GdriveAuthState, event: SetupEventView) -> (
    RemoteSetupView,
    GdriveAuthState,
    SetupActionView,
) {
    match (setup.phase, event) {
        (SetupPhase::Created, SetupEventView::Start) => (
            in_phase(setup, SetupPhase::LocatingBinary),
            slot,
            SetupActionView::LocateBinary,
        ),
        (SetupPhase::LocatingBinary, SetupEventView::BinaryLocated(Some(program))) => {
            if slot.pending is Some {
                ended(setup, slot, failure(ErrorKind::Spawn, ALREADY_PENDING@))
            } else {
                (
                    in_phase(setup, SetupPhase::Authorizing),
                    begun(slot),
                    SetupActionView::Authorize {
                        program,
                        arguments: authorize_arguments_text(false),
                        token: next_token(slot.issued),
                    },
                )
            }
        },
        (SetupPhase::LocatingBinary, SetupEventView::BinaryLocated(None)) => ended(
            setup,
            slot,
            failure(ErrorKind::Spawn, BINARY_MISSING@),
        ),
        (SetupPhase::Authorizing, SetupEventView::Line(line)) => match auth_url(line) {
            Some(url) => (setup, slot, SetupActionView::Announce(url)),
            None => (setup, slot, SetupActionView::Idle),
        },
        (SetupPhase::Authorizing, SetupEventView::Authorized(Ok(output))) => match
            remote_parameters_text(output) {
            Some(parameters) => (
                RemoteSetupView { phase: SetupPhase::AwaitingEngine, parameters },
                emptied(slot),
                SetupActionView::EnsureEngine,
            ),
            None => ended(setup, emptied(slot), failure(ErrorKind::Parse, TOKEN_MISSING@)),
        },
        (SetupPhase::Authorizing, SetupEventView::Authorized(Err(error))) => ended(
            setup,
            emptied(slot),
            error,
        ),
        (SetupPhase::AwaitingEngine, SetupEventView::EngineReady) => (
            in_phase(setup, SetupPhase::CreatingRemote),
            slot,
            SetupActionView::CreateRemote {
                name: DEFAULT_REMOTE@,
                kind: DRIVE_TYPE@,
                parameters: setup.parameters,
                asynchronous: true,
            },
        ),
        (SetupPhase::AwaitingEngine, SetupEventView::EngineFailed(error)) => ended(
            setup,
            slot,
            error,
        ),
        (SetupPhase::CreatingRemote, SetupEventView::RemoteCreated) => (
            in_phase(setup, SetupPhase::Done),
            slot,
            SetupActionView::Finish(Ok(DEFAULT_REMOTE@)),
        ),
        (SetupPhase::CreatingRemote, SetupEventView::RemoteRejected(cause)) => ended(
            setup,
            slot,
            failure(ErrorKind::Transport, REMOTE_REJECTED@ + cause),
        ),
        _ => (setup, slot, SetupActionView::Idle),
    }
}

/// The slot is empty whenever no authorization subprocess runs: it is filled
/// when one is started and emptied by the event that ends it, whatever that
/// event reports.
pub proof fn lemma_slot_is_cleared_when_run_ends(
    setup: RemoteSetupView,
    slot: GdriveAuthState,
    outcome: Result<Seq<char>, EngineErrorView>,
)
    requires
        setup.phase == SetupPhase::Authorizing,
    ensures
        step(setup, slot, SetupEventView::Authorized(outcome)).1.pending is None,
        step(setup, slot, SetupEventView::Authorized(outcome)).0.phase != SetupPhase::Authorizing,
{
}

/// A start that finds an authorization under way is turned down: the slot is
/// left as it is, with the pending token in it, no subprocess is asked for,
/// and the setting up ends in a failure.
pub proof fn lemma_start_on_pending_slot_is_turned_down(
    setup: RemoteSetupView,
    slot: GdriveAuthState,
    program: Seq<char>,
)
    requires
        setup.phase == SetupPhase::LocatingBinary,
        slot.pending is Some,
    ensures
        step(setup, slot, SetupEventView::BinaryLocated(Some(program))) == (
            in_phase(setup, SetupPhase::Done),
            slot,
            SetupActionView::Finish(Err(failure(ErrorKind::Spawn, ALREADY_PENDING@))),
        ),
{
}

/// Only the setting up that put a token into the slot runs a subprocess: an
/// authorization is asked for exactly where the slot was empty, and its token
/// is then the one in the slot.
pub proof fn lemma_authorization_holds_the_slot(
    setup: RemoteSetupView,
    slot: GdriveAuthState,
    event: SetupEventView,
)
    ensures
        step(setup, slot, event).2 is Authorize ==> slot.pending is None && step(
            setup,
            slot,
            event,
        ).1.pending == Some(step(setup, slot, event).2->token),
{
}

/// A cancelled authorization ends the setting up as cancelled: no remote is
/// created.
pub proof fn lemma_cancelled_authorization_creates_nothing(
    setup: RemoteSetupView,
    slot: GdriveAuthState,
    error: EngineErrorView,
)
    requires
        setup.phase == SetupPhase::Authorizing,
    ensures
        step(setup, slot, SetupEventView::Authorized(Err(error))) == (
            in_phase(setup, SetupPhase::Done),
            emptied(slot),
            SetupActionView::Finish(Err(error)),
        ),
{
}

impl RemoteSetup {
    /// A setting up that has not started.
    pub fn new() -> (setup: RemoteSetup)
        ensures
            setup@ == (RemoteSetupView { phase: SetupPhase::Created, parameters: Seq::empty() }),
    {
        RemoteSetup { phase: SetupPhase::Created, parameters: String::new() }
    }

    fn end(&mut self, error: EngineError) -> (action: SetupAction)
        ensures
            final(self)@ == in_phase(old(self)@, SetupPhase::Done),
            action@ == SetupActionView::Finish(Err(error@)),
    {
        self.phase = SetupPhase::Done;
        SetupAction::Finish(Err(error))
    }

    /// Takes `event` in and says what is to be done next. `slot` is the slot
    /// that a request to cancel looks into.
    pub fn on_event(
        &mut self,
        slot: &mut GdriveAuthState,
        event: SetupEvent,
    ) -> (action: SetupAction)
        ensures
            (final(self)@, *final(slot), action@) == step(old(self)@, *old(slot), event@),
    {
        match self.phase {
            SetupPhase::Created => match event {
                SetupEvent::Start => {
                    self.phase = SetupPhase::LocatingBinary;
                    SetupAction::LocateBinary
                },
                _ => SetupAction::Idle,
            },
            SetupPhase::LocatingBinary => match event {
                SetupEvent::BinaryLocated(Some(program)) => match slot.begin() {
                    Some(token) => {
                        self.phase = SetupPhase::Authorizing;
                        SetupAction::Authorize {
                            program,
                            arguments: authorize_arguments(false),
                            token,
                        }
                    },
                    None => self.end(EngineError::new(ErrorKind::Spawn, ALREADY_PENDING)),
                },
                SetupEvent::BinaryLocated(None) => self.end(
                    EngineError::new(ErrorKind::Spawn, BINARY_MISSING),
                ),
                _ => SetupAction::Idle,
            },
            SetupPhase::Authorizing => match event {
                SetupEvent::Line(line) => match extract_auth_url(line.as_str()) {
                    Some(url) => SetupAction::Announce(url),
                    None => SetupAction::Idle,
                },
                SetupEvent::Authorized(Ok(output)) => {
                    slot.clear();
                    match remote_parameters(output.as_str()) {
                        Ok(parameters) => {
                            self.phase = SetupPhase::AwaitingEngine;
                            self.parameters = parameters;
                            SetupAction::EnsureEngine
                        },
                        Err(error) => self.end(error),
                    }
                },
                SetupEvent::Authorized(Err(error)) => {
                    slot.clear();
                    self.end(error)
                },
                _ => SetupAction::Idle,
            },
            SetupPhase::AwaitingEngine => match event {
                SetupEvent::EngineReady => {
                    self.phase = SetupPhase::CreatingRemote;
                    SetupAction::CreateRemote {
                        name: DEFAULT_REMOTE.to_owned(),
                        kind: DRIVE_TYPE.to_owned(),
                        parameters: self.parameters.clone(),
                        asynchronous: true,
                    }
                },
                SetupEvent::EngineFailed(error) => self.end(error),
                _ => SetupAction::Idle,
            },
            SetupPhase::CreatingRemote => match event {
                SetupEvent::RemoteCreated => {
                    self.phase = SetupPhase::Done;
                    SetupAction::Finish(Ok(DEFAULT_REMOTE.to_owned()))
                },
                SetupEvent::RemoteRejected(cause) => self.end(
                    EngineError::caused(ErrorKind::Transport, REMOTE_REJECTED, cause.as_str()),
                ),
                _ => SetupAction::Idle,
            },
            SetupPhase::Done => SetupAction::Idle,
        }
    }
}

} // verus!
