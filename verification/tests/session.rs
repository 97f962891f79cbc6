use neuro_kar_manager::error::{EngineError, ErrorKind};
use neuro_kar_manager::session::{
    GdriveAuthState, RemoteSetup, SetupAction, SetupEvent, SetupPhase, DEFAULT_REMOTE,
};

fn fail(kind: ErrorKind, detail: &str) -> SetupAction {
    SetupAction::Finish(Err(EngineError { kind, detail: detail.to_string() }))
}

fn authorizing(slot: &mut GdriveAuthState) -> RemoteSetup {
    let mut setup = RemoteSetup::new();
    assert_eq!(setup.on_event(slot, SetupEvent::Start), SetupAction::LocateBinary);
    let action = setup.on_event(slot, SetupEvent::BinaryLocated(Some("rclone".to_string())));
    assert_eq!(
        action,
        SetupAction::Authorize {
            program: "rclone".to_string(),
            arguments: vec![
                "authorize".to_string(),
                "drive".to_string(),
                "--auth-no-open-browser".to_string(),
            ],
            token: slot.issued,
        }
    );
    assert_eq!(slot.pending, Some(slot.issued));
    setup
}

#[test]
fn slot_starts_empty() {
    assert_eq!(GdriveAuthState::new(), GdriveAuthState { pending: None, issued: 0 });
    assert_eq!(GdriveAuthState::default(), GdriveAuthState::new());
}

#[test]
fn token_is_taken_at_most_once() {
    let mut slot = GdriveAuthState::new();
    assert_eq!(slot.cancel(), None);
    let token = slot.begin();
    assert_eq!(token, Some(1));
    assert_eq!(slot.cancel(), Some(1));
    assert_eq!(slot.cancel(), None);
    assert_eq!(slot.issued, 1);
}

#[test]
fn begin_on_a_pending_slot_issues_nothing() {
    let mut slot = GdriveAuthState::new();
    assert_eq!(slot.begin(), Some(1));
    assert_eq!(slot.begin(), None);
    assert_eq!(slot, GdriveAuthState { pending: Some(1), issued: 1 });
    assert_eq!(slot.cancel(), Some(1));
    assert_eq!(slot.cancel(), None);
    assert_eq!(slot.begin(), Some(2));
}

#[test]
fn start_while_an_authorization_is_pending_is_turned_down() {
    let mut slot = GdriveAuthState::new();
    let mut first = authorizing(&mut slot);
    let held = slot;

    let mut second = RemoteSetup::new();
    assert_eq!(second.on_event(&mut slot, SetupEvent::Start), SetupAction::LocateBinary);
    assert_eq!(
        second.on_event(&mut slot, SetupEvent::BinaryLocated(Some("rclone".to_string()))),
        fail(ErrorKind::Spawn, "Authorization already in progress")
    );
    assert_eq!(second.phase, SetupPhase::Done);
    assert_eq!(slot, held);
    assert_eq!(
        second.on_event(&mut slot, SetupEvent::Authorized(Ok("{}".to_string()))),
        SetupAction::Idle
    );
    assert_eq!(slot, held);

    assert_eq!(slot.cancel(), Some(1));
    let cancelled =
        EngineError { kind: ErrorKind::Cancelled, detail: "Command cancelled by user".to_string() };
    assert_eq!(
        first.on_event(&mut slot, SetupEvent::Authorized(Err(cancelled))),
        fail(ErrorKind::Cancelled, "Command cancelled by user")
    );
}

#[test]
fn start_after_the_authorization_ended_is_taken_up() {
    let mut slot = GdriveAuthState::new();
    let mut first = authorizing(&mut slot);
    first.on_event(&mut slot, SetupEvent::Authorized(Ok("{}".to_string())));
    assert_eq!(slot.pending, None);
    authorizing(&mut slot);
    assert_eq!(slot, GdriveAuthState { pending: Some(2), issued: 2 });
}

#[test]
fn cleared_slot_has_nothing_to_cancel() {
    let mut slot = GdriveAuthState::new();
    slot.begin();
    slot.clear();
    assert_eq!(slot.cancel(), None);
    assert_eq!(slot.begin(), Some(2));
}

#[test]
fn token_numbers_wrap_around() {
    let mut slot = GdriveAuthState { pending: None, issued: u64::MAX };
    assert_eq!(slot.begin(), Some(0));
    assert_eq!(slot, GdriveAuthState { pending: Some(0), issued: 0 });
}

#[test]
fn setup_announces_the_link_and_creates_the_remote() {
    let mut slot = GdriveAuthState::new();
    let mut setup = authorizing(&mut slot);
    assert_eq!(
        setup.on_event(&mut slot, SetupEvent::Line("NOTICE: waiting".to_string())),
        SetupAction::Idle
    );
    assert_eq!(
        setup.on_event(
            &mut slot,
            SetupEvent::Line(
                "NOTICE: Please go to the following link: http://127.0.0.1:53682/auth?state=s "
                    .to_string()
            )
        ),
        SetupAction::Announce("http://127.0.0.1:53682/auth?state=s".to_string())
    );
    assert_eq!(slot.pending, Some(1));
    assert_eq!(
        setup.on_event(&mut slot, SetupEvent::Authorized(Ok("code\n{\"a\":1}\nend".to_string()))),
        SetupAction::EnsureEngine
    );
    assert_eq!(slot.pending, None);
    assert_eq!(
        setup.on_event(&mut slot, SetupEvent::EngineReady),
        SetupAction::CreateRemote {
            name: "gdrive_unofficial_neuro_kar".to_string(),
            kind: "drive".to_string(),
            parameters: "{\"token\":\"{\\\"a\\\":1}\"}".to_string(),
            asynchronous: true,
        }
    );
    assert_eq!(
        setup.on_event(&mut slot, SetupEvent::RemoteCreated),
        SetupAction::Finish(Ok(DEFAULT_REMOTE.to_string()))
    );
    assert_eq!(setup.phase, SetupPhase::Done);
}

#[test]
fn cancelled_authorization_ends_the_setup_and_clears_the_slot() {
    let mut slot = GdriveAuthState::new();
    let mut setup = authorizing(&mut slot);
    assert_eq!(slot.cancel(), Some(1));
    let cancelled =
        EngineError { kind: ErrorKind::Cancelled, detail: "Command cancelled by user".to_string() };
    assert_eq!(
        setup.on_event(&mut slot, SetupEvent::Authorized(Err(cancelled))),
        fail(ErrorKind::Cancelled, "Command cancelled by user")
    );
    assert_eq!(slot.pending, None);
    assert_eq!(setup.on_event(&mut slot, SetupEvent::EngineReady), SetupAction::Idle);
}

#[test]
fn failed_authorization_clears_the_slot() {
    let mut slot = GdriveAuthState::new();
    let mut setup = authorizing(&mut slot);
    let error = EngineError {
        kind: ErrorKind::ProcessExit,
        detail: "Command failed: \nStderr: denied\n".to_string(),
    };
    assert_eq!(
        setup.on_event(&mut slot, SetupEvent::Authorized(Err(error))),
        fail(ErrorKind::ProcessExit, "Command failed: \nStderr: denied\n")
    );
    assert_eq!(slot.pending, None);
}

#[test]
fn output_without_token_fails_the_setup() {
    let mut slot = GdriveAuthState::new();
    let mut setup = authorizing(&mut slot);
    assert_eq!(
        setup.on_event(&mut slot, SetupEvent::Authorized(Ok("nothing".to_string()))),
        fail(ErrorKind::Parse, "Failed to extract token from auth output")
    );
    assert_eq!(slot.pending, None);
}

#[test]
fn setup_failures_are_typed() {
    let mut slot = GdriveAuthState::new();
    let mut setup = RemoteSetup::new();
    setup.on_event(&mut slot, SetupEvent::Start);
    assert_eq!(
        setup.on_event(&mut slot, SetupEvent::BinaryLocated(None)),
        fail(ErrorKind::Spawn, "Rclone not found")
    );
    assert_eq!(slot, GdriveAuthState::new());

    let mut setup = authorizing(&mut slot);
    setup.on_event(&mut slot, SetupEvent::Authorized(Ok("{}".to_string())));
    let timeout = EngineError {
        kind: ErrorKind::Timeout,
        detail: "Timed out waiting for rclone rc server".to_string(),
    };
    assert_eq!(
        setup.on_event(&mut slot, SetupEvent::EngineFailed(timeout)),
        fail(ErrorKind::Timeout, "Timed out waiting for rclone rc server")
    );

    let mut setup = authorizing(&mut slot);
    setup.on_event(&mut slot, SetupEvent::Authorized(Ok("{}".to_string())));
    setup.on_event(&mut slot, SetupEvent::EngineReady);
    assert_eq!(
        setup.on_event(&mut slot, SetupEvent::RemoteRejected("exists".to_string())),
        fail(ErrorKind::Transport, "Failed to create config context: exists")
    );
}

#[test]
fn lines_outside_an_authorization_are_ignored() {
    let mut slot = GdriveAuthState::new();
    let mut setup = RemoteSetup::new();
    assert_eq!(
        setup.on_event(
            &mut slot,
            SetupEvent::Line("Please go to the following link: x".to_string())
        ),
        SetupAction::Idle
    );
}
