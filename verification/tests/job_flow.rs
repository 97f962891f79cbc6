use neuro_kar_manager::error::{EngineError, ErrorKind};
use neuro_kar_manager::job::{Job, JobAction, JobEvent, JobPhase, COMPLETED, POLL_INTERVAL_MS};

fn fail(kind: ErrorKind, detail: &str) -> JobAction {
    JobAction::Fail(EngineError { kind, detail: detail.to_string() })
}

fn status(finished: bool, error: &str) -> JobEvent {
    JobEvent::Status { finished, error: error.to_string() }
}

fn polling_job() -> Job {
    let mut job = Job::new(
        "https://drive.google.com/drive/folders/ROOT?usp=sharing",
        "/data/out".to_string(),
        Some("mydrive".to_string()),
    );
    assert_eq!(job.on_event(JobEvent::Start), JobAction::EnsureEngine);
    assert_eq!(
        job.on_event(JobEvent::EngineReady),
        JobAction::SubmitCopy {
            src_fs: "mydrive,root_folder_id=ROOT:".to_string(),
            dst_fs: "/data/out".to_string(),
        }
    );
    assert_eq!(job.on_event(JobEvent::Submitted(Some(42))), JobAction::QueryStatus { jobid: 42 });
    assert_eq!(job.phase, JobPhase::Polling);
    job
}

fn authorizing_job() -> Job {
    let mut job = Job::new("ROOT", "/out".to_string(), None);
    assert_eq!(job.on_event(JobEvent::Start), JobAction::EnsureEngine);
    assert_eq!(job.on_event(JobEvent::EngineReady), JobAction::LocateBinary);
    assert_eq!(
        job.on_event(JobEvent::BinaryLocated(Some("/opt/bin/rclone".to_string()))),
        JobAction::Authorize {
            program: "/opt/bin/rclone".to_string(),
            arguments: vec!["authorize".to_string(), "drive".to_string()],
        }
    );
    job
}

#[test]
fn job_succeeds_only_after_the_third_poll() {
    let mut job = polling_job();
    assert_eq!(job.on_event(status(false, "")), JobAction::Wait { millis: 1000 });
    assert!(!job.is_terminal());
    assert_eq!(job.on_event(JobEvent::Waited), JobAction::QueryStatus { jobid: 42 });
    assert_eq!(job.on_event(status(false, "")), JobAction::Wait { millis: POLL_INTERVAL_MS });
    assert!(!job.is_terminal());
    assert_eq!(job.on_event(JobEvent::Waited), JobAction::QueryStatus { jobid: 42 });
    assert_eq!(job.on_event(status(true, "")), JobAction::Succeed(COMPLETED.to_string()));
    assert_eq!(COMPLETED, "Download completed successfully");
    assert_eq!(job.phase, JobPhase::Finished);
    assert!(job.is_terminal());
}

#[test]
fn job_fails_with_the_text_of_the_engine() {
    let mut job = polling_job();
    assert_eq!(job.on_event(status(false, "")), JobAction::Wait { millis: 1000 });
    assert_eq!(job.on_event(JobEvent::Waited), JobAction::QueryStatus { jobid: 42 });
    let action = job.on_event(status(true, "disk full"));
    assert_eq!(action, fail(ErrorKind::RemoteJob, "disk full"));
    match action {
        JobAction::Fail(e) => assert_eq!(e.message(), "disk full"),
        _ => unreachable!(),
    }
    assert_eq!(job.phase, JobPhase::Failed);
}

#[test]
fn error_text_of_an_unfinished_job_is_ignored() {
    let mut job = polling_job();
    assert_eq!(job.on_event(status(false, "transient")), JobAction::Wait { millis: 1000 });
    assert_eq!(job.phase, JobPhase::Pausing);
}

#[test]
fn polling_has_no_limit() {
    let mut job = polling_job();
    for _ in 0..500 {
        assert_eq!(job.on_event(status(false, "")), JobAction::Wait { millis: 1000 });
        assert_eq!(job.on_event(JobEvent::Waited), JobAction::QueryStatus { jobid: 42 });
    }
    assert_eq!(job.on_event(status(true, "")), JobAction::Succeed(COMPLETED.to_string()));
}

#[test]
fn absent_or_zero_jobid_fails_the_submission() {
    for jobid in [None, Some(0)] {
        let mut job = Job::new("ROOT", "/out".to_string(), Some("r".to_string()));
        job.on_event(JobEvent::Start);
        job.on_event(JobEvent::EngineReady);
        assert_eq!(job.on_event(JobEvent::Submitted(jobid)), fail(ErrorKind::Parse, "No jobid returned"));
        assert_eq!(job.phase, JobPhase::Failed);
    }
}

#[test]
fn negative_jobid_is_polled() {
    let mut job = Job::new("ROOT", "/out".to_string(), Some("r".to_string()));
    job.on_event(JobEvent::Start);
    job.on_event(JobEvent::EngineReady);
    assert_eq!(job.on_event(JobEvent::Submitted(Some(-7))), JobAction::QueryStatus { jobid: -7 });
}

#[test]
fn engine_failure_is_passed_on() {
    let mut job = Job::new("ROOT", "/out".to_string(), None);
    job.on_event(JobEvent::Start);
    let error = EngineError {
        kind: ErrorKind::Timeout,
        detail: "Timed out waiting for rclone rc server".to_string(),
    };
    assert_eq!(
        job.on_event(JobEvent::EngineFailed(error)),
        fail(ErrorKind::Timeout, "Timed out waiting for rclone rc server")
    );
}

#[test]
fn submission_and_status_failures_are_typed() {
    let mut job = Job::new("ROOT", "/out".to_string(), Some("r".to_string()));
    job.on_event(JobEvent::Start);
    job.on_event(JobEvent::EngineReady);
    assert_eq!(
        job.on_event(JobEvent::SubmitFailed("refused".to_string())),
        fail(ErrorKind::Transport, "Sync start failed: refused")
    );
    let mut job = polling_job();
    assert_eq!(
        job.on_event(JobEvent::StatusUnreachable("reset".to_string())),
        fail(ErrorKind::Transport, "Failed to check job status: reset")
    );
    let mut job = polling_job();
    assert_eq!(
        job.on_event(JobEvent::StatusRefused("job not found".to_string())),
        fail(ErrorKind::Transport, "Job status check failed: job not found")
    );
    let mut job = polling_job();
    assert_eq!(
        job.on_event(JobEvent::StatusUnreadable("EOF".to_string())),
        fail(ErrorKind::Parse, "Failed to parse job status: EOF")
    );
}

#[test]
fn job_without_remote_authorizes_and_creates_one() {
    let mut job = authorizing_job();
    let out = "Paste:\n{\"access_token\":\"t\"}\n<---End paste".to_string();
    let action = job.on_event(JobEvent::AuthorizeExited {
        success: true,
        stdout: out,
        stderr: String::new(),
    });
    assert_eq!(
        action,
        JobAction::CreateRemote {
            name: "temp_neuro_gdrive".to_string(),
            kind: "drive".to_string(),
            parameters: "{\"token\":\"{\\\"access_token\\\":\\\"t\\\"}\"}".to_string(),
            asynchronous: false,
        }
    );
    assert_eq!(
        job.on_event(JobEvent::RemoteCreated),
        JobAction::SubmitCopy {
            src_fs: "temp_neuro_gdrive,root_folder_id=ROOT:".to_string(),
            dst_fs: "/out".to_string(),
        }
    );
}

#[test]
fn authorization_failures_are_typed() {
    let mut job = Job::new("ROOT", "/out".to_string(), None);
    job.on_event(JobEvent::Start);
    job.on_event(JobEvent::EngineReady);
    assert_eq!(job.on_event(JobEvent::BinaryLocated(None)), fail(ErrorKind::Spawn, "Rclone not found"));

    let mut job = authorizing_job();
    assert_eq!(
        job.on_event(JobEvent::AuthorizeNotRun("permission denied".to_string())),
        fail(ErrorKind::Spawn, "Failed to run authorize: permission denied")
    );

    let mut job = authorizing_job();
    assert_eq!(
        job.on_event(JobEvent::AuthorizeExited {
            success: false,
            stdout: "{}".to_string(),
            stderr: "denied\n".to_string(),
        }),
        fail(ErrorKind::ProcessExit, "Authorization failed: denied\n")
    );

    let mut job = authorizing_job();
    assert_eq!(
        job.on_event(JobEvent::AuthorizeExited {
            success: true,
            stdout: "no token".to_string(),
            stderr: String::new(),
        }),
        fail(ErrorKind::Parse, "Failed to extract token from auth output")
    );

    let mut job = authorizing_job();
    job.on_event(JobEvent::AuthorizeExited {
        success: true,
        stdout: "{}".to_string(),
        stderr: String::new(),
    });
    assert_eq!(
        job.on_event(JobEvent::RemoteRejected("conflict".to_string())),
        fail(ErrorKind::Transport, "Failed to create config context: conflict")
    );
}

#[test]
fn job_ignores_unexpected_events() {
    let mut job = Job::new("ROOT", "/out".to_string(), None);
    assert_eq!(job.on_event(JobEvent::Waited), JobAction::Idle);
    assert_eq!(job.on_event(status(true, "")), JobAction::Idle);
    assert_eq!(job.phase, JobPhase::Created);
    let mut job = polling_job();
    assert_eq!(job.on_event(JobEvent::Start), JobAction::Idle);
    assert_eq!(job.on_event(JobEvent::Waited), JobAction::Idle);
    assert_eq!(job.phase, JobPhase::Polling);
}

#[test]
fn ended_job_takes_nothing_in() {
    let mut job = polling_job();
    job.on_event(status(true, ""));
    assert_eq!(job.on_event(status(true, "late")), JobAction::Idle);
    assert_eq!(job.on_event(JobEvent::Start), JobAction::Idle);
    assert_eq!(job.phase, JobPhase::Finished);
}

#[test]
fn status_is_asked_for_below_the_base_address() {
    assert_eq!(
        neuro_kar_manager::job::job_status_url("http://localhost:5572"),
        "http://localhost:5572/job/status"
    );
}
