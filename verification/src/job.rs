//! The coordinator of a copy job: submission, and polling until the engine
//! reports the job finished.

use crate::auth::{
    authorize_arguments, authorize_arguments_text, remote_parameters, remote_parameters_text,
};
use crate::error::{failure, EngineError, EngineErrorView, ErrorKind};
use crate::gdrive::{gdrive_id, parse_gdrive_id, source_fs, source_fs_text};
use crate::install::BINARY_MISSING;
use crate::remotes::{DRIVE_TYPE, REMOTE_REJECTED};
use vstd::prelude::*;

verus! {

/// Time between two status queries, in milliseconds.
pub const POLL_INTERVAL_MS: u64 = 1000;

/// Name of the remote that a job creates where it is given none.
pub const TEMP_REMOTE: &'static str = "temp_neuro_gdrive";

/// What a job that ended well reports.
pub const COMPLETED: &'static str = "Download completed successfully";

/// What is put before the cause where the authorization could not be run.
pub const AUTHORIZE_NOT_RUN: &'static str = "Failed to run authorize: ";

/// What is put before the error output of an authorization that failed.
pub const AUTHORIZE_FAILED: &'static str = "Authorization failed: ";

/// What is put before the cause where the copy could not be submitted.
pub const SUBMIT_FAILED: &'static str = "Sync start failed: ";

/// Detail of the failure where the engine named no job.
pub const JOBID_MISSING: &'static str = "No jobid returned";

/// What is put before the cause where a status query could not be sent.
pub const STATUS_UNREACHABLE: &'static str = "Failed to check job status: ";

/// What is put before the engine's answer where it refused a status query.
pub const STATUS_REFUSED: &'static str = "Job status check failed: ";

/// What is put before the cause where a status could not be read.
pub const STATUS_UNREADABLE: &'static str = "Failed to parse job status: ";

/// Where a job stands.
#[derive(Clone, Copy, Debug, PartialEq, Eq, Structural)]
pub enum JobPhase {
    /// Nothing was asked for yet.
    Created,
    /// The supervisor was asked to make the engine reachable.
    AwaitingEngine,
    /// The engine binary is looked for, to authorize with.
    LocatingBinary,
    /// The authorization subprocess runs.
    Authorizing,
    /// The engine was asked to create the remote.
    CreatingRemote,
    /// The copy was submitted; its identifier is awaited.
    Submitted,
    /// A status query is under way.
    Polling,
    /// The time between two status queries passes.
    Pausing,
    /// The engine reported that the job finished without an error.
    Finished,
    /// The job ended in a failure.
    Failed,
}

/// A copy job from a Google Drive folder to a destination.
#[derive(Debug, PartialEq, Eq)]
pub struct Job {
    /// Identifier of the folder to copy from.
    pub root_id: String,
    /// Destination descriptor.
    pub destination: String,
    /// The remote to copy through, once it is known.
    pub remote: Option<String>,
    /// The identifier that the engine gave the job; 0 before it did.
    pub jobid: i64,
    pub phase: JobPhase,
}

/// What happened outside, for the job to react to.
#[derive(Debug, PartialEq, Eq)]
pub enum JobEvent {
    /// The caller asks the job to run.
    Start,
    /// The engine is reachable.
    EngineReady,
    /// The engine could not be made reachable.
    EngineFailed(EngineError),
    /// The search for the engine binary ended; holds its path if found.
    BinaryLocated(Option<String>),
    /// The authorization subprocess could not be run. Holds the cause.
    AuthorizeNotRun(String),
    /// The authorization subprocess exited.
    AuthorizeExited { success: bool, stdout: String, stderr: String },
    /// The engine created the remote.
    RemoteCreated,
    /// The engine did not create the remote. Holds the cause.
    RemoteRejected(String),
    /// The engine accepted the copy; holds the job identifier if it gave one.
    Submitted(Option<i64>),
    /// The copy could not be submitted. Holds the cause.
    SubmitFailed(String),
    /// The engine answered a status query.
    Status { finished: bool, error: String },
    /// A status query could not be sent. Holds the cause.
    StatusUnreachable(String),
    /// The engine refused a status query. Holds its answer.
    StatusRefused(String),
    /// The answer to a status query could not be read. Holds the cause.
    StatusUnreadable(String),
    /// The time between two status queries has passed.
    Waited,
}

/// What the caller is to do next for the job.
#[derive(Debug, PartialEq, Eq)]
pub enum JobAction {
    /// Ask the supervisor to make the engine reachable.
    EnsureEngine,
    /// Look for the engine binary.
    LocateBinary,
    /// Run `program` with `arguments` to have the user authorize, and hand
    /// back what it wrote.
    Authorize { program: String, arguments: Vec<String> },
    /// Ask the engine to create a remote; as a job of its own where
    /// `asynchronous` is set.
    CreateRemote { name: String, kind: String, parameters: String, asynchronous: bool },
    /// Submit the copy for asynchronous execution.
    SubmitCopy { src_fs: String, dst_fs: String },
    /// Ask the engine for the status of the job.
    QueryStatus { jobid: i64 },
    /// Let time pass.
    Wait { millis: u64 },
    /// The job ended well: report this text.
    Succeed(String),
    /// The job failed: report this failure.
    Fail(EngineError),
    /// The event was none that the job awaited: nothing to do.
    Idle,
}

/// Mathematical value of a `Job`.
pub ghost struct JobView {
    pub root_id: Seq<char>,
    pub destination: Seq<char>,
    pub remote: Option<Seq<char>>,
    pub jobid: i64,
    pub phase: JobPhase,
}

/// Mathematical value of a `JobEvent`.
pub ghost enum JobEventView {
    Start,
    EngineReady,
    EngineFailed(EngineErrorView),
    BinaryLocated(Option<Seq<char>>),
    AuthorizeNotRun(Seq<char>),
    AuthorizeExited { success: bool, stdout: Seq<char>, stderr: Seq<char> },
    RemoteCreated,
    RemoteRejected(Seq<char>),
    Submitted(Option<i64>),
    SubmitFailed(Seq<char>),
    Status { finished: bool, error: Seq<char> },
    StatusUnreachable(Seq<char>),
    StatusRefused(Seq<char>),
    StatusUnreadable(Seq<char>),
    Waited,
}

/// Mathematical value of a `JobAction`.
pub ghost enum JobActionView {
    EnsureEngine,
    LocateBinary,
    Authorize { program: Seq<char>, arguments: Seq<Seq<char>> },
    CreateRemote { name: Seq<char>, kind: Seq<char>, parameters: Seq<char>, asynchronous: bool },
    SubmitCopy { src_fs: Seq<char>, dst_fs: Seq<char> },
    QueryStatus { jobid: i64 },
    Wait { millis: u64 },
    Succeed(Seq<char>),
    Fail(EngineErrorView),
    Idle,
}

impl View for Job {
    type V = JobView;

    open spec fn view(&self) -> JobView {
        JobView {
            root_id: self.root_id@,
            destination: self.destination@,
            remote: self.remote.deep_view(),
            jobid: self.jobid,
            phase: self.phase,
        }
    }
}

impl View for JobEvent {
    type V = JobEventView;

    open spec fn view(&self) -> JobEventView {
        match self {
            JobEvent::Start => JobEventView::Start,
            JobEvent::EngineReady => JobEventView::EngineReady,
            JobEvent::EngineFailed(e) => JobEventView::EngineFailed(e@),
            JobEvent::BinaryLocated(path) => JobEventView::BinaryLocated(path.deep_view()),
            JobEvent::AuthorizeNotRun(cause) => JobEventView::AuthorizeNotRun(cause@),
            JobEvent::AuthorizeExited { success, stdout, stderr } => JobEventView::AuthorizeExited {
                success: *success,
                stdout: stdout@,
                stderr: stderr@,
            },
            JobEvent::RemoteCreated => JobEventView::RemoteCreated,
            JobEvent::RemoteRejected(cause) => JobEventView::RemoteRejected(cause@),
            JobEvent::Submitted(jobid) => JobEventView::Submitted(*jobid),
            JobEvent::SubmitFailed(cause) => JobEventView::SubmitFailed(cause@),
            JobEvent::Status { finished, error } => JobEventView::Status {
                finished: *finished,
                error: error@,
            },
            JobEvent::StatusUnreachable(cause) => JobEventView::StatusUnreachable(cause@),
            JobEvent::StatusRefused(answer) => JobEventView::StatusRefused(answer@),
            JobEvent::StatusUnreadable(cause) => JobEventView::StatusUnreadable(cause@),
            JobEvent::Waited => JobEventView::Waited,
        }
    }
}

impl View for JobAction {
    type V = JobActionView;

    open spec fn view(&self) -> JobActionView {
        match self {
            JobAction::EnsureEngine => JobActionView::EnsureEngine,
            JobAction::LocateBinary => JobActionView::LocateBinary,
            JobAction::Authorize { program, arguments } => JobActionView::Authorize {
                program: program@,
                arguments: arguments.deep_view(),
            },
            JobAction::CreateRemote {
                name,
                kind,
                parameters,
                asynchronous,
            } => JobActionView::CreateRemote {
                name: name@,
                kind: kind@,
                parameters: parameters@,
                asynchronous: *asynchronous,
            },
            JobAction::SubmitCopy { src_fs, dst_fs } => JobActionView::SubmitCopy {
                src_fs: src_fs@,
                dst_fs: dst_fs@,
            },
            JobAction::QueryStatus { jobid } => JobActionView::QueryStatus { jobid: *jobid },
            JobAction::Wait { millis } => JobActionView::Wait { millis: *millis },
            JobAction::Succeed(text) => JobActionView::Succeed(text@),
            JobAction::Fail(e) => JobActionView::Fail(e@),
            JobAction::Idle => JobActionView::Idle,
        }
    }
}

/// The job in phase `phase`, otherwise as it was.
pub open spec fn in_phase(job: JobView, phase: JobPhase) -> JobView {
    JobView { phase, ..job }
}

/// The job has failed with `error`.
pub open spec fn failed(job: JobView, error: EngineErrorView) -> (JobView, JobActionView) {
    (in_phase(job, JobPhase::Failed), JobActionView::Fail(error))
}

/// The copy is submitted through the remote `remote`.
pub open spec fn submitted(job: JobView, remote: Seq<char>) -> (JobView, JobActionView) {
    (
        in_phase(job, JobPhase::Submitted),
        JobActionView::SubmitCopy {
            src_fs: source_fs_text(remote, job.root_id),
            dst_fs: job.destination,
        },
    )
}

/// What the job becomes on `event`, and what is to be done next.
///
/// The job asks for the engine first. With a remote given it submits the copy
/// at once; without one it has the user authorize and creates a remote of its
/// own before. Once the engine has named the job, its status is asked for at a
/// fixed interval, without a limit, until the engine reports it finished: with
/// an empty error the job has succeeded, with another it has failed with that
/// error's text. An identifier that is absent or 0 is a failure of the
/// submission. An event that the phase does not await changes nothing.
pub open spec fn step(job: JobView, event: JobEventView) -> (JobView, JobActionView) {
    match (job.phase, event) {
        (JobPhase::Created, JobEventView::Start) => (
            in_phase(job, JobPhase::AwaitingEngine),
            JobActionView::EnsureEngine,
        ),
        (JobPhase::AwaitingEngine, JobEventView::EngineReady) => match job.remote {
            Some(remote) => submitted(job, remote),
            None => (in_phase(job, JobPhase::LocatingBinary), JobActionView::LocateBinary),
        },
        (JobPhase::AwaitingEngine, JobEventView::EngineFailed(error)) => failed(job, error),
        (JobPhase::LocatingBinary, JobEventView::BinaryLocated(Some(program))) => (
            in_phase(job, JobPhase::Authorizing),
            JobActionView::Authorize { program, arguments: authorize_arguments_text(true) },
        ),
        (JobPhase::LocatingBinary, JobEventView::BinaryLocated(None)) => failed(
            job,
            failure(ErrorKind::Spawn, BINARY_MISSING@),
        ),
        (JobPhase::Authorizing, JobEventView::AuthorizeNotRun(cause)) => failed(
            job,
            failure(ErrorKind::Spawn, AUTHORIZE_NOT_RUN@ + cause),
        ),
        (JobPhase::Authorizing, JobEventView::AuthorizeExited { success, stdout, stderr }) => {
            if !success {
                failed(job, failure(ErrorKind::ProcessExit, AUTHORIZE_FAILED@ + stderr))
            } else {
                match remote_parameters_text(stdout) {
                    Some(parameters) => (
                        JobView {
                            phase: JobPhase::CreatingRemote,
                            remote: Some(TEMP_REMOTE@),
                            ..job
                        },
                        JobActionView::CreateRemote {
                            name: TEMP_REMOTE@,
                            kind: DRIVE_TYPE@,
                            parameters,
                            asynchronous: false,
                        },
                    ),
                    None => failed(job, failure(ErrorKind::Parse, crate::auth::TOKEN_MISSING@)),
                }
            }
        },
        (JobPhase::CreatingRemote, JobEventView::RemoteCreated) => match job.remote {
            Some(remote) => submitted(job, remote),
            None => (job, JobActionView::Idle),
        },
        (JobPhase::CreatingRemote, JobEventView::RemoteRejected(cause)) => failed(
            job,
            failure(ErrorKind::Transport, REMOTE_REJECTED@ + cause),
        ),
        (JobPhase::Submitted, JobEventView::Submitted(Some(jobid))) => if jobid != 0 {
            (
                JobView { phase: JobPhase::Polling, jobid, ..job },
                JobActionView::QueryStatus { jobid },
            )
        } else {
            failed(job, failure(ErrorKind::Parse, JOBID_MISSING@))
        },
        (JobPhase::Submitted, JobEventView::Submitted(None)) => failed(
            job,
            failure(ErrorKind::Parse, JOBID_MISSING@),
        ),
        (JobPhase::Submitted, JobEventView::SubmitFailed(cause)) => failed(
            job,
            failure(ErrorKind::Transport, SUBMIT_FAILED@ + cause),
        ),
        (JobPhase::Polling, JobEventView::Status { finished, error }) => if !finished {
            (in_phase(job, JobPhase::Pausing), JobActionView::Wait { millis: POLL_INTERVAL_MS })
        } else if error.len() == 0 {
            (in_phase(job, JobPhase::Finished), JobActionView::Succeed(COMPLETED@))
        } else {
            failed(job, failure(ErrorKind::RemoteJob, error))
        },
        (JobPhase::Polling, JobEventView::StatusUnreachable(cause)) => failed(
            job,
            failure(ErrorKind::Transport, STATUS_UNREACHABLE@ + cause),
        ),
        (JobPhase::Polling, JobEventView::StatusRefused(answer)) => failed(
            job,
            failure(ErrorKind::Transport, STATUS_REFUSED@ + answer),
        ),
        (JobPhase::Polling, JobEventView::StatusUnreadable(cause)) => failed(
            job,
            failure(ErrorKind::Parse, STATUS_UNREADABLE@ + cause),
        ),
        (JobPhase::Pausing, JobEventView::Waited) => (
            in_phase(job, JobPhase::Polling),
            JobActionView::QueryStatus { jobid: job.jobid },
        ),
        _ => (job, JobActionView::Idle),
    }
}

/// Where the status of a job is asked for, on the control interface at
/// `base`.
pub open spec fn job_status_url_text(base: Seq<char>) -> Seq<char> {
    base + "/job/status"@
}

/// The job for a copy from `source` to `destination`, not yet started.
pub open spec fn new_job(
    source: Seq<char>,
    destination: Seq<char>,
    remote: Option<Seq<char>>,
) -> JobView {
    JobView {
        root_id: gdrive_id(source),
        destination,
        remote,
        jobid: 0,
        phase: JobPhase::Created,
    }
}

/// The job after `events`, one after the other, and what was to be done on
/// each.
pub open spec fn run(job: JobView, events: Seq<JobEventView>) -> (JobView, Seq<JobActionView>)
    decreases events.len(),
{
    if events.len() == 0 {
        (job, seq![])
    } else {
        let (next, action) = step(job, events[0]);
        let (last, actions) = run(next, events.drop_first());
        (last, seq![action] + actions)
    }
}

/// The events of a job whose status is asked for while the engine answers
/// that it is not finished: each answer, with whatever error text, and the
/// wait after it.
pub open spec fn unfinished_polls(answers: Seq<Seq<char>>) -> Seq<JobEventView>
    decreases answers.len(),
{
    if answers.len() == 0 {
        seq![]
    } else {
        seq![JobEventView::Status { finished: false, error: answers[0] }, JobEventView::Waited]
            + unfinished_polls(answers.drop_first())
    }
}

/// What is to be done on `rounds` answers that the job is not finished: after
/// each a wait, then the next query.
pub open spec fn repeated_polls(rounds: nat, jobid: i64) -> Seq<JobActionView>
    decreases rounds,
{
    if rounds == 0 {
        seq![]
    } else {
        seq![JobActionView::Wait { millis: POLL_INTERVAL_MS }, JobActionView::QueryStatus { jobid }]
            + repeated_polls((rounds - 1) as nat, jobid)
    }
}

/// Running events one stretch after another is running them all.
pub proof fn lemma_run_concat(job: JobView, first: Seq<JobEventView>, second: Seq<JobEventView>)
    ensures
        run(job, first + second) == ({
            let (middle, before) = run(job, first);
            let (last, after) = run(middle, second);
            (last, before + after)
        }),
    decreases first.len(),
{
    if first.len() == 0 {
        assert(first + second =~= second);
        let (last, after) = run(job, second);
        assert(Seq::<JobActionView>::empty() + after =~= after);
    } else {
        let (next, action) = step(job, first[0]);
        assert((first + second).drop_first() =~= first.drop_first() + second);
        lemma_run_concat(next, first.drop_first(), second);
        let (middle, before) = run(next, first.drop_first());
        let (last, after) = run(middle, second);
        assert(seq![action] + (before + after) =~= (seq![action] + before) + after);
    }
}

/// Running one event is taking one step.
pub proof fn lemma_run_single(job: JobView, event: JobEventView)
    ensures
        run(job, seq![event]) == (step(job, event).0, seq![step(job, event).1]),
{
    let events = seq![event];
    assert(events.drop_first().len() == 0);
    let (next, action) = step(job, events[0]);
    assert(run(next, events.drop_first()) == (next, Seq::<JobActionView>::empty()));
    assert(seq![action] + Seq::<JobActionView>::empty() =~= seq![action]);
}

/// While the engine answers that the job is not finished, the job waits and
/// asks again, and is after each round as it was before: it neither succeeds
/// nor fails, however many rounds pass.
pub proof fn lemma_unfinished_polls_go_on(job: JobView, answers: Seq<Seq<char>>)
    requires
        job.phase == JobPhase::Polling,
    ensures
        run(job, unfinished_polls(answers)) == (job, repeated_polls(answers.len(), job.jobid)),
    decreases answers.len(),
{
    if answers.len() > 0 {
        let answer = JobEventView::Status { finished: false, error: answers[0] };
        let paused = in_phase(job, JobPhase::Pausing);
        let rest = unfinished_polls(answers.drop_first());
        lemma_run_single(job, answer);
        lemma_run_single(paused, JobEventView::Waited);
        lemma_run_concat(job, seq![answer], seq![JobEventView::Waited]);
        assert(seq![answer] + seq![JobEventView::Waited] =~= seq![answer, JobEventView::Waited]);
        lemma_unfinished_polls_go_on(job, answers.drop_first());
        lemma_run_concat(job, seq![answer, JobEventView::Waited], rest);
        assert(seq![JobActionView::Wait { millis: POLL_INTERVAL_MS }] + seq![
            JobActionView::QueryStatus { jobid: job.jobid },
        ] =~= seq![
            JobActionView::Wait { millis: POLL_INTERVAL_MS },
            JobActionView::QueryStatus { jobid: job.jobid },
        ]);
    }
}

/// A job succeeds on the first answer that it is finished without an error,
/// and not before; on the first answer that it is finished with an error it
/// fails with that error's text.
pub proof fn lemma_first_finished_answer_decides(
    job: JobView,
    answers: Seq<Seq<char>>,
    error: Seq<char>,
)
    requires
        job.phase == JobPhase::Polling,
    ensures
        run(
            job,
            unfinished_polls(answers) + seq![JobEventView::Status { finished: true, error }],
        ) == (if error.len() == 0 {
            (
                in_phase(job, JobPhase::Finished),
                repeated_polls(answers.len(), job.jobid) + seq![JobActionView::Succeed(COMPLETED@)],
            )
        } else {
            (
                in_phase(job, JobPhase::Failed),
                repeated_polls(answers.len(), job.jobid) + seq![
                    JobActionView::Fail(failure(ErrorKind::RemoteJob, error)),
                ],
            )
        }),
{
    let answer = JobEventView::Status { finished: true, error };
    lemma_unfinished_polls_go_on(job, answers);
    lemma_run_concat(job, unfinished_polls(answers), seq![answer]);
    lemma_run_single(job, answer);
}

/// What holds of a job at every time: once it has asked for the remote to be
/// created it knows its name, and while it asks for its status it knows its
/// identifier, which is not 0.
pub open spec fn well_formed(job: JobView) -> bool {
    &&& (job.phase == JobPhase::CreatingRemote || job.phase == JobPhase::Submitted || job.phase
        == JobPhase::Polling || job.phase == JobPhase::Pausing || job.phase == JobPhase::Finished)
        ==> job.remote is Some
    &&& (job.phase == JobPhase::Polling || job.phase == JobPhase::Pausing) ==> job.jobid != 0
}

/// A new job is well formed, whatever events come it stays so, and a well
/// formed job that hears that its remote was created submits the copy.
pub proof fn lemma_job_stays_well_formed(job: JobView, event: JobEventView)
    requires
        well_formed(job),
    ensures
        well_formed(step(job, event).0),
        job.phase == JobPhase::CreatingRemote && event == JobEventView::RemoteCreated ==> step(
            job,
            event,
        ).1 is SubmitCopy,
        forall|source: Seq<char>, destination: Seq<char>, remote: Option<Seq<char>>|
            well_formed(#[trigger] new_job(source, destination, remote)),
{
}

/// A job that has ended takes no event in: it stays as it is and asks for
/// nothing.
pub proof fn lemma_ended_job_is_at_rest(job: JobView, event: JobEventView)
    requires
        job.phase == JobPhase::Finished || job.phase == JobPhase::Failed,
    ensures
        step(job, event) == (job, JobActionView::Idle),
{
}

/// An identifier that is absent or 0 fails the submission, whatever else the
/// engine answered.
pub proof fn lemma_missing_jobid_fails(job: JobView, jobid: Option<i64>)
    requires
        job.phase == JobPhase::Submitted,
        jobid is None || jobid == Some(0i64),
    ensures
        step(job, JobEventView::Submitted(jobid)) == failed(
            job,
            failure(ErrorKind::Parse, JOBID_MISSING@),
        ),
{
}

/// Writes the address at which the status of a job is asked for.
pub fn job_status_url(base: &str) -> (url: String)
    ensures
        url@ == job_status_url_text(base@),
{
    let mut url = base.to_owned();
    url.append("/job/status");
    url
}

impl Job {
    /// A job that copies the folder that `source` names to `destination`,
    /// through the remote `remote_config` where one is given.
    pub fn new(source: &str, destination: String, remote_config: Option<String>) -> (job: Job)
        ensures
            job@ == new_job(source@, destination@, remote_config.deep_view()),
    {
        Job {
            root_id: parse_gdrive_id(source),
            destination,
            remote: remote_config,
            jobid: 0,
            phase: JobPhase::Created,
        }
    }

    /// Whether the job has ended, well or not.
    pub fn is_terminal(&self) -> (b: bool)
        ensures
            b == (self.phase == JobPhase::Finished || self.phase == JobPhase::Failed),
    {
        match self.phase {
            JobPhase::Finished => true,
            JobPhase::Failed => true,
            _ => false,
        }
    }

    fn fail(&mut self, error: EngineError) -> (action: JobAction)
        ensures
            (final(self)@, action@) == failed(old(self)@, error@),
    {
        self.phase = JobPhase::Failed;
        JobAction::Fail(error)
    }

    fn submit(&mut self) -> (action: JobAction)
        ensures
            (final(self)@, action@) == (match old(self)@.remote {
                Some(remote) => submitted(old(self)@, remote),
                None => (old(self)@, JobActionView::Idle),
            }),
    {
        match &self.remote {
            Some(remote) => {
                let src_fs = source_fs(remote.as_str(), self.root_id.as_str());
                self.phase = JobPhase::Submitted;
                JobAction::SubmitCopy { src_fs, dst_fs: self.destination.clone() }
            },
            None => JobAction::Idle,
        }
    }

    /// Takes `event` in and says what is to be done next.
    pub fn on_event(&mut self, event: JobEvent) -> (action: JobAction)
        ensures
            (final(self)@, action@) == step(old(self)@, event@),
    {
        match self.phase {
            JobPhase::Created => match event {
                JobEvent::Start => {
                    self.phase = JobPhase::AwaitingEngine;
                    JobAction::EnsureEngine
                },
                _ => JobAction::Idle,
            },
            JobPhase::AwaitingEngine => match event {
                JobEvent::EngineReady => {
                    if self.remote.is_some() {
                        self.submit()
                    } else {
                        self.phase = JobPhase::LocatingBinary;
                        JobAction::LocateBinary
                    }
                },
                JobEvent::EngineFailed(error) => self.fail(error),
                _ => JobAction::Idle,
            },
            JobPhase::LocatingBinary => match event {
                JobEvent::BinaryLocated(Some(program)) => {
                    self.phase = JobPhase::Authorizing;
                    JobAction::Authorize { program, arguments: authorize_arguments(true) }
                },
                JobEvent::BinaryLocated(None) => self.fail(
                    EngineError::new(ErrorKind::Spawn, BINARY_MISSING),
                ),
                _ => JobAction::Idle,
            },
            JobPhase::Authorizing => match event {
                JobEvent::AuthorizeNotRun(cause) => self.fail(
                    EngineError::caused(ErrorKind::Spawn, AUTHORIZE_NOT_RUN, cause.as_str()),
                ),
                JobEvent::AuthorizeExited { success, stdout, stderr } => {
                    if !success {
                        self.fail(
                            EngineError::caused(
                                ErrorKind::ProcessExit,
                                AUTHORIZE_FAILED,
                                stderr.as_str(),
                            ),
                        )
                    } else {
                        match remote_parameters(stdout.as_str()) {
                            Ok(parameters) => {
                                self.phase = JobPhase::CreatingRemote;
                                self.remote = Some(TEMP_REMOTE.to_owned());
                                JobAction::CreateRemote {
                                    name: TEMP_REMOTE.to_owned(),
                                    kind: DRIVE_TYPE.to_owned(),
                                    parameters,
                                    asynchronous: false,
                                }
                            },
                            Err(error) => self.fail(error),
                        }
                    }
                },
                _ => JobAction::Idle,
            },
            JobPhase::CreatingRemote => match event {
                JobEvent::RemoteCreated => self.submit(),
                JobEvent::RemoteRejected(cause) => self.fail(
                    EngineError::caused(ErrorKind::Transport, REMOTE_REJECTED, cause.as_str()),
                ),
                _ => JobAction::Idle,
            },
            JobPhase::Submitted => match event {
                JobEvent::Submitted(Some(jobid)) => {
                    if jobid != 0 {
                        self.phase = JobPhase::Polling;
                        self.jobid = jobid;
                        JobAction::QueryStatus { jobid }
                    } else {
                        self.fail(EngineError::new(ErrorKind::Parse, JOBID_MISSING))
                    }
                },
                JobEvent::Submitted(None) => self.fail(
                    EngineError::new(ErrorKind::Parse, JOBID_MISSING),
                ),
                JobEvent::SubmitFailed(cause) => self.fail(
                    EngineError::caused(ErrorKind::Transport, SUBMIT_FAILED, cause.as_str()),
                ),
                _ => JobAction::Idle,
            },
            JobPhase::Polling => match event {
                JobEvent::Status { finished, error } => {
                    if !finished {
                        self.phase = JobPhase::Pausing;
                        JobAction::Wait { millis: POLL_INTERVAL_MS }
                    } else if error.as_str().is_empty() {
                        self.phase = JobPhase::Finished;
                        JobAction::Succeed(COMPLETED.to_owned())
                    } else {
                        self.fail(EngineError { kind: ErrorKind::RemoteJob, detail: error })
                    }
                },
                JobEvent::StatusUnreachable(cause) => self.fail(
                    EngineError::caused(ErrorKind::Transport, STATUS_UNREACHABLE, cause.as_str()),
                ),
                JobEvent::StatusRefused(answer) => self.fail(
                    EngineError::caused(ErrorKind::Transport, STATUS_REFUSED, answer.as_str()),
                ),
                JobEvent::StatusUnreadable(cause) => self.fail(
                    EngineError::caused(ErrorKind::Parse, STATUS_UNREADABLE, cause.as_str()),
                ),
                _ => JobAction::Idle,
            },
            JobPhase::Pausing => match event {
                JobEvent::Waited => {
                    self.phase = JobPhase::Polling;
                    JobAction::QueryStatus { jobid: self.jobid }
                },
                _ => JobAction::Idle,
            },
            JobPhase::Finished => JobAction::Idle,
            JobPhase::Failed => JobAction::Idle,
        }
    }
}

} // verus!
