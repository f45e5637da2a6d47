//! The decisions of the work on one date: skip a file already in place,
//! fetch with classified retry and backoff, write, and say when the file's
//! date metadata is to be repaired.
//!
//! A task runner decides; the caller performs. It is fed the events of the
//! outside world (whether the target exists, what the server answered,
//! whether the write succeeded) and answers with the next action.
use vstd::prelude::*;
use crate::{Outcome, ProcessResult};
use crate::downloader::{RetryConfig, backoff_ms, calculate_delay};
use crate::error::{RetryableError, category_retryable, classify, is_server_status};
use crate::text::{decimal, decimal_text, lower_of};
use vstd::string::*;

verus! {

/// Where a task runner stands.
#[derive(Debug, Clone, Copy, PartialEq, Eq, Structural)]
pub enum Phase {
    /// Waiting to learn whether the target file exists.
    Start,
    /// A request is out; waiting for its status.
    AwaitResponse,
    /// The status was a success; waiting for the body.
    AwaitBody,
    /// The body is being written to the target path.
    AwaitWrite,
    /// The outcome has been given.
    Done,
}

/// What the outside world reports to a task runner.
#[derive(Debug, Clone)]
pub enum TaskEvent {
    /// Whether the target path already exists.
    Checked { exists: bool },
    /// The request could not be sent or got no answer.
    SendFailed { message: String },
    /// The server answered with this status.
    Responded { status: u16 },
    /// The body of a successful answer could not be read.
    ReadFailed { message: String },
    /// The body was read; it holds `len` bytes.
    BodyRead { len: usize },
    /// The body was written to the target path.
    Written,
    /// Writing the body failed.
    WriteFailed { message: String },
}

/// What a task runner asks the outside world to do next.
#[derive(Debug, Clone)]
pub enum TaskAction {
    /// Send the request; first create the parent directory when `create_dir`.
    Send { create_dir: bool },
    /// Read the body of the answer.
    ReadBody,
    /// Wait `delay_ms` milliseconds, then send the request again.
    SendAfter { delay_ms: u64 },
    /// Write the body to the target path.
    WriteBody,
    /// The task is over: repair the file's date metadata first when
    /// `repair_metadata`, then report `result`.
    Finish { result: ProcessResult, repair_metadata: bool },
}

/// Mathematical picture of a [`TaskEvent`].
pub enum Event {
    Checked(bool),
    SendFailed(Seq<char>),
    Responded(u16),
    ReadFailed(Seq<char>),
    BodyRead(nat),
    Written,
    WriteFailed(Seq<char>),
}

/// Mathematical picture of a [`TaskAction`].
pub enum Action {
    Send(bool),
    ReadBody,
    SendAfter(u64),
    WriteBody,
    Finish(Outcome, bool),
}

impl View for TaskEvent {
    type V = Event;

    open spec fn view(&self) -> Event {
        match self {
            TaskEvent::Checked { exists } => Event::Checked(*exists),
            TaskEvent::SendFailed { message } => Event::SendFailed(message@),
            TaskEvent::Responded { status } => Event::Responded(*status),
            TaskEvent::ReadFailed { message } => Event::ReadFailed(message@),
            TaskEvent::BodyRead { len } => Event::BodyRead(*len as nat),
            TaskEvent::Written => Event::Written,
            TaskEvent::WriteFailed { message } => Event::WriteFailed(message@),
        }
    }
}

impl View for TaskAction {
    type V = Action;

    open spec fn view(&self) -> Action {
        match self {
            TaskAction::Send { create_dir } => Action::Send(*create_dir),
            TaskAction::ReadBody => Action::ReadBody,
            TaskAction::SendAfter { delay_ms } => Action::SendAfter(*delay_ms),
            TaskAction::WriteBody => Action::WriteBody,
            TaskAction::Finish { result, repair_metadata } => Action::Finish(result@, *repair_metadata),
        }
    }
}

/// Mathematical picture of a [`TaskRunner`].
pub struct RunnerView {
    pub policy: RetryConfig,
    pub path: Seq<char>,
    pub overwrite: bool,
    pub repair: bool,
    pub attempt: nat,
    pub phase: Phase,
}

/// The events that a runner accepts in each phase.
pub open spec fn event_fits(phase: Phase, e: Event) -> bool {
    match e {
        Event::Checked(_) => phase == Phase::Start,
        Event::SendFailed(_) => phase == Phase::AwaitResponse,
        Event::Responded(_) => phase == Phase::AwaitResponse,
        Event::ReadFailed(_) => phase == Phase::AwaitBody,
        Event::BodyRead(_) => phase == Phase::AwaitBody,
        Event::Written => phase == Phase::AwaitWrite,
        Event::WriteFailed(_) => phase == Phase::AwaitWrite,
    }
}

/// A failure described by `message` is worth another attempt.
pub open spec fn message_retryable(message: Seq<char>) -> bool {
    category_retryable(classify(lower_of(message), message, None))
}

/// A failure status is worth another attempt: 429 and the 5xx range.
pub open spec fn status_retryable(status: u16) -> bool {
    status == 429 || is_server_status(status)
}

/// A 2xx status.
pub open spec fn is_success_status(status: u16) -> bool {
    200 <= status <= 299
}

/// Failure text for an answer with a failure status.
pub open spec fn status_text(status: u16) -> Seq<char> {
    "HTTP "@ + decimal(status as nat)
}

/// Failure text for a successful answer without content.
pub open spec fn empty_body_text() -> Seq<char> {
    "server returned empty response"@
}

/// After a failed attempt: retry with backoff when retry is enabled, the
/// failure is retryable and attempts remain; otherwise fail for good.
pub open spec fn fail_or_retry(r: RunnerView, retryable: bool, text: Seq<char>) -> (RunnerView, Action) {
    if r.policy.enabled && retryable && r.attempt < r.policy.max_retries {
        (
            RunnerView { attempt: r.attempt + 1, phase: Phase::AwaitResponse, ..r },
            Action::SendAfter(
                backoff_ms(
                    r.attempt,
                    r.policy.base_delay_ms as nat,
                    r.policy.max_delay_ms as nat,
                ) as u64,
            ),
        )
    } else {
        (RunnerView { phase: Phase::Done, ..r }, Action::Finish(Outcome::Failed(text), false))
    }
}

/// One step of a task runner: its next state and the action it asks for.
pub open spec fn step_spec(r: RunnerView, e: Event) -> (RunnerView, Action) {
    match e {
        Event::Checked(exists) => if exists && !r.overwrite {
            (
                RunnerView { phase: Phase::Done, ..r },
                Action::Finish(Outcome::AlreadyExists(r.path), r.repair),
            )
        } else {
            (RunnerView { phase: Phase::AwaitResponse, ..r }, Action::Send(true))
        },
        Event::SendFailed(m) => fail_or_retry(r, message_retryable(m), m),
        Event::Responded(s) => if is_success_status(s) {
            (RunnerView { phase: Phase::AwaitBody, ..r }, Action::ReadBody)
        } else if s == 404 {
            (
                RunnerView { phase: Phase::Done, ..r },
                Action::Finish(Outcome::Failed(status_text(s)), false),
            )
        } else {
            fail_or_retry(r, status_retryable(s), status_text(s))
        },
        Event::ReadFailed(m) => fail_or_retry(r, message_retryable(m), m),
        Event::BodyRead(len) => if len == 0 {
            fail_or_retry(r, true, empty_body_text())
        } else {
            (RunnerView { phase: Phase::AwaitWrite, ..r }, Action::WriteBody)
        },
        Event::Written => (
            RunnerView { phase: Phase::Done, ..r },
            Action::Finish(Outcome::Downloaded(r.path), r.repair),
        ),
        Event::WriteFailed(m) => (
            RunnerView { phase: Phase::Done, ..r },
            Action::Finish(Outcome::Failed(m), false),
        ),
    }
}

/// The decisions of the work on one date: skip an existing file, fetch with
/// classified retry, write, and say when to repair the file's metadata.
#[derive(Debug, Clone)]
pub struct TaskRunner {
    policy: RetryConfig,
    path: String,
    overwrite: bool,
    repair: bool,
    attempt: u32,
    phase: Phase,
}

impl View for TaskRunner {
    type V = RunnerView;

    closed spec fn view(&self) -> RunnerView {
        RunnerView {
            policy: self.policy,
            path: self.path@,
            overwrite: self.overwrite,
            repair: self.repair,
            attempt: self.attempt as nat,
            phase: self.phase,
        }
    }
}

fn status_message(status: u16) -> (r: String)
    ensures
        r@ == status_text(status),
{
    let head = String::from_str("HTTP ");
    head.concat(decimal_text(status as u64).as_str())
}

impl TaskRunner {
    /// A runner for the file at `path`; `download_only` suppresses the
    /// metadata repair.
    pub fn new(policy: RetryConfig, path: String, overwrite: bool, download_only: bool) -> (r: Self)
        ensures
            r@ == (RunnerView {
                policy,
                path: path@,
                overwrite,
                repair: !download_only,
                attempt: 0,
                phase: Phase::Start,
            }),
    {
        TaskRunner { policy, path, overwrite, repair: !download_only, attempt: 0, phase: Phase::Start }
    }

    /// The current phase.
    pub fn phase(&self) -> (r: Phase)
        ensures
            r == self@.phase,
    {
        self.phase
    }

    /// The target path of the task.
    pub fn path(&self) -> (r: &str)
        ensures
            r@ == self@.path,
    {
        self.path.as_str()
    }

    /// Number of retries made so far.
    pub fn attempt(&self) -> (r: u32)
        ensures
            r as nat == self@.attempt,
    {
        self.attempt
    }

    /// Whether `event` is one that the current phase expects.
    pub fn accepts(&self, event: &TaskEvent) -> (r: bool)
        ensures
            r == event_fits(self@.phase, event@),
    {
        match event {
            TaskEvent::Checked { .. } => self.phase == Phase::Start,
            TaskEvent::SendFailed { .. } => self.phase == Phase::AwaitResponse,
            TaskEvent::Responded { .. } => self.phase == Phase::AwaitResponse,
            TaskEvent::ReadFailed { .. } => self.phase == Phase::AwaitBody,
            TaskEvent::BodyRead { .. } => self.phase == Phase::AwaitBody,
            TaskEvent::Written => self.phase == Phase::AwaitWrite,
            TaskEvent::WriteFailed { .. } => self.phase == Phase::AwaitWrite,
        }
    }

    fn fail_or_retry(&mut self, retryable: bool, text: String) -> (r: TaskAction)
        ensures
            (final(self)@, r@) == fail_or_retry(old(self)@, retryable, text@),
    {
        if self.policy.enabled && retryable && self.attempt < self.policy.max_retries {
            let delay = calculate_delay(
                self.attempt,
                self.policy.base_delay_ms,
                self.policy.max_delay_ms,
            );
            self.attempt = self.attempt + 1;
            self.phase = Phase::AwaitResponse;
            TaskAction::SendAfter { delay_ms: delay }
        } else {
            self.phase = Phase::Done;
            TaskAction::Finish { result: ProcessResult::Failed(text), repair_metadata: false }
        }
    }

    /// Takes in what happened and answers with the next action.
    pub fn step(&mut self, event: TaskEvent) -> (r: TaskAction)
        requires
            event_fits(old(self)@.phase, event@),
        ensures
            (final(self)@, r@) == step_spec(old(self)@, event@),
    {
        match event {
            TaskEvent::Checked { exists } => {
                if exists && !self.overwrite {
                    self.phase = Phase::Done;
                    TaskAction::Finish {
                        result: ProcessResult::AlreadyExists(self.path.clone()),
                        repair_metadata: self.repair,
                    }
                } else {
                    self.phase = Phase::AwaitResponse;
                    TaskAction::Send { create_dir: true }
                }
            },
            TaskEvent::SendFailed { message } => {
                let category = RetryableError::from_error_message(message.as_str(), None);
                let retryable = category.is_retryable();
                self.fail_or_retry(retryable, message)
            },
            TaskEvent::Responded { status } => {
                if 200 <= status && status <= 299 {
                    self.phase = Phase::AwaitBody;
                    TaskAction::ReadBody
                } else if status == 404 {
                    self.phase = Phase::Done;
                    TaskAction::Finish {
                        result: ProcessResult::Failed(status_message(status)),
                        repair_metadata: false,
                    }
                } else {
                    let retryable = status == 429 || (500 <= status && status <= 599);
                    self.fail_or_retry(retryable, status_message(status))
                }
            },
            TaskEvent::ReadFailed { message } => {
                let category = RetryableError::from_error_message(message.as_str(), None);
                let retryable = category.is_retryable();
                self.fail_or_retry(retryable, message)
            },
            TaskEvent::BodyRead { len } => {
                if len == 0 {
                    self.fail_or_retry(true, String::from_str("server returned empty response"))
                } else {
                    self.phase = Phase::AwaitWrite;
                    TaskAction::WriteBody
                }
            },
            TaskEvent::Written => {
                self.phase = Phase::Done;
                TaskAction::Finish {
                    result: ProcessResult::Downloaded(self.path.clone()),
                    repair_metadata: self.repair,
                }
            },
            TaskEvent::WriteFailed { message } => {
                self.phase = Phase::Done;
                TaskAction::Finish { result: ProcessResult::Failed(message), repair_metadata: false }
            },
        }
    }
}

/// A file already at the target path, without overwrite, is never fetched:
/// the runner finishes at once with `AlreadyExists`, asks for no request, and
/// accepts no further event.
pub proof fn lemma_existing_file_is_not_fetched(r: RunnerView)
    requires
        r.phase == Phase::Start,
        !r.overwrite,
    ensures
        step_spec(r, Event::Checked(true)).1 == Action::Finish(Outcome::AlreadyExists(r.path), r.repair),
        step_spec(r, Event::Checked(true)).0.phase == Phase::Done,
        forall|e: Event| !event_fits(step_spec(r, Event::Checked(true)).0.phase, e),
{
}

/// Processing a date again without overwrite, after a run that wrote its
/// file, leaves the file alone: the second run ends with `AlreadyExists` for
/// the same path, and never asks for a write.
pub proof fn lemma_second_run_keeps_file(first: RunnerView, second: RunnerView)
    requires
        first.phase == Phase::AwaitWrite,
        step_spec(first, Event::Written).1 matches Action::Finish(Outcome::Downloaded(_), _),
        second.phase == Phase::Start,
        second.path == first.path,
        !second.overwrite,
    ensures
        step_spec(second, Event::Checked(true)).1 == Action::Finish(
            Outcome::AlreadyExists(first.path),
            second.repair,
        ),
        forall|e: Event| !event_fits(step_spec(second, Event::Checked(true)).0.phase, e),
{
}

/// A 404 answer ends the task at once, whatever the retry policy and the
/// number of attempts made: no retry is scheduled.
pub proof fn lemma_not_found_is_never_retried(r: RunnerView)
    requires
        r.phase == Phase::AwaitResponse,
    ensures
        step_spec(r, Event::Responded(404)).1 == Action::Finish(Outcome::Failed(status_text(404)), false),
        step_spec(r, Event::Responded(404)).0.phase == Phase::Done,
        step_spec(r, Event::Responded(404)).0.attempt == r.attempt,
{
}

/// Status 429 and every 5xx status classify as retryable categories,
/// whatever the message.
pub proof fn lemma_busy_statuses_are_retryable(lowered: Seq<char>, message: Seq<char>, status: u16)
    requires
        status == 429 || (500 <= status <= 599),
    ensures
        category_retryable(classify(lowered, message, Some(status))),
        status_retryable(status),
{
}

/// A message that matches none of the known failure texts classifies as
/// `Unknown` and is not retried: the task fails on that attempt.
pub proof fn lemma_unmatched_message_is_not_retried(r: RunnerView, message: Seq<char>)
    requires
        r.phase == Phase::AwaitResponse,
        classify(lower_of(message), message, None) == crate::error::Category::Unknown(message),
    ensures
        !message_retryable(message),
        step_spec(r, Event::SendFailed(message)).1 == Action::Finish(Outcome::Failed(message), false),
        step_spec(r, Event::SendFailed(message)).0.phase == Phase::Done,
{
}

} // verus!
