//! The protocol between the scheduler and its host, as a state machine.
//!
//! The host reports an [`Event`]; the scheduler moves to its next state and
//! answers with a [`Step`]: the log events to emit and the [`Directive`] to
//! carry out next. [`RunnerModel::step`] says what the scheduler does on each
//! event; the lemmas below it state what follows for every run.

use vstd::prelude::*;

use crate::config::JobKind;
use crate::job::{
    command_outcome, response_outcome, status_is_success, ExecutionError, ExecutionErrorView,
    JobRunner,
};
use crate::schedule::Timestamp;
use crate::text::utf8_lossy;

verus! {

/// Seconds that the scheduler sleeps between two ticks.
pub const POLL_INTERVAL_SECS: u64 = 60;

/// Where the scheduler stands.
#[derive(Debug, Clone, Copy, PartialEq, Eq, Structural)]
pub enum Phase {
    /// Between ticks: waiting for the next wake-up or for shutdown.
    Idle,
    /// In a tick, waiting for the attempt of job `job` to report.
    Executing { job: usize },
    /// In a tick, waiting for the body of the response that job `job` got.
    ReadingBody { job: usize, status: u16 },
    /// Shut down. Nothing happens any more.
    Stopped,
}

/// The two states of the scheduler as its host sees them.
#[derive(Debug, Clone, Copy, PartialEq, Eq, Structural)]
pub enum RunnerState {
    Running,
    Stopped,
}

/// What the host reports to the scheduler.
#[derive(Debug, PartialEq, Eq)]
pub enum Event {
    /// The poll interval has elapsed (or the scheduler has just started).
    Wake { now: Timestamp },
    /// Shutdown has been requested.
    Shutdown,
    /// The shell ran the job's command to its end.
    Exited { at: Timestamp, success: bool, stdout: Vec<u8>, stderr: Vec<u8> },
    /// The shell could not be started.
    SpawnFailed { at: Timestamp, cause: String },
    /// The server answered the job's request with this status.
    Status { at: Timestamp, status: u16 },
    /// The body of the response has been read.
    Body { at: Timestamp, body: String },
    /// The request, or reading its response, failed.
    TransportFailed { at: Timestamp, cause: String },
}

impl Event {
    /// The instant that the event reports; a shutdown request reports none.
    pub open spec fn instant(self) -> Option<Timestamp> {
        match self {
            Event::Wake { now } => Some(now),
            Event::Shutdown => None,
            Event::Exited { at, success, stdout, stderr } => Some(at),
            Event::SpawnFailed { at, cause } => Some(at),
            Event::Status { at, status } => Some(at),
            Event::Body { at, body } => Some(at),
            Event::TransportFailed { at, cause } => Some(at),
        }
    }
}

/// What the host is to do next.
#[derive(Debug, Clone, Copy, PartialEq, Eq, Structural)]
pub enum Directive {
    /// Perform the action of job `job` and report how it went.
    Execute { job: usize },
    /// Read the body of the response that job `job` got and report it.
    ReadBody { job: usize },
    /// Wait for `seconds` or for a shutdown request, whichever comes first.
    Sleep { seconds: u64 },
    /// Return: the scheduler has stopped.
    Halt,
}

/// What the scheduler has to say about its work.
#[derive(Debug, PartialEq, Eq)]
pub enum LogEvent {
    JobStarted { name: String },
    JobSucceeded { name: String, output: String },
    JobFailed { name: String, error: ExecutionError },
    SchedulerStopped,
}

/// A log event as plain text.
pub enum LogEventView {
    JobStarted { name: Seq<char> },
    JobSucceeded { name: Seq<char>, output: Seq<char> },
    JobFailed { name: Seq<char>, error: ExecutionErrorView },
    SchedulerStopped,
}

impl View for LogEvent {
    type V = LogEventView;

    open spec fn view(&self) -> LogEventView {
        match *self {
            LogEvent::JobStarted { name } => LogEventView::JobStarted { name: name@ },
            LogEvent::JobSucceeded { name, output } => LogEventView::JobSucceeded {
                name: name@,
                output: output@,
            },
            LogEvent::JobFailed { name, error } => LogEventView::JobFailed {
                name: name@,
                error: error@,
            },
            LogEvent::SchedulerStopped => LogEventView::SchedulerStopped,
        }
    }
}

/// How much a log event matters.
#[derive(Debug, Clone, Copy, PartialEq, Eq, Structural)]
pub enum LogLevel {
    Info,
    Error,
}

impl LogEventView {
    /// Failures are errors; everything else is information.
    pub open spec fn level(self) -> LogLevel {
        match self {
            LogEventView::JobFailed { name, error } => LogLevel::Error,
            _ => LogLevel::Info,
        }
    }

    /// The line that reports the event.
    pub open spec fn message(self) -> Seq<char> {
        match self {
            LogEventView::JobStarted { name } => "Executing job: "@ + name,
            LogEventView::JobSucceeded { name, output } => "Job '"@ + name
                + "' completed successfully: "@ + output,
            LogEventView::JobFailed { name, error } => "Job '"@ + name + "' failed: "@
                + error.message(),
            LogEventView::SchedulerStopped => "Shutting down gracefully..."@,
        }
    }
}

impl LogEvent {
    /// The level at which the event is logged.
    pub fn level(&self) -> (level: LogLevel)
        ensures
            level == self@.level(),
    {
        match self {
            LogEvent::JobFailed { .. } => LogLevel::Error,
            _ => LogLevel::Info,
        }
    }

    /// The line that reports the event.
    pub fn message(&self) -> (text: String)
        ensures
            text@ == self@.message(),
    {
        match self {
            LogEvent::JobStarted { name } => {
                let mut text = "Executing job: ".to_owned();
                text.append(name.as_str());
                text
            },
            LogEvent::JobSucceeded { name, output } => {
                let mut text = "Job '".to_owned();
                text.append(name.as_str());
                text.append("' completed successfully: ");
                text.append(output.as_str());
                text
            },
            LogEvent::JobFailed { name, error } => {
                let mut text = "Job '".to_owned();
                text.append(name.as_str());
                text.append("' failed: ");
                text.append(error.message().as_str());
                text
            },
            LogEvent::SchedulerStopped => "Shutting down gracefully...".to_owned(),
        }
    }
}

/// The scheduler's answer to an event.
#[derive(Debug, PartialEq, Eq)]
pub struct Step {
    /// Log events, in the order in which they happened.
    pub log: Vec<LogEvent>,
    pub directive: Directive,
}

/// A step as plain values.
pub struct StepView {
    pub log: Seq<LogEventView>,
    pub directive: Directive,
}

/// The text of a list of log events.
pub open spec fn log_view(log: Seq<LogEvent>) -> Seq<LogEventView> {
    Seq::new(log.len(), |i: int| log[i]@)
}

impl View for Step {
    type V = StepView;

    open spec fn view(&self) -> StepView {
        StepView { log: log_view(self.log@), directive: self.directive }
    }
}

/// The log event that reports how a job's attempt ended.
pub open spec fn outcome_event(
    name: Seq<char>,
    result: Result<Seq<char>, ExecutionErrorView>,
) -> LogEventView {
    match result {
        Ok(output) => LogEventView::JobSucceeded { name, output },
        Err(error) => LogEventView::JobFailed { name, error },
    }
}

/// Index of the first job at or after `from` that is due at `now`, or the
/// number of jobs when there is none.
pub open spec fn first_due(jobs: Seq<JobRunner>, from: int, now: Timestamp) -> int
    decreases jobs.len() - from,
{
    if from >= jobs.len() {
        jobs.len() as int
    } else if jobs[from].due_at(now) {
        from
    } else {
        first_due(jobs, from + 1, now)
    }
}

/// How a tick goes on at job `from`: the first due job from there on is
/// started; when there is none the tick is over and the scheduler sleeps.
pub open spec fn scan(jobs: Seq<JobRunner>, from: int, now: Timestamp) -> (Phase, StepView) {
    let next = first_due(jobs, from, now);
    if next < jobs.len() {
        (
            Phase::Executing { job: next as usize },
            StepView {
                log: seq![LogEventView::JobStarted { name: jobs[next].name@ }],
                directive: Directive::Execute { job: next as usize },
            },
        )
    } else {
        (
            Phase::Idle,
            StepView { log: Seq::empty(), directive: Directive::Sleep { seconds: POLL_INTERVAL_SECS } },
        )
    }
}

/// The scheduler as a mathematical value: its runners, in insertion order,
/// and its phase.
pub struct RunnerModel {
    pub jobs: Seq<JobRunner>,
    pub phase: Phase,
}

impl RunnerModel {
    /// The job that the scheduler is waiting for, if any.
    pub open spec fn current_job(self) -> Option<usize> {
        match self.phase {
            Phase::Executing { job } => Some(job),
            Phase::ReadingBody { job, status } => Some(job),
            _ => None,
        }
    }

    /// The jobs can be counted by the machine, the job that is waited for
    /// exists, and a body is read only for a request that was answered with
    /// success.
    pub open spec fn wf(self) -> bool {
        &&& self.jobs.len() <= usize::MAX
        &&& match self.phase {
            Phase::Executing { job } => job < self.jobs.len(),
            Phase::ReadingBody { job, status } => {
                &&& job < self.jobs.len()
                &&& self.jobs[job as int].config@.kind() == JobKind::Request
                &&& status_is_success(status)
            },
            _ => true,
        }
    }

    /// Running or stopped.
    pub open spec fn state(self) -> RunnerState {
        if self.phase == Phase::Stopped {
            RunnerState::Stopped
        } else {
            RunnerState::Running
        }
    }

    /// Whether `event` asks the scheduler to go on to the response's body.
    pub open spec fn awaits_body(self, event: Event) -> bool {
        &&& self.phase matches Phase::Executing { job }
        &&& event matches Event::Status { at, status }
        &&& self.jobs[job as int].config@.kind() == JobKind::Request
        &&& status_is_success(status)
    }

    /// If `event` ends the attempt that the scheduler is waiting for: when
    /// the attempt ended and what it yielded.
    ///
    /// A command reports its exit or that the shell could not be started. A
    /// request reports a status, then its body if the status was a success,
    /// or a transport failure at either point.
    pub open spec fn completion(self, event: Event) -> Option<
        (Timestamp, Result<Seq<char>, ExecutionErrorView>),
    > {
        match self.phase {
            Phase::Executing { job } => {
                if self.jobs[job as int].config@.kind() == JobKind::Command {
                    match event {
                        Event::Exited { at, success, stdout, stderr } => Some(
                            (at, command_outcome(success, utf8_lossy(stdout@), utf8_lossy(stderr@))),
                        ),
                        Event::SpawnFailed { at, cause } => Some(
                            (at, Err(ExecutionErrorView::SpawnFailed(cause@))),
                        ),
                        _ => None,
                    }
                } else {
                    match event {
                        Event::Status { at, status } => if status_is_success(status) {
                            None
                        } else {
                            Some((at, Err(ExecutionErrorView::RequestFailed(status))))
                        },
                        Event::TransportFailed { at, cause } => Some(
                            (at, Err(ExecutionErrorView::TransportFailed(cause@))),
                        ),
                        _ => None,
                    }
                }
            },
            Phase::ReadingBody { job, status } => match event {
                Event::Body { at, body } => Some((at, response_outcome(status, body@))),
                Event::TransportFailed { at, cause } => Some(
                    (at, Err(ExecutionErrorView::TransportFailed(cause@))),
                ),
                _ => None,
            },
            _ => None,
        }
    }

    /// The scheduler after the attempt of job `job` ended at `at` with
    /// `result`: the completion time is recorded, the result is logged, and
    /// the tick goes on with the next job.
    pub open spec fn finished(
        self,
        job: int,
        at: Timestamp,
        result: Result<Seq<char>, ExecutionErrorView>,
    ) -> (RunnerModel, StepView) {
        let jobs = self.jobs.update(job, self.jobs[job].stamped(at));
        let (phase, next) = scan(jobs, job + 1, at);
        (
            RunnerModel { jobs, phase },
            StepView {
                log: seq![outcome_event(self.jobs[job].name@, result)] + next.log,
                directive: next.directive,
            },
        )
    }

    /// What the scheduler does on `event`: its next state and its answer, or
    /// `None` when the event is not one that its phase expects.
    pub open spec fn step(self, event: Event) -> Option<(RunnerModel, StepView)> {
        match (self.phase, event) {
            (Phase::Idle, Event::Wake { now }) => {
                let (phase, next) = scan(self.jobs, 0, now);
                Some((RunnerModel { jobs: self.jobs, phase }, next))
            },
            (Phase::Idle, Event::Shutdown) => Some(
                (
                    RunnerModel { jobs: self.jobs, phase: Phase::Stopped },
                    StepView {
                        log: seq![LogEventView::SchedulerStopped],
                        directive: Directive::Halt,
                    },
                ),
            ),
            (Phase::Executing { job }, Event::Status { at, status }) if self.awaits_body(event) => {
                Some(
                    (
                        RunnerModel { jobs: self.jobs, phase: Phase::ReadingBody { job, status } },
                        StepView { log: Seq::empty(), directive: Directive::ReadBody { job } },
                    ),
                )
            },
            _ => match self.completion(event) {
                Some((at, result)) => Some(
                    self.finished(self.current_job().unwrap() as int, at, result),
                ),
                None => None,
            },
        }
    }

    /// The scheduler after `event`. An event that is not expected leaves it
    /// as it is.
    pub open spec fn after(self, event: Event) -> RunnerModel {
        match self.step(event) {
            Some((post, answer)) => post,
            None => self,
        }
    }

    /// What the scheduler logs on `event`.
    pub open spec fn logged(self, event: Event) -> Seq<LogEventView> {
        match self.step(event) {
            Some((post, answer)) => answer.log,
            None => Seq::empty(),
        }
    }

    /// The scheduler after a run of events.
    pub open spec fn after_all(self, events: Seq<Event>) -> RunnerModel
        decreases events.len(),
    {
        if events.len() == 0 {
            self
        } else {
            self.after(events[0]).after_all(events.drop_first())
        }
    }

    /// Everything that the scheduler logs over a run of events, in order.
    pub open spec fn logged_over(self, events: Seq<Event>) -> Seq<LogEventView>
        decreases events.len(),
    {
        if events.len() == 0 {
            Seq::empty()
        } else {
            self.logged(events[0]) + self.after(events[0]).logged_over(events.drop_first())
        }
    }
}

/// `first_due` finds a due job, or the end, and no job before it is due.
pub proof fn lemma_first_due(jobs: Seq<JobRunner>, from: int, now: Timestamp)
    requires
        0 <= from <= jobs.len(),
    ensures
        from <= first_due(jobs, from, now) <= jobs.len(),
        first_due(jobs, from, now) < jobs.len() ==> jobs[first_due(jobs, from, now)].due_at(now),
        forall|i: int| from <= i < first_due(jobs, from, now) ==> !(#[trigger] jobs[i]).due_at(now),
    decreases jobs.len() - from,
{
    if from < jobs.len() && !jobs[from].due_at(now) {
        lemma_first_due(jobs, from + 1, now);
    }
}

/// Every step leads from a well-formed scheduler to a well-formed one, and
/// touches nothing of a runner but the time of its last attempt.
pub proof fn lemma_step_keeps_wf(pre: RunnerModel, event: Event)
    requires
        pre.wf(),
    ensures
        pre.step(event) matches Some((post, answer)) ==> {
            &&& post.wf()
            &&& post.jobs.len() == pre.jobs.len()
            &&& forall|i: int|
                0 <= i < pre.jobs.len() ==> {
                    &&& (#[trigger] post.jobs[i]).name == pre.jobs[i].name
                    &&& post.jobs[i].schedule == pre.jobs[i].schedule
                    &&& post.jobs[i].config == pre.jobs[i].config
                    &&& pre.jobs[i].wf() ==> post.jobs[i].wf()
                }
        },
{
    match pre.step(event) {
        Some((post, answer)) => {
            match event {
                Event::Wake { now } => {
                    lemma_first_due(pre.jobs, 0, now);
                },
                _ => {},
            }
            match pre.completion(event) {
                Some((at, result)) => {
                    let job = pre.current_job().unwrap() as int;
                    let jobs = pre.jobs.update(job, pre.jobs[job].stamped(at));
                    lemma_first_due(jobs, job + 1, at);
                },
                None => {},
            }
        },
        None => {},
    }
}

/// Which job is due first depends on the schedules alone, not on what the
/// runners have recorded.
pub proof fn lemma_first_due_by_schedules(
    a: Seq<JobRunner>,
    b: Seq<JobRunner>,
    from: int,
    now: Timestamp,
)
    requires
        0 <= from,
        a.len() == b.len(),
        forall|i: int| 0 <= i < a.len() ==> (#[trigger] a[i]).schedule == b[i].schedule,
    ensures
        first_due(a, from, now) == first_due(b, from, now),
    decreases a.len() - from,
{
    if from < a.len() {
        if !a[from].due_at(now) {
            lemma_first_due_by_schedules(a, b, from + 1, now);
        }
    }
}

/// A shutdown request that arrives between two ticks stops the scheduler at
/// once: no job is evaluated or started, no runner changes, the one log
/// event is `SchedulerStopped`, and the host is told to halt.
pub proof fn lemma_shutdown_between_ticks(pre: RunnerModel)
    requires
        pre.phase == Phase::Idle,
    ensures
        pre.step(Event::Shutdown) == Some(
            (
                RunnerModel { jobs: pre.jobs, phase: Phase::Stopped },
                StepView { log: seq![LogEventView::SchedulerStopped], directive: Directive::Halt },
            ),
        ),
{
}

/// A stopped scheduler expects no event: whatever the host reports, nothing
/// is logged, nothing is started and nothing changes.
pub proof fn lemma_stopped_is_terminal(pre: RunnerModel, event: Event)
    requires
        pre.phase == Phase::Stopped,
    ensures
        pre.step(event) is None,
{
}

/// Only the job whose attempt just ended gets a new record, and only a job
/// that is due at the instant of the event is started. So a job that is
/// evaluated while it is not due is neither executed nor changed.
pub proof fn lemma_not_due_not_run(pre: RunnerModel, event: Event, i: usize)
    requires
        pre.wf(),
        i < pre.jobs.len(),
        pre.current_job() != Some(i),
        event.instant() matches Some(now) ==> !pre.jobs[i as int].due_at(now),
    ensures
        pre.step(event) matches Some((post, answer)) ==> {
            &&& post.jobs[i as int] == pre.jobs[i as int]
            &&& answer.directive != Directive::Execute { job: i }
            &&& post.current_job() != Some(i)
        },
{
    match pre.step(event) {
        Some((post, answer)) => {
            match event {
                Event::Wake { now } => {
                    lemma_first_due(pre.jobs, 0, now);
                },
                _ => {},
            }
            match pre.completion(event) {
                Some((at, result)) => {
                    let job = pre.current_job().unwrap() as int;
                    let jobs = pre.jobs.update(job, pre.jobs[job].stamped(at));
                    lemma_first_due(jobs, job + 1, at);
                },
                None => {},
            }
        },
        None => {},
    }
}

/// When an attempt ends, its completion time is recorded and its result is
/// logged, whatever the result is; then the tick goes on with the first
/// later job that is due. A failure of one job therefore never keeps a later
/// due job of the same tick from being started.
pub proof fn lemma_tick_goes_on(pre: RunnerModel, event: Event)
    requires
        pre.wf(),
        pre.completion(event) is Some,
    ensures
        ({
            let job = pre.current_job().unwrap() as int;
            let (at, result) = pre.completion(event).unwrap();
            let next = first_due(pre.jobs, job + 1, at);
            let reported = outcome_event(pre.jobs[job].name@, result);
            &&& pre.step(event) matches Some((post, answer))
            &&& post.jobs == pre.jobs.update(job, pre.jobs[job].stamped(at))
            &&& job < next <= pre.jobs.len()
            &&& next < pre.jobs.len() ==> {
                &&& pre.jobs[next].due_at(at)
                &&& post.phase == Phase::Executing { job: next as usize }
                &&& answer.directive == Directive::Execute { job: next as usize }
                &&& answer.log == seq![
                    reported,
                    LogEventView::JobStarted { name: pre.jobs[next].name@ },
                ]
            }
            &&& next == pre.jobs.len() ==> {
                &&& post.phase == Phase::Idle
                &&& answer.directive == Directive::Sleep { seconds: POLL_INTERVAL_SECS }
                &&& answer.log == seq![reported]
            }
        }),
{
    let job = pre.current_job().unwrap() as int;
    let (at, result) = pre.completion(event).unwrap();
    let jobs = pre.jobs.update(job, pre.jobs[job].stamped(at));
    lemma_first_due_by_schedules(jobs, pre.jobs, job + 1, at);
    lemma_first_due(pre.jobs, job + 1, at);
}

/// A request that was answered with success yields the body that is read
/// afterwards; a request answered with any other status fails with that
/// status and its body is never asked for.
pub proof fn lemma_request_outcomes(pre: RunnerModel, event: Event)
    requires
        pre.wf(),
    ensures
        pre.phase is ReadingBody ==> (event matches Event::Body { at, body } ==> pre.completion(
            event,
        ) == Some((at, Ok::<Seq<char>, ExecutionErrorView>(body@)))),
        pre.phase is Executing ==> (event matches Event::Status { at, status } ==> {
            let job = pre.jobs[pre.phase->Executing_job as int];
            let answer = pre.step(event);
            if job.config@.kind() == JobKind::Command {
                answer is None
            } else if status_is_success(status) {
                &&& answer is Some
                &&& answer.unwrap().0.jobs == pre.jobs
                &&& answer.unwrap().1.directive == (Directive::ReadBody {
                    job: pre.phase->Executing_job,
                })
                &&& answer.unwrap().1.log.len() == 0
            } else {
                &&& pre.completion(event) == Some(
                    (at, Err::<Seq<char>, ExecutionErrorView>(ExecutionErrorView::RequestFailed(status))),
                )
                &&& answer is Some
                &&& answer.unwrap().1.directive != (Directive::ReadBody {
                    job: pre.phase->Executing_job,
                })
            }
        }),
{
    match event {
        Event::Status { at, status } => {
            match pre.completion(event) {
                Some((at, result)) => {
                    let job = pre.current_job().unwrap() as int;
                    let jobs = pre.jobs.update(job, pre.jobs[job].stamped(at));
                    lemma_first_due(jobs, job + 1, at);
                },
                None => {},
            }
        },
        _ => {},
    }
}

/// What the tick does after an attempt does not depend on how the attempt
/// went: two reports of the same instant lead to the same phase and the same
/// directive.
pub proof fn lemma_result_does_not_steer(pre: RunnerModel, first: Event, second: Event)
    requires
        pre.wf(),
        pre.completion(first) is Some,
        pre.completion(second) is Some,
        first.instant() == second.instant(),
    ensures
        pre.step(first).unwrap().0 == pre.step(second).unwrap().0,
        pre.step(first).unwrap().1.directive == pre.step(second).unwrap().1.directive,
{
}

/// A tick that starts at `now` starts the first job that is due at `now`, in
/// the order of the collection, and changes no runner; when no job is due it
/// ends at once and the scheduler sleeps for the poll interval.
pub proof fn lemma_tick_starts_first_due(pre: RunnerModel, now: Timestamp)
    requires
        pre.wf(),
        pre.phase == Phase::Idle,
    ensures
        ({
            let next = first_due(pre.jobs, 0, now);
            &&& pre.step(Event::Wake { now }) matches Some((post, answer))
            &&& post.jobs == pre.jobs
            &&& 0 <= next <= pre.jobs.len()
            &&& forall|i: int| 0 <= i < next ==> !(#[trigger] pre.jobs[i]).due_at(now)
            &&& next < pre.jobs.len() ==> {
                &&& pre.jobs[next].due_at(now)
                &&& post.phase == Phase::Executing { job: next as usize }
                &&& answer.directive == Directive::Execute { job: next as usize }
                &&& answer.log == seq![LogEventView::JobStarted { name: pre.jobs[next].name@ }]
            }
            &&& next == pre.jobs.len() ==> {
                &&& post.phase == Phase::Idle
                &&& answer.directive == Directive::Sleep { seconds: POLL_INTERVAL_SECS }
                &&& answer.log == Seq::<LogEventView>::empty()
            }
        }),
{
    lemma_first_due(pre.jobs, 0, now);
}

/// Whatever the host reports, and in whatever order, a well-formed scheduler
/// stays well-formed and keeps its jobs: their number, order, names,
/// schedules and actions never change.
pub proof fn lemma_run_keeps_jobs(pre: RunnerModel, events: Seq<Event>)
    requires
        pre.wf(),
    ensures
        pre.after_all(events).wf(),
        pre.after_all(events).jobs.len() == pre.jobs.len(),
        forall|i: int|
            0 <= i < pre.jobs.len() ==> {
                &&& (#[trigger] pre.after_all(events).jobs[i]).name == pre.jobs[i].name
                &&& pre.after_all(events).jobs[i].schedule == pre.jobs[i].schedule
                &&& pre.after_all(events).jobs[i].config == pre.jobs[i].config
            },
    decreases events.len(),
{
    if events.len() > 0 {
        lemma_step_keeps_wf(pre, events[0]);
        lemma_run_keeps_jobs(pre.after(events[0]), events.drop_first());
    }
}

/// Nothing happens in a stopped scheduler, however long the host goes on
/// reporting: the scheduler stays as it is and logs nothing.
pub proof fn lemma_nothing_after_stop(pre: RunnerModel, events: Seq<Event>)
    requires
        pre.phase == Phase::Stopped,
    ensures
        pre.after_all(events) == pre,
        pre.logged_over(events) == Seq::<LogEventView>::empty(),
    decreases events.len(),
{
    if events.len() > 0 {
        lemma_stopped_is_terminal(pre, events[0]);
        lemma_nothing_after_stop(pre, events.drop_first());
    }
}

/// Once a shutdown request has been taken in between two ticks, no job is
/// started any more: over the rest of the run the scheduler logs
/// `SchedulerStopped` and nothing else, and no runner changes.
pub proof fn lemma_nothing_follows_shutdown(pre: RunnerModel, later: Seq<Event>)
    requires
        pre.phase == Phase::Idle,
    ensures
        pre.after_all(seq![Event::Shutdown] + later) == (RunnerModel {
            jobs: pre.jobs,
            phase: Phase::Stopped,
        }),
        pre.logged_over(seq![Event::Shutdown] + later) == seq![LogEventView::SchedulerStopped],
{
    let events = seq![Event::Shutdown] + later;
    let stopped = RunnerModel { jobs: pre.jobs, phase: Phase::Stopped };
    assert(events.drop_first() =~= later);
    lemma_shutdown_between_ticks(pre);
    lemma_nothing_after_stop(stopped, later);
}

} // verus!
