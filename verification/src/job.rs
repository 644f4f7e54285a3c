//! Job runners: a job definition paired with its schedule and run history,
//! and the interpretation of what an execution attempt reported.

use vstd::prelude::*;
use vstd::utf8::{decode_utf8, valid_utf8};

use crate::config::JobConfig;
use crate::schedule::{cron_parse, InvalidScheduleError, ScheduleMatcher, Timestamp};
use crate::text::{decimal, decode_lossy, push_decimal, utf8_lossy};

verus! {

/// Why an execution attempt did not yield output.
#[derive(Debug, PartialEq, Eq)]
pub enum ExecutionError {
    /// The command exited with a non-zero status; holds what it wrote to
    /// standard error.
    CommandFailed(String),
    /// The server answered with a status outside 200..=299; holds the status.
    RequestFailed(u16),
    /// The request could not be carried out; holds the cause.
    TransportFailed(String),
    /// The shell could not be started; holds the cause.
    SpawnFailed(String),
}

/// An execution error as plain text.
pub enum ExecutionErrorView {
    CommandFailed(Seq<char>),
    RequestFailed(u16),
    TransportFailed(Seq<char>),
    SpawnFailed(Seq<char>),
}

impl View for ExecutionError {
    type V = ExecutionErrorView;

    open spec fn view(&self) -> ExecutionErrorView {
        match *self {
            ExecutionError::CommandFailed(stderr) => ExecutionErrorView::CommandFailed(stderr@),
            ExecutionError::RequestFailed(status) => ExecutionErrorView::RequestFailed(status),
            ExecutionError::TransportFailed(cause) => ExecutionErrorView::TransportFailed(cause@),
            ExecutionError::SpawnFailed(cause) => ExecutionErrorView::SpawnFailed(cause@),
        }
    }
}

impl ExecutionErrorView {
    /// The text that describes the error.
    pub open spec fn message(self) -> Seq<char> {
        match self {
            ExecutionErrorView::CommandFailed(stderr) => "Command failed: "@ + stderr,
            ExecutionErrorView::RequestFailed(status) => "Request failed with status: "@
                + decimal(status as nat),
            ExecutionErrorView::TransportFailed(cause) => cause,
            ExecutionErrorView::SpawnFailed(cause) => cause,
        }
    }
}

impl ExecutionError {
    /// Describes the error for a reader.
    pub fn message(&self) -> (text: String)
        ensures
            text@ == self@.message(),
    {
        match self {
            ExecutionError::CommandFailed(stderr) => {
                let mut text = "Command failed: ".to_owned();
                text.append(stderr.as_str());
                text
            },
            ExecutionError::RequestFailed(status) => {
                let mut text = "Request failed with status: ".to_owned();
                push_decimal(&mut text, *status);
                text
            },
            ExecutionError::TransportFailed(cause) => cause.clone(),
            ExecutionError::SpawnFailed(cause) => cause.clone(),
        }
    }
}

/// The family of operating systems that the host belongs to.
#[derive(Debug, Clone, Copy, PartialEq, Eq, Structural)]
pub enum HostFamily {
    Windows,
    Unix,
}

/// A program and its arguments.
#[derive(Debug, PartialEq, Eq)]
pub struct ShellInvocation {
    pub program: String,
    pub args: Vec<String>,
}

/// The host's default shell.
pub open spec fn shell_program(family: HostFamily) -> Seq<char> {
    match family {
        HostFamily::Windows => "cmd"@,
        HostFamily::Unix => "sh"@,
    }
}

/// The flag that tells the shell to run its next argument as a command.
pub open spec fn shell_flag(family: HostFamily) -> Seq<char> {
    match family {
        HostFamily::Windows => "/C"@,
        HostFamily::Unix => "-c"@,
    }
}

/// How to run `command` through the host's default shell: `cmd /C` on
/// Windows, `sh -c` elsewhere, with the command as the one further argument.
pub fn shell_invocation(family: HostFamily, command: &str) -> (invocation: ShellInvocation)
    ensures
        invocation.program@ == shell_program(family),
        invocation.args@.len() == 2,
        invocation.args@[0]@ == shell_flag(family),
        invocation.args@[1]@ == command@,
{
    let (program, flag) = match family {
        HostFamily::Windows => ("cmd", "/C"),
        HostFamily::Unix => ("sh", "-c"),
    };
    let mut args: Vec<String> = Vec::new();
    args.push(flag.to_owned());
    args.push(command.to_owned());
    ShellInvocation { program: program.to_owned(), args }
}

/// What the host observed of one execution attempt.
#[derive(Debug, PartialEq, Eq)]
pub enum Outcome {
    /// The shell ran the command to its end.
    Exited { success: bool, stdout: Vec<u8>, stderr: Vec<u8> },
    /// The shell could not be started.
    SpawnFailed { cause: String },
    /// The server answered. `body` matters only for a status in 200..=299.
    Responded { status: u16, body: String },
    /// No answer could be had from the server.
    TransportFailed { cause: String },
}

/// The result of an attempt as plain text.
pub open spec fn result_view(result: Result<String, ExecutionError>) -> Result<
    Seq<char>,
    ExecutionErrorView,
> {
    match result {
        Ok(output) => Ok(output@),
        Err(error) => Err(error@),
    }
}

/// What a finished command amounts to.
pub open spec fn command_outcome(success: bool, stdout: Seq<char>, stderr: Seq<char>) -> Result<
    Seq<char>,
    ExecutionErrorView,
> {
    if success {
        Ok(stdout)
    } else {
        Err(ExecutionErrorView::CommandFailed(stderr))
    }
}

/// Whether an HTTP status code reports success.
#[verifier::allow_in_spec]
pub fn status_is_success(status: u16) -> bool
    returns
        200 <= status < 300,
{
    200 <= status && status < 300
}

/// What an answered request amounts to.
pub open spec fn response_outcome(status: u16, body: Seq<char>) -> Result<
    Seq<char>,
    ExecutionErrorView,
> {
    if status_is_success(status) {
        Ok(body)
    } else {
        Err(ExecutionErrorView::RequestFailed(status))
    }
}

/// What an execution attempt amounts to: its output, or why there is none.
pub open spec fn interpret(outcome: Outcome) -> Result<Seq<char>, ExecutionErrorView> {
    match outcome {
        Outcome::Exited { success, stdout, stderr } => command_outcome(
            success,
            utf8_lossy(stdout@),
            utf8_lossy(stderr@),
        ),
        Outcome::SpawnFailed { cause } => Err(ExecutionErrorView::SpawnFailed(cause@)),
        Outcome::Responded { status, body } => response_outcome(status, body@),
        Outcome::TransportFailed { cause } => Err(ExecutionErrorView::TransportFailed(cause@)),
    }
}

/// What is known of a command's result where its output is valid UTF-8: the
/// text is exactly what the bytes encode.
pub open spec fn exact_on_valid_utf8(
    outcome: Outcome,
    result: Result<Seq<char>, ExecutionErrorView>,
) -> bool {
    outcome matches Outcome::Exited { success, stdout, stderr } ==> {
        &&& success && valid_utf8(stdout@) ==> result == Ok::<Seq<char>, ExecutionErrorView>(
            decode_utf8(stdout@),
        )
        &&& !success && valid_utf8(stderr@) ==> result == Err::<Seq<char>, ExecutionErrorView>(
            ExecutionErrorView::CommandFailed(decode_utf8(stderr@)),
        )
    }
}

/// The result of a finished command, given what it wrote as text: on exit
/// status zero its standard output, otherwise `CommandFailed` with its
/// standard error.
pub fn command_result(success: bool, stdout: String, stderr: String) -> (result: Result<
    String,
    ExecutionError,
>)
    ensures
        result_view(result) == command_outcome(success, stdout@, stderr@),
{
    if success {
        Ok(stdout)
    } else {
        Err(ExecutionError::CommandFailed(stderr))
    }
}

/// The result of an answered request: the body for a status in 200..=299,
/// otherwise `RequestFailed` with the status.
pub fn response_result(status: u16, body: String) -> (result: Result<String, ExecutionError>)
    ensures
        result_view(result) == response_outcome(status, body@),
{
    if status_is_success(status) {
        Ok(body)
    } else {
        Err(ExecutionError::RequestFailed(status))
    }
}

/// Turns what the host observed of an attempt into the attempt's result.
/// Command output is decoded as UTF-8, with invalid bytes replaced.
pub fn outcome_result(outcome: Outcome) -> (result: Result<String, ExecutionError>)
    ensures
        result_view(result) == interpret(outcome),
        exact_on_valid_utf8(outcome, result_view(result)),
{
    match outcome {
        Outcome::Exited { success, stdout, stderr } => {
            let stdout = decode_lossy(stdout.as_slice());
            let stderr = decode_lossy(stderr.as_slice());
            command_result(success, stdout, stderr)
        },
        Outcome::SpawnFailed { cause } => Err(ExecutionError::SpawnFailed(cause)),
        Outcome::Responded { status, body } => response_result(status, body),
        Outcome::TransportFailed { cause } => Err(ExecutionError::TransportFailed(cause)),
    }
}

/// A job admitted to the scheduler: its definition, its schedule and when an
/// execution attempt last completed.
#[derive(Debug, PartialEq, Eq)]
pub struct JobRunner {
    pub name: String,
    pub schedule: ScheduleMatcher,
    pub config: JobConfig,
    pub last_run: Option<Timestamp>,
}

impl JobRunner {
    /// The runner's schedule is the parsed form of its cron expression.
    pub open spec fn wf(&self) -> bool {
        self.schedule.wf()
    }

    /// Whether the job is due at `now`.
    pub open spec fn due_at(&self, now: Timestamp) -> bool {
        self.schedule.triggers_at(now)
    }

    /// The runner after an attempt that completed at `at`.
    pub open spec fn stamped(self, at: Timestamp) -> JobRunner {
        JobRunner { last_run: Some(at), ..self }
    }

    /// Admits a job. Fails exactly when `schedule` is not a cron expression;
    /// a new runner has never run.
    pub fn new(name: String, schedule: String, config: JobConfig) -> (runner: Result<
        JobRunner,
        InvalidScheduleError,
    >)
        ensures
            match cron_parse(schedule@) {
                Some(parsed) => runner == Ok::<JobRunner, InvalidScheduleError>(
                    JobRunner {
                        name,
                        schedule: ScheduleMatcher { expression: schedule, schedule: parsed },
                        config,
                        last_run: None,
                    },
                ),
                None => runner == Err::<JobRunner, InvalidScheduleError>(
                    InvalidScheduleError { expression: schedule },
                ),
            },
            runner is Ok ==> runner->Ok_0.wf(),
    {
        match ScheduleMatcher::new(schedule) {
            Ok(schedule) => Ok(JobRunner { name, schedule, config, last_run: None }),
            Err(error) => Err(error),
        }
    }

    /// Whether the job is due at `now`. Nothing is recorded or changed.
    pub fn should_run(&self, now: Timestamp) -> (due: bool)
        ensures
            due == self.due_at(now),
    {
        self.schedule.is_due(now)
    }

    /// Records an execution attempt that completed at `completed_at` and
    /// returns its result. The completion time is recorded whatever the
    /// outcome was, and a failure is handed on as it is.
    pub fn execute(&mut self, outcome: Outcome, completed_at: Timestamp) -> (result: Result<
        String,
        ExecutionError,
    >)
        ensures
            *final(self) == old(self).stamped(completed_at),
            result_view(result) == interpret(outcome),
            exact_on_valid_utf8(outcome, result_view(result)),
    {
        self.last_run = Some(completed_at);
        outcome_result(outcome)
    }
}

} // verus!
