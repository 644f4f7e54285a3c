//! Cron schedules: parsing an expression and asking whether an instant is
//! one of its trigger instants.
//!
//! Parsing and matching are done by the `cron` crate. This module states what
//! the library relies on and builds the schedule matcher on top of it.

use std::str::FromStr;
use vstd::prelude::*;

verus! {

/// A parsed cron expression, as the `cron` crate represents it.
#[verifier::external_type_specification]
#[verifier::external_body]
pub struct ExSchedule(cron::Schedule);

/// The reason the `cron` crate gives for rejecting an expression.
#[verifier::external_type_specification]
#[verifier::external_body]
pub struct ExCronError(cron::error::Error);

/// What parsing a cron expression yields: the schedule, or `None` when the
/// expression is not one the grammar accepts.
pub uninterp spec fn cron_parse(expression: Seq<char>) -> Option<cron::Schedule>;

/// Whether a schedule includes the instant `unix_seconds` (seconds since the
/// Unix epoch, UTC), or `None` when the calendar cannot represent the instant.
pub uninterp spec fn cron_includes(schedule: cron::Schedule, unix_seconds: i64) -> Option<bool>;

/// Parses a cron expression.
///
/// Trusted: wraps `<cron::Schedule as FromStr>::from_str`. The parser is a
/// function of the expression's text alone, so its outcome is named
/// `cron_parse`: the schedule on success, nothing on rejection.
#[verifier::external_body]
fn parse_schedule(expression: &str) -> (parsed: Result<cron::Schedule, cron::error::Error>)
    ensures
        match parsed {
            Ok(schedule) => cron_parse(expression@) == Some(schedule),
            Err(_) => cron_parse(expression@) is None,
        },
{
    cron::Schedule::from_str(expression)
}

/// Asks a schedule whether it includes an instant.
///
/// Trusted: wraps `cron::Schedule::includes`, which compares the calendar
/// fields (year down to second, in UTC) of the instant with the fields of the
/// schedule. The instant is built by `chrono::DateTime::from_timestamp`, which
/// returns `None` for seconds outside the calendar's range. The answer is a
/// function of the schedule and the seconds alone and is named `cron_includes`.
#[verifier::external_body]
fn schedule_includes(schedule: &cron::Schedule, unix_seconds: i64) -> (answer: Option<bool>)
    ensures
        answer == cron_includes(*schedule, unix_seconds),
{
    let at = chrono::DateTime::from_timestamp(unix_seconds, 0)?;
    Some(schedule.includes(at))
}

/// An instant, in whole seconds since the Unix epoch (UTC).
#[derive(Debug, Clone, Copy, PartialEq, Eq, Structural)]
pub struct Timestamp {
    pub unix_seconds: i64,
}

/// A cron expression that no schedule can be made of.
#[derive(Debug, PartialEq, Eq)]
pub struct InvalidScheduleError {
    /// The rejected expression.
    pub expression: String,
}

impl InvalidScheduleError {
    /// The text of the error: the rejected expression and the fields that a
    /// cron expression is made of.
    pub open spec fn message_text(&self) -> Seq<char> {
        "Invalid cron schedule: '"@ + self.expression@
            + "'\n-> Usage: sec min hour day_of_month month day_of_week year"@
    }

    /// Describes the error for a reader.
    pub fn message(&self) -> (text: String)
        ensures
            text@ == self.message_text(),
    {
        let mut text = "Invalid cron schedule: '".to_owned();
        text.append(self.expression.as_str());
        text.append("'\n-> Usage: sec min hour day_of_month month day_of_week year");
        text
    }
}

/// A cron expression together with its parsed form.
#[derive(Debug, PartialEq, Eq)]
pub struct ScheduleMatcher {
    pub expression: String,
    pub schedule: cron::Schedule,
}

/// Whether an answer about an instant means "due". An instant that the
/// calendar cannot represent is never due.
#[verifier::allow_in_spec]
pub fn answer_is_due(answer: Option<bool>) -> bool
    returns
        answer == Some(true),
{
    match answer {
        Some(included) => included,
        None => false,
    }
}

impl ScheduleMatcher {
    /// The matcher's schedule is the parsed form of its expression.
    pub open spec fn wf(&self) -> bool {
        cron_parse(self.expression@) == Some(self.schedule)
    }

    /// Whether `now` is a trigger instant of the schedule.
    pub open spec fn triggers_at(&self, now: Timestamp) -> bool {
        answer_is_due(cron_includes(self.schedule, now.unix_seconds))
    }

    /// Pairs an expression with the outcome of parsing it: a matcher for a
    /// schedule, the rejected expression otherwise.
    pub fn from_parsed(
        expression: String,
        parsed: Result<cron::Schedule, cron::error::Error>,
    ) -> (matcher: Result<ScheduleMatcher, InvalidScheduleError>)
        ensures
            match parsed {
                Ok(schedule) => matcher == Ok::<ScheduleMatcher, InvalidScheduleError>(
                    ScheduleMatcher { expression, schedule },
                ),
                Err(_) => matcher == Err::<ScheduleMatcher, InvalidScheduleError>(
                    InvalidScheduleError { expression },
                ),
            },
    {
        match parsed {
            Ok(schedule) => Ok(ScheduleMatcher { expression, schedule }),
            Err(_) => Err(InvalidScheduleError { expression }),
        }
    }

    /// Parses `expression`. Succeeds exactly on the expressions that the cron
    /// grammar accepts; otherwise hands the expression back in the error.
    pub fn new(expression: String) -> (matcher: Result<ScheduleMatcher, InvalidScheduleError>)
        ensures
            match cron_parse(expression@) {
                Some(schedule) => matcher == Ok::<ScheduleMatcher, InvalidScheduleError>(
                    ScheduleMatcher { expression, schedule },
                ),
                None => matcher == Err::<ScheduleMatcher, InvalidScheduleError>(
                    InvalidScheduleError { expression },
                ),
            },
            matcher is Ok ==> matcher->Ok_0.wf(),
    {
        let parsed = parse_schedule(expression.as_str());
        ScheduleMatcher::from_parsed(expression, parsed)
    }

    /// Whether `now` is a trigger instant of the schedule. The answer depends
    /// on the schedule and on `now` alone: asking again gives the same answer.
    pub fn is_due(&self, now: Timestamp) -> (due: bool)
        ensures
            due == self.triggers_at(now),
    {
        answer_is_due(schedule_includes(&self.schedule, now.unix_seconds))
    }
}

/// Asking a matcher twice about the same instant gives the same answer:
/// any two results that `is_due` can return for one matcher and one instant
/// are equal.
pub proof fn lemma_is_due_is_deterministic(
    matcher: ScheduleMatcher,
    now: Timestamp,
    first: bool,
    second: bool,
)
    requires
        call_ensures(ScheduleMatcher::is_due, (&matcher, now), first),
        call_ensures(ScheduleMatcher::is_due, (&matcher, now), second),
    ensures
        first == second,
{
}

} // verus!
