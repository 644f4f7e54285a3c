//! A cron-driven job scheduler core: a registry of jobs with cron schedules,
//! the per-tick decision of which jobs are due, the interpretation of what a
//! shell command or an HTTP request reported, and the shutdown protocol.
//!
//! The library never performs side effects itself. It tells its host what to
//! do next (run a job, read a response body, sleep, halt) and is told what
//! happened; every decision in between is verified.
//!
//! - [`config`]: job definitions.
//! - [`utils`]: expansion of `${NAME}` references.
//! - [`schedule`]: cron expressions and the schedule matcher.
//! - [`job`]: job runners and the result of an execution attempt.
//! - [`protocol`]: the scheduler's state machine and what holds of every run.
//! - [`runner`]: the scheduler itself.
//! - [`text`]: string helpers.

pub mod config;
pub mod job;
pub mod protocol;
pub mod runner;
pub mod schedule;
pub mod text;
pub mod utils;
