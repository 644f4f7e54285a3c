//! Job definitions: what a job is called, when it runs and what it does.

use vstd::hash_map::StringHashMap;
use vstd::prelude::*;

use crate::utils::{expand_env_vars, expanded};

verus! {

/// The whole set of job definitions.
#[derive(Debug, PartialEq, Eq)]
pub struct Config {
    pub jobs: Vec<Job>,
}

/// One job definition.
#[derive(Debug, PartialEq, Eq)]
pub struct Job {
    pub name: String,
    pub schedule: String,
    pub kind: JobKind,
    pub config: JobConfig,
    pub outputs: Vec<Output>,
}

#[derive(Debug, Clone, Copy, PartialEq, Eq, Structural)]
pub enum HttpMethod {
    Get,
    Post,
    Put,
    Delete,
    Patch,
    Head,
}

/// What a job does: run a shell command, or send an HTTP request.
///
/// Headers are `(name, value)` pairs in the order in which they are sent.
#[derive(Debug, PartialEq, Eq)]
pub enum JobConfig {
    Command { command: String },
    Request {
        method: HttpMethod,
        url: String,
        body: Option<String>,
        headers: Option<Vec<(String, String)>>,
    },
}

#[derive(Debug, Clone, Copy, PartialEq, Eq, Structural)]
pub enum JobKind {
    Command,
    Request,
}

/// Where the output of a job is delivered.
#[derive(Debug, PartialEq, Eq)]
pub struct Output {
    pub kind: OutputKind,
}

#[derive(Debug, PartialEq, Eq)]
pub enum OutputKind {
    File { path: String },
    Request { url: String },
}

/// The text of a list of headers.
pub open spec fn headers_view(headers: Seq<(String, String)>) -> Seq<(Seq<char>, Seq<char>)> {
    Seq::new(headers.len(), |i: int| (headers[i].0@, headers[i].1@))
}

/// A job's action as plain text.
pub enum JobConfigView {
    Command { command: Seq<char> },
    Request {
        method: HttpMethod,
        url: Seq<char>,
        body: Option<Seq<char>>,
        headers: Option<Seq<(Seq<char>, Seq<char>)>>,
    },
}

impl View for JobConfig {
    type V = JobConfigView;

    open spec fn view(&self) -> JobConfigView {
        match *self {
            JobConfig::Command { command } => JobConfigView::Command { command: command@ },
            JobConfig::Request { method, url, body, headers } => JobConfigView::Request {
                method,
                url: url@,
                body: match body {
                    Some(text) => Some(text@),
                    None => None,
                },
                headers: match headers {
                    Some(list) => Some(headers_view(list@)),
                    None => None,
                },
            },
        }
    }
}

impl JobConfigView {
    /// The kind of action this is.
    pub open spec fn kind(self) -> JobKind {
        match self {
            JobConfigView::Command { .. } => JobKind::Command,
            JobConfigView::Request { .. } => JobKind::Request,
        }
    }

    /// The action with every `${NAME}` in the request body and in the header
    /// values replaced. Commands, URLs and header names are left as they are.
    pub open spec fn expand(self, vars: Map<Seq<char>, String>) -> JobConfigView {
        match self {
            JobConfigView::Command { command } => self,
            JobConfigView::Request { method, url, body, headers } => JobConfigView::Request {
                method,
                url,
                body: match body {
                    Some(text) => Some(expanded(text, vars)),
                    None => None,
                },
                headers: match headers {
                    Some(list) => Some(expand_header_values(list, vars)),
                    None => None,
                },
            },
        }
    }
}

/// A list of headers with every value expanded.
pub open spec fn expand_header_values(
    headers: Seq<(Seq<char>, Seq<char>)>,
    vars: Map<Seq<char>, String>,
) -> Seq<(Seq<char>, Seq<char>)> {
    Seq::new(headers.len(), |i: int| (headers[i].0, expanded(headers[i].1, vars)))
}

impl JobConfig {
    /// Whether this is a command or a request.
    pub fn kind(&self) -> (kind: JobKind)
        ensures
            kind == self@.kind(),
    {
        match self {
            JobConfig::Command { .. } => JobKind::Command,
            JobConfig::Request { .. } => JobKind::Request,
        }
    }

    /// Replaces `${NAME}` references in the request body and in the header
    /// values by the values of `env_vars`.
    pub fn expand_env(self, env_vars: &StringHashMap<String>) -> (out: JobConfig)
        ensures
            out@ == self@.expand(env_vars@),
    {
        match self {
            JobConfig::Command { command } => JobConfig::Command { command },
            JobConfig::Request { method, url, body, headers } => {
                let body = match body {
                    Some(text) => Some(expand_env_vars(text.as_str(), env_vars)),
                    None => None,
                };
                let headers = match headers {
                    Some(list) => Some(expand_headers(list, env_vars)),
                    None => None,
                };
                JobConfig::Request { method, url, body, headers }
            },
        }
    }
}

/// Expands the value of every header; names and order stay.
fn expand_headers(headers: Vec<(String, String)>, env_vars: &StringHashMap<String>) -> (out: Vec<
    (String, String),
>)
    ensures
        headers_view(out@) == expand_header_values(headers_view(headers@), env_vars@),
{
    let mut out: Vec<(String, String)> = Vec::new();
    for header in it: headers
        invariant
            it.seq() == headers@,
            out.len() == it.index(),
            forall|k: int|
                0 <= k < out.len() ==> out[k].0@ == headers[k].0@ && out[k].1@ == expanded(
                    headers[k].1@,
                    env_vars@,
                ),
    {
        let (name, value) = header;
        let value = expand_env_vars(value.as_str(), env_vars);
        out.push((name, value));
    }
    out
}

impl Config {
    /// What `expand_env` makes of a job: only its action changes.
    pub open spec fn job_expanded(before: Job, after: Job, vars: Map<Seq<char>, String>) -> bool {
        &&& after.name == before.name
        &&& after.schedule == before.schedule
        &&& after.kind == before.kind
        &&& after.outputs == before.outputs
        &&& after.config@ == before.config@.expand(vars)
    }

    /// Replaces `${NAME}` references in every job's request body and header
    /// values. Jobs keep their order, names, schedules and outputs.
    pub fn expand_env(self, env_vars: &StringHashMap<String>) -> (out: Config)
        ensures
            out.jobs.len() == self.jobs.len(),
            forall|i: int|
                0 <= i < self.jobs.len() ==> Config::job_expanded(
                    self.jobs[i],
                    #[trigger] out.jobs[i],
                    env_vars@,
                ),
    {
        let mut jobs: Vec<Job> = Vec::new();
        for job in it: self.jobs
            invariant
                it.seq() == self.jobs@,
                jobs.len() == it.index(),
                forall|k: int|
                    0 <= k < jobs.len() ==> Config::job_expanded(
                        self.jobs[k],
                        #[trigger] jobs[k],
                        env_vars@,
                    ),
        {
            let Job { name, schedule, kind, config, outputs } = job;
            let config = config.expand_env(env_vars);
            jobs.push(Job { name, schedule, kind, config, outputs });
        }
        Config { jobs }
    }
}

} // verus!
