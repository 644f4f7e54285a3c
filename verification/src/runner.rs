//! The scheduler: an ordered collection of job runners, driven by its host
//! through the protocol of [`crate::protocol`].

use vstd::prelude::*;

use crate::config::{Config, Job, JobKind};
use crate::job::{interpret, status_is_success, JobRunner, Outcome};
use crate::protocol::{
    first_due, lemma_step_keeps_wf, log_view, outcome_event, scan, Directive, Event, LogEvent,
    LogEventView, Phase, RunnerModel, RunnerState, Step, POLL_INTERVAL_SECS,
};
use crate::schedule::{cron_parse, InvalidScheduleError, ScheduleMatcher, Timestamp};

verus! {

/// Index of the first job at or after `from` whose schedule is not a cron
/// expression, or the number of jobs when all are.
pub open spec fn first_rejected(jobs: Seq<Job>, from: int) -> int
    decreases jobs.len() - from,
{
    if from >= jobs.len() {
        jobs.len() as int
    } else if cron_parse(jobs[from].schedule@) is None {
        from
    } else {
        first_rejected(jobs, from + 1)
    }
}

/// `first_rejected` finds a job whose schedule is not a cron expression, or
/// the end, and every job before it has a schedule that is one.
pub proof fn lemma_first_rejected(jobs: Seq<Job>, from: int)
    requires
        0 <= from <= jobs.len(),
    ensures
        from <= first_rejected(jobs, from) <= jobs.len(),
        first_rejected(jobs, from) < jobs.len() ==> cron_parse(
            jobs[first_rejected(jobs, from)].schedule@,
        ) is None,
        forall|i: int|
            from <= i < first_rejected(jobs, from) ==> cron_parse(
                (#[trigger] jobs[i]).schedule@,
            ) is Some,
    decreases jobs.len() - from,
{
    if from < jobs.len() && cron_parse(jobs[from].schedule@) is Some {
        lemma_first_rejected(jobs, from + 1);
    }
}

/// One job whose schedule is not a cron expression is enough for the whole
/// set to be rejected: then no scheduler is made of it, and so no job of the
/// set is ever admitted.
pub proof fn lemma_one_bad_schedule_rejects_all(jobs: Seq<Job>, bad: int)
    requires
        0 <= bad < jobs.len(),
        cron_parse(jobs[bad].schedule@) is None,
    ensures
        first_rejected(jobs, 0) <= bad,
{
    lemma_first_rejected(jobs, 0);
}

/// The runner that a job with a valid schedule is admitted as.
pub open spec fn admitted(job: Job) -> JobRunner {
    JobRunner {
        name: job.name,
        schedule: ScheduleMatcher {
            expression: job.schedule,
            schedule: cron_parse(job.schedule@).unwrap(),
        },
        config: job.config,
        last_run: None,
    }
}

/// The scheduler: an ordered collection of job runners and a phase.
///
/// The collection is changed only through `&mut self`, so whoever drives the
/// scheduler has it to itself for the whole of a step. A scheduler is always
/// well-formed ([`RunnerModel::wf`]).
#[derive(Debug)]
pub struct Runner {
    jobs: Vec<JobRunner>,
    phase: Phase,
}

impl View for Runner {
    type V = RunnerModel;

    closed spec fn view(&self) -> RunnerModel {
        RunnerModel { jobs: self.jobs@, phase: self.phase }
    }
}

impl Runner {
    #[verifier::type_invariant]
    spec fn inv(self) -> bool {
        self@.wf()
    }

    /// Admits every job of `config`, in order. One schedule that is not a
    /// cron expression rejects the whole set: the error holds the first such
    /// expression. The new scheduler is running and idle, and no job has run.
    pub fn new(config: Config) -> (runner: Result<Runner, InvalidScheduleError>)
        ensures
            match runner {
                Ok(runner) => {
                    &&& first_rejected(config.jobs@, 0) == config.jobs.len()
                    &&& runner@.wf()
                    &&& runner@.phase == Phase::Idle
                    &&& runner@.jobs == Seq::new(
                        config.jobs.len() as nat,
                        |i: int| admitted(config.jobs[i]),
                    )
                    &&& forall|i: int| 0 <= i < runner@.jobs.len() ==> #[trigger] runner@.jobs[i].wf()
                },
                Err(error) => {
                    &&& first_rejected(config.jobs@, 0) < config.jobs.len()
                    &&& error.expression == config.jobs[first_rejected(
                        config.jobs@,
                        0,
                    )].schedule
                },
            },
    {
        let mut jobs: Vec<JobRunner> = Vec::new();
        for job in it: config.jobs
            invariant
                it.seq() == config.jobs@,
                jobs.len() == it.index(),
                first_rejected(config.jobs@, 0) == first_rejected(config.jobs@, it.index() as int),
                forall|k: int| 0 <= k < jobs.len() ==> #[trigger] jobs[k] == admitted(config.jobs[k]),
                forall|k: int| 0 <= k < jobs.len() ==> #[trigger] jobs[k].wf(),
        {
            let Job { name, schedule, kind: _, config: action, outputs: _ } = job;
            match JobRunner::new(name, schedule, action) {
                Ok(runner) => {
                    jobs.push(runner);
                },
                Err(error) => {
                    return Err(error);
                },
            }
        }
        Ok(Runner { jobs, phase: Phase::Idle })
    }

    /// The runners, in the order in which their jobs were given.
    pub fn jobs(&self) -> (jobs: &Vec<JobRunner>)
        ensures
            jobs@ == self@.jobs,
            self@.wf(),
    {
        proof {
            use_type_invariant(self);
        }
        &self.jobs
    }

    /// Where the scheduler stands.
    pub fn phase(&self) -> (phase: Phase)
        ensures
            phase == self@.phase,
            self@.wf(),
    {
        proof {
            use_type_invariant(self);
        }
        self.phase
    }

    /// Running, or stopped.
    pub fn state(&self) -> (state: RunnerState)
        ensures
            state == self@.state(),
    {
        match self.phase {
            Phase::Stopped => RunnerState::Stopped,
            _ => RunnerState::Running,
        }
    }

    /// Goes on with the tick at job `from`: starts the first job from there
    /// on that is due at `now`, or ends the tick.
    fn resume(&mut self, from: usize, now: Timestamp, log: &mut Vec<LogEvent>) -> (directive:
        Directive)
        requires
            from <= old(self).jobs.len(),
        ensures
            final(self).jobs == old(self).jobs,
            final(self).phase == scan(old(self).jobs@, from as int, now).0,
            directive == scan(old(self).jobs@, from as int, now).1.directive,
            log_view(final(log)@) == log_view(old(log)@) + scan(
                old(self).jobs@,
                from as int,
                now,
            ).1.log,
    {
        let mut i: usize = from;
        while i < self.jobs.len()
            invariant
                from <= i <= self.jobs.len(),
                self.jobs == old(self).jobs,
                self.phase == old(self).phase,
                *log == *old(log),
                first_due(self.jobs@, from as int, now) == first_due(self.jobs@, i as int, now),
            decreases self.jobs.len() - i,
        {
            if self.jobs[i].should_run(now) {
                let name = self.jobs[i].name.clone();
                log.push(LogEvent::JobStarted { name });
                self.phase = Phase::Executing { job: i };
                return Directive::Execute { job: i };
            }
            i += 1;
        }
        self.phase = Phase::Idle;
        Directive::Sleep { seconds: POLL_INTERVAL_SECS }
    }

    /// Ends the attempt of job `job`: records it, logs its result and goes
    /// on with the tick.
    fn finish(&mut self, job: usize, at: Timestamp, outcome: Outcome) -> (step: Step)
        requires
            job < old(self).jobs.len(),
        ensures
            (final(self)@, step@) == old(self)@.finished(
                job as int,
                at,
                interpret(outcome),
            ),
    {
        // Between the end of one attempt and the start of the next the
        // scheduler waits for no job.
        self.phase = Phase::Idle;
        let result = self.jobs[job].execute(outcome, at);
        let name = self.jobs[job].name.clone();
        let mut log: Vec<LogEvent> = Vec::new();
        match result {
            Ok(output) => {
                log.push(LogEvent::JobSucceeded { name, output });
            },
            Err(error) => {
                log.push(LogEvent::JobFailed { name, error });
            },
        }
        assert(log_view(log@) =~= seq![
            outcome_event(old(self).jobs[job as int].name@, interpret(outcome)),
        ]);
        let directive = self.resume(job + 1, at, &mut log);
        Step { log, directive }
    }

    /// Takes in what the host reports and says what to do next.
    ///
    /// Returns `None`, and changes nothing, when the event is not one that
    /// the scheduler's phase expects. Otherwise state and answer are those of
    /// [`RunnerModel::step`].
    pub fn advance(&mut self, event: Event) -> (step: Option<Step>)
        ensures
            match old(self)@.step(event) {
                Some((post, expected)) => {
                    &&& step is Some
                    &&& step->Some_0@ == expected
                    &&& final(self)@ == post
                },
                None => step is None && final(self)@ == old(self)@,
            },
            final(self)@.wf(),
    {
        proof {
            use_type_invariant(&*self);
            lemma_step_keeps_wf(self@, event);
        }
        match self.phase {
            Phase::Idle => match event {
                Event::Wake { now } => {
                    let mut log: Vec<LogEvent> = Vec::new();
                    let directive = self.resume(0, now, &mut log);
                    Some(Step { log, directive })
                },
                Event::Shutdown => {
                    self.phase = Phase::Stopped;
                    let mut log: Vec<LogEvent> = Vec::new();
                    log.push(LogEvent::SchedulerStopped);
                    assert(log_view(log@) =~= seq![LogEventView::SchedulerStopped]);
                    Some(Step { log, directive: Directive::Halt })
                },
                _ => None,
            },
            Phase::Executing { job } => {
                let kind = self.jobs[job].config.kind();
                match event {
                    Event::Exited { at, success, stdout, stderr } => {
                        if kind == JobKind::Command {
                            Some(self.finish(job, at, Outcome::Exited { success, stdout, stderr }))
                        } else {
                            None
                        }
                    },
                    Event::SpawnFailed { at, cause } => {
                        if kind == JobKind::Command {
                            Some(self.finish(job, at, Outcome::SpawnFailed { cause }))
                        } else {
                            None
                        }
                    },
                    Event::Status { at, status } => {
                        if kind == JobKind::Command {
                            None
                        } else if status_is_success(status) {
                            self.phase = Phase::ReadingBody { job, status };
                            let log: Vec<LogEvent> = Vec::new();
                            assert(log_view(log@) =~= Seq::<LogEventView>::empty());
                            Some(Step { log, directive: Directive::ReadBody { job } })
                        } else {
                            let body = String::new();
                            Some(self.finish(job, at, Outcome::Responded { status, body }))
                        }
                    },
                    Event::TransportFailed { at, cause } => {
                        if kind == JobKind::Command {
                            None
                        } else {
                            Some(self.finish(job, at, Outcome::TransportFailed { cause }))
                        }
                    },
                    _ => None,
                }
            },
            Phase::ReadingBody { job, status } => match event {
                Event::Body { at, body } => Some(
                    self.finish(job, at, Outcome::Responded { status, body }),
                ),
                Event::TransportFailed { at, cause } => Some(
                    self.finish(job, at, Outcome::TransportFailed { cause }),
                ),
                _ => None,
            },
            Phase::Stopped => None,
        }
    }

    /// Starts the scheduler at `now`: the first tick begins at once.
    pub fn start(&mut self, now: Timestamp) -> (step: Option<Step>)
        ensures
            match old(self)@.step(Event::Wake { now }) {
                Some((post, expected)) => {
                    &&& step is Some
                    &&& step->Some_0@ == expected
                    &&& final(self)@ == post
                },
                None => step is None && final(self)@ == old(self)@,
            },
            final(self)@.wf(),
    {
        self.advance(Event::Wake { now })
    }
}

} // verus!
