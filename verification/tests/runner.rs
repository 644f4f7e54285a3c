use cronwind::config::{Config, HttpMethod, Job, JobConfig, JobKind};
use cronwind::job::ExecutionError;
use cronwind::protocol::{
    Directive, Event, LogEvent, LogLevel, Phase, RunnerState, Step, POLL_INTERVAL_SECS,
};
use cronwind::runner::Runner;
use cronwind::schedule::{InvalidScheduleError, Timestamp};

const ALWAYS: &str = "*/1 * * * * *";
const NEVER_BEFORE_2099: &str = "0 0 0 1 1 * 2099";
// 2024-01-01T12:00:00Z
const NOON: i64 = 1_704_110_400;
const AT_NOON: &str = "0 0 12 * * *";

fn at(unix_seconds: i64) -> Timestamp {
    Timestamp { unix_seconds }
}

fn command_job(name: &str, schedule: &str, command: &str) -> Job {
    Job {
        name: name.to_string(),
        schedule: schedule.to_string(),
        kind: JobKind::Command,
        config: JobConfig::Command { command: command.to_string() },
        outputs: vec![],
    }
}

fn request_job(name: &str, schedule: &str, url: &str) -> Job {
    Job {
        name: name.to_string(),
        schedule: schedule.to_string(),
        kind: JobKind::Request,
        config: JobConfig::Request {
            method: HttpMethod::Get,
            url: url.to_string(),
            body: None,
            headers: None,
        },
        outputs: vec![],
    }
}

fn runner(jobs: Vec<Job>) -> Runner {
    Runner::new(Config { jobs }).expect("valid schedules")
}

fn exited(t: i64, success: bool, stdout: &str, stderr: &str) -> Event {
    Event::Exited {
        at: at(t),
        success,
        stdout: stdout.as_bytes().to_vec(),
        stderr: stderr.as_bytes().to_vec(),
    }
}

fn started(name: &str) -> LogEvent {
    LogEvent::JobStarted { name: name.to_string() }
}

fn succeeded(name: &str, output: &str) -> LogEvent {
    LogEvent::JobSucceeded { name: name.to_string(), output: output.to_string() }
}

fn failed(name: &str, error: ExecutionError) -> LogEvent {
    LogEvent::JobFailed { name: name.to_string(), error }
}

fn last_runs(r: &Runner) -> Vec<Option<Timestamp>> {
    r.jobs().iter().map(|job| job.last_run).collect()
}

#[test]
fn new_scheduler_is_running_and_idle() {
    let r = runner(vec![command_job("a", ALWAYS, "true"), request_job("b", AT_NOON, "http://x/")]);
    assert_eq!(r.state(), RunnerState::Running);
    assert_eq!(r.phase(), Phase::Idle);
    assert_eq!(r.jobs().len(), 2);
    assert_eq!(r.jobs()[0].name, "a");
    assert_eq!(r.jobs()[0].schedule.expression, ALWAYS);
    assert_eq!(r.jobs()[0].config, JobConfig::Command { command: "true".to_string() });
    assert_eq!(r.jobs()[1].name, "b");
    assert_eq!(r.jobs()[1].schedule.expression, AT_NOON);
    assert_eq!(last_runs(&r), vec![None, None]);
}

#[test]
fn empty_job_set_gives_a_scheduler_that_only_sleeps() {
    let mut r = runner(vec![]);
    assert_eq!(
        r.start(at(NOON)),
        Some(Step { log: vec![], directive: Directive::Sleep { seconds: 60 } })
    );
    assert_eq!(r.phase(), Phase::Idle);
}

#[test]
fn one_malformed_schedule_rejects_the_whole_set() {
    let result = Runner::new(Config {
        jobs: vec![
            command_job("good", ALWAYS, "true"),
            command_job("bad", "every now and then", "true"),
            command_job("also good", AT_NOON, "true"),
            command_job("also bad", "* * *", "true"),
        ],
    });
    assert_eq!(
        result.err(),
        Some(InvalidScheduleError { expression: "every now and then".to_string() })
    );
}

#[test]
fn malformed_schedule_of_the_only_job_is_rejected() {
    let result = Runner::new(Config { jobs: vec![command_job("bad", "* * * * *", "true")] });
    assert_eq!(result.err(), Some(InvalidScheduleError { expression: "* * * * *".to_string() }));
}

#[test]
fn ping_scenario_one_tick() {
    let mut r = runner(vec![command_job("ping", "*/1 * * * * *", "echo hi")]);
    let step = r.start(at(NOON)).unwrap();
    assert_eq!(step, Step { log: vec![started("ping")], directive: Directive::Execute { job: 0 } });
    assert_eq!(r.phase(), Phase::Executing { job: 0 });
    assert_eq!(r.jobs()[0].config, JobConfig::Command { command: "echo hi".to_string() });

    let step = r.advance(exited(NOON + 1, true, "hi\n", "")).unwrap();
    assert_eq!(
        step,
        Step {
            log: vec![succeeded("ping", "hi\n")],
            directive: Directive::Sleep { seconds: POLL_INTERVAL_SECS },
        }
    );
    assert_eq!(r.jobs()[0].last_run, Some(at(NOON + 1)));
    assert_eq!(r.phase(), Phase::Idle);
    assert_eq!(r.state(), RunnerState::Running);
}

#[test]
fn shutdown_during_sleep_stops_without_evaluating_any_job() {
    let mut r = runner(vec![command_job("ping", ALWAYS, "echo hi")]);
    let _ = r.start(at(NOON)).unwrap();
    let step = r.advance(exited(NOON, true, "hi\n", "")).unwrap();
    assert_eq!(step.directive, Directive::Sleep { seconds: 60 });
    let before = last_runs(&r);

    let step = r.advance(Event::Shutdown).unwrap();
    assert_eq!(step, Step { log: vec![LogEvent::SchedulerStopped], directive: Directive::Halt });
    assert_eq!(r.state(), RunnerState::Stopped);
    assert_eq!(r.phase(), Phase::Stopped);
    assert_eq!(last_runs(&r), before);

    // Nothing follows the signal: the next wake-up is not answered.
    assert_eq!(r.advance(Event::Wake { now: at(NOON + 60) }), None);
    assert_eq!(r.advance(Event::Shutdown), None);
    assert_eq!(r.advance(exited(NOON + 61, true, "hi\n", "")), None);
    assert_eq!(r.phase(), Phase::Stopped);
    assert_eq!(last_runs(&r), before);
}

#[test]
fn shutdown_before_the_first_tick() {
    let mut r = runner(vec![command_job("ping", ALWAYS, "echo hi")]);
    let step = r.advance(Event::Shutdown).unwrap();
    assert_eq!(step, Step { log: vec![LogEvent::SchedulerStopped], directive: Directive::Halt });
    assert_eq!(r.start(at(NOON)), None);
    assert_eq!(last_runs(&r), vec![None]);
}

#[test]
fn job_that_is_not_due_is_not_executed_and_not_changed() {
    let mut r = runner(vec![command_job("later", NEVER_BEFORE_2099, "true")]);
    for tick in 0..3 {
        let step = r.advance(Event::Wake { now: at(NOON + 60 * tick) }).unwrap();
        assert_eq!(step, Step { log: vec![], directive: Directive::Sleep { seconds: 60 } });
        assert_eq!(r.phase(), Phase::Idle);
        assert_eq!(last_runs(&r), vec![None]);
    }
}

#[test]
fn only_due_jobs_run_and_in_collection_order() {
    let mut r = runner(vec![
        command_job("skip-1", NEVER_BEFORE_2099, "true"),
        command_job("run-1", AT_NOON, "echo 1"),
        command_job("skip-2", NEVER_BEFORE_2099, "true"),
        command_job("run-2", ALWAYS, "echo 2"),
        command_job("skip-3", NEVER_BEFORE_2099, "true"),
    ]);
    let step = r.start(at(NOON)).unwrap();
    assert_eq!(step, Step { log: vec![started("run-1")], directive: Directive::Execute { job: 1 } });

    let step = r.advance(exited(NOON, true, "1\n", "")).unwrap();
    assert_eq!(
        step,
        Step {
            log: vec![succeeded("run-1", "1\n"), started("run-2")],
            directive: Directive::Execute { job: 3 },
        }
    );
    let step = r.advance(exited(NOON, true, "2\n", "")).unwrap();
    assert_eq!(
        step,
        Step { log: vec![succeeded("run-2", "2\n")], directive: Directive::Sleep { seconds: 60 } }
    );
    assert_eq!(last_runs(&r), vec![None, Some(at(NOON)), None, Some(at(NOON)), None]);
}

#[test]
fn later_jobs_are_evaluated_at_the_time_the_earlier_one_finished() {
    let mut r = runner(vec![
        command_job("slow", ALWAYS, "sleep 1"),
        command_job("noon", AT_NOON, "true"),
    ]);
    // The tick starts one second before noon; the first job ends at noon.
    let step = r.start(at(NOON - 1)).unwrap();
    assert_eq!(step.directive, Directive::Execute { job: 0 });
    let step = r.advance(exited(NOON, true, "", "")).unwrap();
    assert_eq!(step.directive, Directive::Execute { job: 1 });

    // Had it ended a second later, the second job would not have been due.
    let mut r = runner(vec![
        command_job("slow", ALWAYS, "sleep 2"),
        command_job("noon", AT_NOON, "true"),
    ]);
    let _ = r.start(at(NOON - 1)).unwrap();
    let step = r.advance(exited(NOON + 1, true, "", "")).unwrap();
    assert_eq!(step.directive, Directive::Sleep { seconds: 60 });
    assert_eq!(last_runs(&r), vec![Some(at(NOON + 1)), None]);
}

#[test]
fn failure_of_one_job_does_not_keep_the_next_from_running() {
    let mut r = runner(vec![
        command_job("broken", ALWAYS, "exit 3"),
        command_job("fine", ALWAYS, "echo ok"),
    ]);
    let step = r.start(at(NOON)).unwrap();
    assert_eq!(step.directive, Directive::Execute { job: 0 });

    let step = r.advance(exited(NOON + 2, false, "", "it broke\n")).unwrap();
    assert_eq!(
        step,
        Step {
            log: vec![
                failed("broken", ExecutionError::CommandFailed("it broke\n".to_string())),
                started("fine"),
            ],
            directive: Directive::Execute { job: 1 },
        }
    );
    let step = r.advance(exited(NOON + 3, true, "ok\n", "")).unwrap();
    assert_eq!(
        step,
        Step { log: vec![succeeded("fine", "ok\n")], directive: Directive::Sleep { seconds: 60 } }
    );
    assert_eq!(last_runs(&r), vec![Some(at(NOON + 2)), Some(at(NOON + 3))]);

    // The next tick runs the failed job again: a failure is not remembered.
    let step = r.advance(Event::Wake { now: at(NOON + 63) }).unwrap();
    assert_eq!(step, Step { log: vec![started("broken")], directive: Directive::Execute { job: 0 } });
}

#[test]
fn spawn_failure_is_logged_and_the_tick_goes_on() {
    let mut r = runner(vec![
        command_job("a", ALWAYS, "true"),
        command_job("b", ALWAYS, "true"),
    ]);
    let _ = r.start(at(NOON)).unwrap();
    let step = r
        .advance(Event::SpawnFailed { at: at(NOON), cause: "sh: not found".to_string() })
        .unwrap();
    assert_eq!(
        step,
        Step {
            log: vec![
                failed("a", ExecutionError::SpawnFailed("sh: not found".to_string())),
                started("b"),
            ],
            directive: Directive::Execute { job: 1 },
        }
    );
    assert_eq!(last_runs(&r), vec![Some(at(NOON)), None]);
}

#[test]
fn successful_request_reads_the_body() {
    let mut r = runner(vec![request_job("fetch", ALWAYS, "http://localhost/ok")]);
    let step = r.start(at(NOON)).unwrap();
    assert_eq!(step, Step { log: vec![started("fetch")], directive: Directive::Execute { job: 0 } });

    let step = r.advance(Event::Status { at: at(NOON + 1), status: 200 }).unwrap();
    assert_eq!(step, Step { log: vec![], directive: Directive::ReadBody { job: 0 } });
    assert_eq!(r.phase(), Phase::ReadingBody { job: 0, status: 200 });
    assert_eq!(last_runs(&r), vec![None]);

    let step = r.advance(Event::Body { at: at(NOON + 2), body: "pong".to_string() }).unwrap();
    assert_eq!(
        step,
        Step { log: vec![succeeded("fetch", "pong")], directive: Directive::Sleep { seconds: 60 } }
    );
    assert_eq!(last_runs(&r), vec![Some(at(NOON + 2))]);
    assert_eq!(r.phase(), Phase::Idle);
}

#[test]
fn unsuccessful_status_fails_the_request_without_reading_the_body() {
    for status in [404u16, 500, 302, 199, 300] {
        let mut r = runner(vec![
            request_job("fetch", ALWAYS, "http://localhost/missing"),
            command_job("after", ALWAYS, "true"),
        ]);
        let _ = r.start(at(NOON)).unwrap();
        let step = r.advance(Event::Status { at: at(NOON + 1), status }).unwrap();
        assert_eq!(
            step,
            Step {
                log: vec![failed("fetch", ExecutionError::RequestFailed(status)), started("after")],
                directive: Directive::Execute { job: 1 },
            }
        );
        assert_eq!(last_runs(&r), vec![Some(at(NOON + 1)), None]);
    }
}

#[test]
fn every_status_from_200_to_299_asks_for_the_body() {
    for status in [200u16, 201, 204, 250, 299] {
        let mut r = runner(vec![request_job("fetch", ALWAYS, "http://localhost/")]);
        let _ = r.start(at(NOON)).unwrap();
        let step = r.advance(Event::Status { at: at(NOON), status }).unwrap();
        assert_eq!(step.directive, Directive::ReadBody { job: 0 });
    }
}

#[test]
fn transport_failure_before_any_answer() {
    let mut r = runner(vec![request_job("fetch", ALWAYS, "http://unreachable.invalid/")]);
    let _ = r.start(at(NOON)).unwrap();
    let step = r
        .advance(Event::TransportFailed { at: at(NOON + 5), cause: "dns error".to_string() })
        .unwrap();
    assert_eq!(
        step,
        Step {
            log: vec![failed("fetch", ExecutionError::TransportFailed("dns error".to_string()))],
            directive: Directive::Sleep { seconds: 60 },
        }
    );
    assert_eq!(last_runs(&r), vec![Some(at(NOON + 5))]);
}

#[test]
fn transport_failure_while_reading_the_body() {
    let mut r = runner(vec![request_job("fetch", ALWAYS, "http://localhost/")]);
    let _ = r.start(at(NOON)).unwrap();
    let _ = r.advance(Event::Status { at: at(NOON), status: 200 }).unwrap();
    let step = r
        .advance(Event::TransportFailed { at: at(NOON + 9), cause: "reset".to_string() })
        .unwrap();
    assert_eq!(
        step,
        Step {
            log: vec![failed("fetch", ExecutionError::TransportFailed("reset".to_string()))],
            directive: Directive::Sleep { seconds: 60 },
        }
    );
    assert_eq!(last_runs(&r), vec![Some(at(NOON + 9))]);
}

#[test]
fn events_that_the_phase_does_not_expect_change_nothing() {
    // Idle: only a wake-up or a shutdown request is expected.
    let mut r = runner(vec![
        command_job("cmd", ALWAYS, "true"),
        request_job("req", ALWAYS, "http://localhost/"),
    ]);
    assert_eq!(r.advance(exited(NOON, true, "", "")), None);
    assert_eq!(r.advance(Event::Status { at: at(NOON), status: 200 }), None);
    assert_eq!(r.advance(Event::Body { at: at(NOON), body: String::new() }), None);
    assert_eq!(r.advance(Event::SpawnFailed { at: at(NOON), cause: String::new() }), None);
    assert_eq!(r.advance(Event::TransportFailed { at: at(NOON), cause: String::new() }), None);
    assert_eq!(r.phase(), Phase::Idle);
    assert_eq!(last_runs(&r), vec![None, None]);

    // A command is running: reports about a request are not expected, nor is
    // a wake-up or a shutdown request.
    let _ = r.start(at(NOON)).unwrap();
    assert_eq!(r.phase(), Phase::Executing { job: 0 });
    assert_eq!(r.advance(Event::Status { at: at(NOON), status: 200 }), None);
    assert_eq!(r.advance(Event::Status { at: at(NOON), status: 404 }), None);
    assert_eq!(r.advance(Event::Body { at: at(NOON), body: String::new() }), None);
    assert_eq!(r.advance(Event::TransportFailed { at: at(NOON), cause: String::new() }), None);
    assert_eq!(r.advance(Event::Wake { now: at(NOON) }), None);
    assert_eq!(r.advance(Event::Shutdown), None);
    assert_eq!(r.phase(), Phase::Executing { job: 0 });
    assert_eq!(last_runs(&r), vec![None, None]);

    // A request is under way: reports about a command are not expected, nor
    // is a body before the status.
    let _ = r.advance(exited(NOON, true, "", "")).unwrap();
    assert_eq!(r.phase(), Phase::Executing { job: 1 });
    assert_eq!(r.advance(exited(NOON, true, "", "")), None);
    assert_eq!(r.advance(Event::SpawnFailed { at: at(NOON), cause: String::new() }), None);
    assert_eq!(r.advance(Event::Body { at: at(NOON), body: String::new() }), None);
    assert_eq!(r.phase(), Phase::Executing { job: 1 });

    // The body is awaited: a second status is not expected.
    let _ = r.advance(Event::Status { at: at(NOON), status: 200 }).unwrap();
    assert_eq!(r.advance(Event::Status { at: at(NOON), status: 200 }), None);
    assert_eq!(r.advance(exited(NOON, true, "", "")), None);
    assert_eq!(r.advance(Event::Shutdown), None);
    assert_eq!(r.phase(), Phase::ReadingBody { job: 1, status: 200 });
    assert_eq!(last_runs(&r), vec![Some(at(NOON)), None]);
}

#[test]
fn shutdown_is_observed_only_between_ticks() {
    let mut r = runner(vec![command_job("long", ALWAYS, "sleep 100")]);
    let _ = r.start(at(NOON)).unwrap();
    // The job is allowed to finish.
    assert_eq!(r.advance(Event::Shutdown), None);
    assert_eq!(r.state(), RunnerState::Running);
    let step = r.advance(exited(NOON + 100, true, "", "")).unwrap();
    assert_eq!(step.directive, Directive::Sleep { seconds: 60 });
    let step = r.advance(Event::Shutdown).unwrap();
    assert_eq!(step.directive, Directive::Halt);
    assert_eq!(r.state(), RunnerState::Stopped);
}

#[test]
fn jobs_with_the_same_name_are_independent() {
    let mut r = runner(vec![
        command_job("twin", ALWAYS, "echo 1"),
        command_job("twin", NEVER_BEFORE_2099, "echo 2"),
        command_job("twin", ALWAYS, "echo 3"),
    ]);
    let step = r.start(at(NOON)).unwrap();
    assert_eq!(step.directive, Directive::Execute { job: 0 });
    let step = r.advance(exited(NOON, true, "1\n", "")).unwrap();
    assert_eq!(step.directive, Directive::Execute { job: 2 });
    let _ = r.advance(exited(NOON + 1, true, "3\n", "")).unwrap();
    assert_eq!(last_runs(&r), vec![Some(at(NOON)), None, Some(at(NOON + 1))]);
}

#[test]
fn start_is_a_wake_up() {
    let jobs = || vec![command_job("a", AT_NOON, "true"), command_job("b", ALWAYS, "true")];
    let mut started_runner = runner(jobs());
    let mut woken = runner(jobs());
    assert_eq!(started_runner.start(at(NOON + 1)), woken.advance(Event::Wake { now: at(NOON + 1) }));
    assert_eq!(started_runner.phase(), woken.phase());
    assert_eq!(started_runner.phase(), Phase::Executing { job: 1 });
    // A scheduler that is in a tick cannot be started again.
    assert_eq!(started_runner.start(at(NOON + 2)), None);
}

#[test]
fn log_levels_and_lines() {
    let events = [
        (started("ping"), LogLevel::Info, "Executing job: ping"),
        (succeeded("ping", "hi\n"), LogLevel::Info, "Job 'ping' completed successfully: hi\n"),
        (
            failed("ping", ExecutionError::CommandFailed("boom".to_string())),
            LogLevel::Error,
            "Job 'ping' failed: Command failed: boom",
        ),
        (
            failed("get", ExecutionError::RequestFailed(503)),
            LogLevel::Error,
            "Job 'get' failed: Request failed with status: 503",
        ),
        (
            failed("get", ExecutionError::TransportFailed("timed out".to_string())),
            LogLevel::Error,
            "Job 'get' failed: timed out",
        ),
        (LogEvent::SchedulerStopped, LogLevel::Info, "Shutting down gracefully..."),
    ];
    for (event, level, line) in events {
        assert_eq!(event.level(), level);
        assert_eq!(event.message(), line);
    }
}
