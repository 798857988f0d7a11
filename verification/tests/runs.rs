use echo_bench::aggregate::WorkerOutcome;
use echo_bench::cli::interpret;
use echo_bench::cli::Invocation;
use echo_bench::config::BenchConfig;
use echo_bench::config::ConfigError;
use echo_bench::driver::Driver;
use echo_bench::driver::DriverAction;
use echo_bench::driver::DriverEvent;
use echo_bench::driver::DriverPhase;
use echo_bench::limits::plan_descriptor_limit;
use echo_bench::payload::build_request;
use echo_bench::payload::reply_buffer;
use echo_bench::report::render_summary;
use echo_bench::stop::StopSignal;
use echo_bench::worker::Worker;
use echo_bench::worker::WorkerAction;
use echo_bench::worker::WorkerEvent;

/// How the server at the other end of a connection behaves.
#[derive(Clone, Copy)]
enum Server {
    /// Sends back what it gets.
    Echo,
    /// Takes the request and never answers; the receive ends with an error
    /// when the connection is torn down.
    Silent,
    /// Sends back one byte less than it got.
    Truncating,
}

/// Runs one worker against a server until it finishes. The stop signal is
/// triggered once the worker has looked at it `polls_before_stop` times.
fn run_worker(id: u32, length: usize, server: Server, polls_before_stop: u32) -> WorkerOutcome {
    let mut signal = StopSignal::new();
    let request = build_request(length);
    let mut reply = reply_buffer(length);
    let mut polls = 0;
    let mut worker = Worker::new(id, length);
    let mut action = worker.next_action();
    loop {
        let event = match action {
            WorkerAction::PollStop => {
                if polls == polls_before_stop {
                    signal.trigger();
                }
                polls += 1;
                WorkerEvent::StopRead(signal.read())
            }
            WorkerAction::Send { length } => {
                assert_eq!(length, request.len());
                WorkerEvent::Sent(Some(request.len()))
            }
            WorkerAction::Receive { length } => match server {
                Server::Echo => {
                    reply.copy_from_slice(&request);
                    WorkerEvent::Received(Some(length))
                }
                Server::Silent => {
                    signal.trigger();
                    WorkerEvent::Received(None)
                }
                Server::Truncating => WorkerEvent::Received(Some(length - 1)),
            },
            WorkerAction::Finish(outcome) => return outcome,
        };
        assert!(worker.can_step(event));
        action = worker.step(event);
    }
}

/// Runs a whole benchmark against a server, with the driver in charge.
fn run_benchmark(config: &BenchConfig, server: Server, round_trips: u32) -> Option<String> {
    let mut driver = Driver::new(config).unwrap();
    let mut outcomes = Vec::new();
    let mut action = driver.next_action();
    loop {
        let event = match action {
            DriverAction::SpawnWorkers { count } => {
                for id in 0..count {
                    outcomes.push(run_worker(id, config.payload_length, server, round_trips));
                }
                DriverEvent::WorkersSpawned
            }
            DriverAction::Sleep { seconds } => {
                assert_eq!(seconds, config.duration_seconds);
                DriverEvent::DurationElapsed
            }
            DriverAction::TriggerStop => DriverEvent::StopTriggered,
            DriverAction::JoinWorker { index } => {
                DriverEvent::WorkerJoined(outcomes[index as usize])
            }
            DriverAction::Report => {
                return driver.result().map(|result| render_summary(config, &result));
            }
            DriverAction::Abort => return None,
        };
        action = driver.step(event);
    }
}

fn config(list: &[&str]) -> BenchConfig {
    let args: Vec<String> = list.iter().map(|arg| String::from(*arg)).collect();
    match interpret(&args) {
        Invocation::Run(config) => config,
        other => panic!("expected a run, got {other:?}"),
    }
}

#[test]
fn echo_server_with_one_connection_has_no_errors() {
    let config = config(&["-c", "1", "-t", "1", "-l", "64"]);
    assert_eq!(plan_descriptor_limit(1024, config.connection_count), Ok(4));
    let mut driver = Driver::new(&config).unwrap();
    driver.step(DriverEvent::WorkersSpawned);
    driver.step(DriverEvent::DurationElapsed);
    driver.step(DriverEvent::StopTriggered);
    let outcome = run_worker(0, config.payload_length, Server::Echo, 3);
    assert_eq!(outcome, WorkerOutcome { requests_completed: 3, failed: false });
    assert_eq!(driver.step(DriverEvent::WorkerJoined(outcome)), DriverAction::Report);
    let result = driver.result().unwrap();
    assert_eq!(result.total_errors, 0);
    assert!(result.total_requests >= 1);
    assert_eq!(result.total_requests, 3);
    assert_eq!(result.requests_per_second, 3);
}

#[test]
fn echo_server_run_ends_with_one_summary() {
    let config = config(&["-a", "127.0.0.1:12345", "-c", "4", "-t", "2", "-l", "64"]);
    assert_eq!(
        run_benchmark(&config, Server::Echo, 10),
        Some(String::from(
            "Benchmarking: 127.0.0.1:12345\n4 clients, running 64 bytes, 2 sec.\n\nError: 0\nSpeed: 20 request/sec"
        ))
    );
}

#[test]
fn closed_connections_abort_the_run_without_summary() {
    let config = config(&["-c", "3", "-t", "1"]);
    let mut driver = Driver::new(&config).unwrap();
    assert_eq!(driver.step(DriverEvent::WorkersSpawned), DriverAction::Sleep { seconds: 1 });
    assert_eq!(driver.step(DriverEvent::DurationElapsed), DriverAction::TriggerStop);
    assert_eq!(driver.step(DriverEvent::StopTriggered), DriverAction::JoinWorker { index: 0 });
    assert_eq!(driver.step(DriverEvent::WorkerAborted), DriverAction::Abort);
    assert_eq!(driver.phase(), DriverPhase::Aborted);
    assert_eq!(driver.result(), None);
}

#[test]
fn closed_connection_seen_while_running_aborts_the_run() {
    let config = config(&["-c", "3", "-t", "1"]);
    let mut driver = Driver::new(&config).unwrap();
    driver.step(DriverEvent::WorkersSpawned);
    assert_eq!(driver.step(DriverEvent::WorkerAborted), DriverAction::Abort);
    assert_eq!(driver.step(DriverEvent::DurationElapsed), DriverAction::Abort);
    assert_eq!(driver.result(), None);
}

#[test]
fn silent_server_holds_the_worker_past_the_stop() {
    let mut signal = StopSignal::new();
    let mut worker = Worker::new(0, 64);
    worker.step(WorkerEvent::StopRead(signal.read()));
    assert_eq!(worker.step(WorkerEvent::Sent(Some(64))), WorkerAction::Receive { length: 64 });
    signal.trigger();
    let waiting = WorkerAction::Receive { length: 64 };
    assert_eq!(worker.step(WorkerEvent::StopRead(signal.read())), waiting);
    assert_eq!(worker.step(WorkerEvent::StopRead(signal.read())), waiting);
    assert!(!worker.is_finished());
    assert_eq!(worker.outcome(), None);
    let ended = WorkerOutcome { requests_completed: 0, failed: true };
    assert_eq!(worker.step(WorkerEvent::Received(None)), WorkerAction::Finish(ended));
}

#[test]
fn silent_server_keeps_the_run_from_ending() {
    let config = config(&["-c", "2", "-t", "1"]);
    let mut driver = Driver::new(&config).unwrap();
    driver.step(DriverEvent::WorkersSpawned);
    driver.step(DriverEvent::DurationElapsed);
    driver.step(DriverEvent::StopTriggered);
    let first = run_worker(0, config.payload_length, Server::Echo, 2);
    assert_eq!(
        driver.step(DriverEvent::WorkerJoined(first)),
        DriverAction::JoinWorker { index: 1 }
    );
    assert_eq!(driver.phase(), DriverPhase::Stopping);
    assert_eq!(driver.result(), None);
    let second = run_worker(1, config.payload_length, Server::Silent, 2);
    assert_eq!(second, WorkerOutcome { requests_completed: 0, failed: true });
    assert_eq!(driver.step(DriverEvent::WorkerJoined(second)), DriverAction::Report);
    let result = driver.result().unwrap();
    assert_eq!(result.total_errors, 1);
    assert_eq!(result.total_requests, 2);
}

#[test]
fn length_one_sends_a_single_line_feed() {
    let config = config(&["-l", "1", "-c", "1", "-t", "1"]);
    assert_eq!(config.validate(), Ok(()));
    assert_eq!(build_request(config.payload_length), vec![b'\n']);
    let mut worker = Worker::new(0, config.payload_length);
    assert_eq!(worker.step(WorkerEvent::StopRead(false)), WorkerAction::Send { length: 1 });
    assert_eq!(worker.step(WorkerEvent::Sent(Some(1))), WorkerAction::Receive { length: 1 });
    assert_eq!(worker.step(WorkerEvent::Received(Some(1))), WorkerAction::PollStop);
    assert_eq!(worker.completed, 1);
    assert_eq!(
        run_worker(0, 1, Server::Echo, 5),
        WorkerOutcome { requests_completed: 5, failed: false }
    );
}

#[test]
fn truncated_reply_fails_the_worker() {
    assert_eq!(
        run_worker(0, 64, Server::Truncating, 9),
        WorkerOutcome { requests_completed: 0, failed: true }
    );
    let config = config(&["-c", "2", "-t", "3", "-l", "16"]);
    assert_eq!(
        run_benchmark(&config, Server::Truncating, 9),
        Some(String::from(
            "Benchmarking: 127.0.0.1:8901\n2 clients, running 16 bytes, 3 sec.\n\nError: 2\nSpeed: 0 request/sec"
        ))
    );
}

#[test]
fn stop_lets_the_round_trip_under_way_finish() {
    let mut signal = StopSignal::new();
    let mut worker = Worker::new(0, 8);
    worker.step(WorkerEvent::StopRead(signal.read()));
    signal.trigger();
    worker.step(WorkerEvent::Sent(Some(8)));
    worker.step(WorkerEvent::Received(Some(8)));
    assert_eq!(
        worker.step(WorkerEvent::StopRead(signal.read())),
        WorkerAction::Finish(WorkerOutcome { requests_completed: 1, failed: false })
    );
}

#[test]
fn duration_of_zero_is_refused_before_anything_starts() {
    let config = config(&["-t", "0"]);
    assert_eq!(config.duration_seconds, 0);
    assert_eq!(config.validate(), Err(ConfigError::NoDuration));
    assert_eq!(Driver::new(&config).err(), Some(ConfigError::NoDuration));
}

#[test]
fn length_of_zero_is_refused_before_anything_starts() {
    let config = config(&["-l", "0"]);
    assert_eq!(Driver::new(&config).err(), Some(ConfigError::EmptyPayload));
}
