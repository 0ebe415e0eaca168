use dfcache::bootstrap::{BootstrapEvent, DaemonCall};
use dfcache::command::{
    ExportCommand, FileInfo, ImportCommand, Reply, Request, StatCommand,
};
use dfcache::dispatch::{exit_status, Action, Event, Progress};
use dfcache::error::{ConnectStage, Error, ErrorKind, Invalid};
use dfcache::Command;

const SOCKET: &str = "/var/run/dragonfly/dfdaemon.sock";

/// A daemon and a filesystem that exist only in memory.
struct World {
    /// The socket path at which the daemon accepts connections, if any.
    listening_at: Option<String>,
    /// Whether the health service reports the download service as serving.
    serving: bool,
    /// Whether the call to the health service fails.
    health_call_fails: bool,
    /// Whether the download service accepts connections.
    download_accepts: bool,
    /// The local files that can be read.
    readable: Vec<String>,
    /// The tasks that the daemon knows.
    tasks: Vec<String>,
    /// The files that exports have written.
    written: Vec<String>,
    /// How many connections were attempted.
    connection_attempts: usize,
    /// How many health checks were made.
    health_checks: usize,
    /// How often the source was looked at.
    probes: usize,
    /// The requests that reached the download service.
    requests: Vec<Request>,
    /// Whether a health check has succeeded.
    health_confirmed: bool,
}

fn healthy() -> World {
    World {
        listening_at: Some(SOCKET.to_string()),
        serving: true,
        health_call_fails: false,
        download_accepts: true,
        readable: vec!["/tmp/file.bin".to_string()],
        tasks: vec!["known-task".to_string()],
        written: Vec::new(),
        connection_attempts: 0,
        health_checks: 0,
        probes: 0,
        requests: Vec::new(),
        health_confirmed: false,
    }
}

fn connect(world: &mut World, endpoint: &str) -> Result<(), String> {
    world.connection_attempts += 1;
    if world.listening_at.as_deref() == Some(endpoint) {
        Ok(())
    } else {
        Err(format!("{}: No such file or directory (os error 2)", endpoint))
    }
}

fn perform(world: &mut World, call: DaemonCall) -> BootstrapEvent {
    match call {
        DaemonCall::ConnectHealth { endpoint } => match connect(world, endpoint.path()) {
            Ok(()) => BootstrapEvent::HealthConnected,
            Err(cause) => BootstrapEvent::HealthConnectFailed { cause },
        },
        DaemonCall::CheckDownloadService => {
            world.health_checks += 1;
            if world.health_call_fails {
                BootstrapEvent::HealthCheckFailed { cause: "deadline exceeded".to_string() }
            } else {
                world.health_confirmed = world.serving;
                BootstrapEvent::HealthReported { serving: world.serving }
            }
        }
        DaemonCall::ConnectDownload { endpoint } => {
            assert!(world.health_confirmed, "connected without a successful health check");
            if !world.download_accepts {
                world.connection_attempts += 1;
                return BootstrapEvent::DownloadConnectFailed {
                    cause: "connection reset by peer".to_string(),
                };
            }
            match connect(world, endpoint.path()) {
                Ok(()) => BootstrapEvent::DownloadConnected,
                Err(cause) => BootstrapEvent::DownloadConnectFailed { cause },
            }
        }
    }
}

fn call(world: &mut World, request: Request) -> Event {
    assert!(world.health_confirmed, "a request was sent without a successful health check");
    let event = match &request {
        Request::Import { path, .. } => {
            let task_id = format!("task-{}", path.len());
            world.tasks.push(task_id.clone());
            Event::Replied(Reply::Imported { task_id })
        }
        Request::Export { task_id, output } => {
            if world.tasks.contains(task_id) {
                world.written.push(output.clone());
                Event::Replied(Reply::Exported)
            } else {
                Event::Refused { cause: format!("task {} not found", task_id) }
            }
        }
        Request::Stat { task_id } => {
            if world.tasks.contains(task_id) {
                Event::Replied(Reply::Stat {
                    info: FileInfo {
                        task_id: task_id.clone(),
                        content_length: 4096,
                        replica_count: 2,
                    },
                })
            } else {
                Event::Refused { cause: format!("task {} not found", task_id) }
            }
        }
    };
    world.requests.push(request);
    event
}

/// Runs one invocation to its end, doing what it asks for in `world`.
fn run(command: &Command, world: &mut World) -> Result<Reply, Error> {
    let mut progress = Progress::new();
    let mut event = Event::Start;
    for _ in 0..16 {
        let (next, action) = command.execute(progress, event);
        progress = next;
        event = match action {
            None => panic!("the invocation did not answer"),
            Some(Action::ProbeSource { path }) => {
                world.probes += 1;
                Event::SourceProbed { readable: world.readable.contains(&path) }
            }
            Some(Action::Daemon(work)) => Event::Daemon(perform(world, work)),
            Some(Action::Call(request)) => call(world, request),
            Some(Action::Finish(outcome)) => {
                assert!(progress.is_finished());
                return outcome;
            }
        };
    }
    panic!("the invocation did not end")
}

fn import(path: &str, replica_count: u64) -> Command {
    Command::Import(ImportCommand {
        path: path.to_string(),
        replica_count,
        digest: None,
        priority: Some(1),
        url: None,
        endpoint: SOCKET.to_string(),
    })
}

fn export(id: &str, output: &str) -> Command {
    Command::Export(ExportCommand {
        id: id.to_string(),
        output: output.to_string(),
        endpoint: SOCKET.to_string(),
    })
}

fn stat(id: &str) -> Command {
    Command::Stat(StatCommand { id: id.to_string(), endpoint: SOCKET.to_string() })
}

fn all_three() -> Vec<Command> {
    vec![import("/tmp/file.bin", 2), export("known-task", "/tmp/out"), stat("known-task")]
}

#[test]
fn import_on_a_healthy_daemon_returns_a_task_identifier() {
    let mut world = healthy();
    let outcome = run(&import("/tmp/file.bin", 2), &mut world);
    match &outcome {
        Ok(Reply::Imported { task_id }) => assert!(!task_id.is_empty()),
        other => panic!("the import did not succeed: {:?}", other),
    }
    assert_eq!(exit_status(&outcome), 0);
    assert_eq!(
        world.requests,
        vec![Request::Import {
            path: "/tmp/file.bin".to_string(),
            replica_count: 2,
            digest: None,
            priority: Some(1),
            url: None,
        }]
    );
    assert_eq!(world.probes, 1);
    assert_eq!(world.health_checks, 1);
    assert_eq!(world.connection_attempts, 2);
}

#[test]
fn export_of_an_unknown_task_is_an_operation_error_and_writes_nothing() {
    let mut world = healthy();
    let outcome = run(&export("unknown-task", "/tmp/out"), &mut world);
    assert_eq!(
        outcome,
        Err(Error::Operation { cause: "task unknown-task not found".to_string() })
    );
    match &outcome {
        Err(error) => assert_eq!(error.kind(), ErrorKind::Operation),
        Ok(_) => unreachable!(),
    }
    assert_eq!(exit_status(&outcome), 1);
    assert!(world.written.is_empty());
    assert_eq!(
        world.requests,
        vec![Request::Export { task_id: "unknown-task".to_string(), output: "/tmp/out".to_string() }]
    );
}

#[test]
fn without_a_daemon_every_command_fails_with_a_connection_error() {
    for command in all_three() {
        let mut world = healthy();
        world.listening_at = None;
        let outcome = run(&command, &mut world);
        match &outcome {
            Err(Error::Connection { stage, cause }) => {
                assert_eq!(*stage, ConnectStage::Health);
                assert_eq!(
                    cause,
                    "/var/run/dragonfly/dfdaemon.sock: No such file or directory (os error 2)"
                );
            }
            other => panic!("no connection error: {:?}", other),
        }
        assert_ne!(exit_status(&outcome), 0);
        assert_eq!(world.connection_attempts, 1);
        assert_eq!(world.health_checks, 0);
        assert!(world.requests.is_empty());
    }
}

#[test]
fn a_daemon_that_is_not_ready_is_never_sent_a_request() {
    for command in all_three() {
        let mut world = healthy();
        world.serving = false;
        let outcome = run(&command, &mut world);
        assert_eq!(outcome, Err(Error::ServiceUnavailable { failure: None }));
        assert!(world.requests.is_empty());
        assert_eq!(world.health_checks, 1);
        assert_eq!(world.connection_attempts, 1);
        assert!(world.written.is_empty());
    }
}

#[test]
fn a_failing_health_call_is_never_followed_by_a_request() {
    for command in all_three() {
        let mut world = healthy();
        world.health_call_fails = true;
        let outcome = run(&command, &mut world);
        assert_eq!(
            outcome,
            Err(Error::ServiceUnavailable { failure: Some("deadline exceeded".to_string()) })
        );
        assert!(world.requests.is_empty());
        assert_eq!(world.connection_attempts, 1);
    }
}

#[test]
fn download_connection_failure_after_health_success_has_its_own_error() {
    for command in all_three() {
        let mut world = healthy();
        world.download_accepts = false;
        let late = run(&command, &mut world);
        assert_eq!(
            late,
            Err(Error::Connection {
                stage: ConnectStage::Download,
                cause: "connection reset by peer".to_string(),
            })
        );
        assert!(world.requests.is_empty());
        assert_eq!(world.connection_attempts, 2);

        let mut unready = healthy();
        unready.serving = false;
        let refused = run(&command, &mut unready);
        let mut absent = healthy();
        absent.listening_at = None;
        let unreachable = run(&command, &mut absent);
        match (&late, &refused, &unreachable) {
            (Err(late), Err(refused), Err(unreachable)) => {
                assert_ne!(late.kind(), refused.kind());
                assert_ne!(late, unreachable);
                assert_ne!(late.message(), refused.message());
                assert_ne!(late.message(), unreachable.message());
            }
            _ => panic!("an invocation succeeded"),
        }
    }
}

#[test]
fn import_with_zero_replicas_opens_no_socket() {
    let mut world = healthy();
    let outcome = run(&import("/tmp/file.bin", 0), &mut world);
    assert_eq!(outcome, Err(Error::Validation { reason: Invalid::ZeroReplicas }));
    assert_eq!(world.connection_attempts, 0);
    assert_eq!(world.probes, 0);
    assert!(world.requests.is_empty());
}

#[test]
fn import_with_malformed_path_opens_no_socket() {
    for path in ["", "/tmp/fi\u{0}le.bin"] {
        let mut world = healthy();
        world.readable.push(path.to_string());
        let outcome = run(&import(path, 2), &mut world);
        assert_eq!(outcome, Err(Error::Validation { reason: Invalid::MalformedSourcePath }));
        assert_eq!(world.connection_attempts, 0);
        assert_eq!(world.probes, 0);
        assert!(world.requests.is_empty());
    }
}

#[test]
fn import_of_a_missing_file_opens_no_socket() {
    let mut world = healthy();
    let outcome = run(&import("/tmp/missing.bin", 2), &mut world);
    assert_eq!(outcome, Err(Error::Validation { reason: Invalid::UnreadableSource }));
    assert_eq!(world.probes, 1);
    assert_eq!(world.connection_attempts, 0);
    assert!(world.requests.is_empty());
}

#[test]
fn malformed_task_identifier_opens_no_socket() {
    for command in [export("", "/tmp/out"), export("a b", "/tmp/out"), stat(""), stat("t\u{e4}sk")]
    {
        let mut world = healthy();
        let outcome = run(&command, &mut world);
        assert_eq!(outcome, Err(Error::Validation { reason: Invalid::MalformedTaskId }));
        assert_eq!(world.connection_attempts, 0);
        assert!(world.requests.is_empty());
        assert!(world.written.is_empty());
    }
}

#[test]
fn stat_and_export_name_the_task_by_the_given_identifier() {
    for id in ["known-task", "KNOWN-TASK", "0123456789abcdef", "a/b:c", "~!@#$%^&*()"] {
        let mut world = healthy();
        let _ = run(&stat(id), &mut world);
        assert_eq!(world.requests, vec![Request::Stat { task_id: id.to_string() }]);

        let mut world = healthy();
        let _ = run(&export(id, "/tmp/out"), &mut world);
        assert_eq!(
            world.requests,
            vec![Request::Export { task_id: id.to_string(), output: "/tmp/out".to_string() }]
        );
    }
}

#[test]
fn export_of_a_known_task_writes_the_destination() {
    let mut world = healthy();
    let outcome = run(&export("known-task", "/tmp/out"), &mut world);
    assert_eq!(outcome, Ok(Reply::Exported));
    assert_eq!(world.written, vec!["/tmp/out".to_string()]);
}

#[test]
fn stat_of_a_known_task_returns_its_metadata() {
    let mut world = healthy();
    let outcome = run(&stat("known-task"), &mut world);
    assert_eq!(
        outcome,
        Ok(Reply::Stat {
            info: FileInfo {
                task_id: "known-task".to_string(),
                content_length: 4096,
                replica_count: 2,
            }
        })
    );
    assert!(world.written.is_empty());
}

#[test]
fn stat_of_an_unknown_task_is_an_operation_error() {
    let mut world = healthy();
    let outcome = run(&stat("unknown-task"), &mut world);
    assert_eq!(
        outcome,
        Err(Error::Operation { cause: "task unknown-task not found".to_string() })
    );
}

#[test]
fn both_connections_go_to_the_configured_endpoint() {
    let command = Command::Stat(StatCommand {
        id: "known-task".to_string(),
        endpoint: "/tmp/other.sock".to_string(),
    });
    let (progress, first) = command.execute(Progress::new(), Event::Start);
    match first {
        Some(Action::Daemon(DaemonCall::ConnectHealth { endpoint })) => {
            assert_eq!(endpoint.path(), "/tmp/other.sock")
        }
        other => panic!("no health connection was asked for: {:?}", other),
    }
    let (progress, _) = command.execute(progress, Event::Daemon(BootstrapEvent::HealthConnected));
    let (_, third) = command
        .execute(progress, Event::Daemon(BootstrapEvent::HealthReported { serving: true }));
    match third {
        Some(Action::Daemon(DaemonCall::ConnectDownload { endpoint })) => {
            assert_eq!(endpoint.path(), "/tmp/other.sock")
        }
        other => panic!("no download connection was asked for: {:?}", other),
    }
}

#[test]
fn events_out_of_turn_are_not_answered() {
    let command = stat("known-task");
    let (progress, action) =
        command.execute(Progress::new(), Event::Daemon(BootstrapEvent::DownloadConnected));
    assert_eq!(action, None);
    assert_eq!(progress, Progress::new());
    let (progress, action) =
        command.execute(progress, Event::Replied(Reply::Exported));
    assert_eq!(action, None);
    let (progress, action) = command.execute(progress, Event::SourceProbed { readable: true });
    assert_eq!(action, None);
    assert_eq!(progress, Progress::new());

    let (progress, _) = command.execute(progress, Event::Start);
    let (progress, action) = command.execute(progress, Event::Start);
    assert_eq!(action, None);
    let (progress, action) = command.execute(progress, Event::Daemon(BootstrapEvent::Begin));
    assert_eq!(action, None);
    let (progress, action) =
        command.execute(progress, Event::Refused { cause: "x".to_string() });
    assert_eq!(action, None);
    assert!(!progress.is_finished());
}

#[test]
fn a_reply_of_another_kind_is_not_taken() {
    let command = stat("known-task");
    let mut progress = Progress::new();
    for event in [
        Event::Start,
        Event::Daemon(BootstrapEvent::HealthConnected),
        Event::Daemon(BootstrapEvent::HealthReported { serving: true }),
        Event::Daemon(BootstrapEvent::DownloadConnected),
    ] {
        let (next, action) = command.execute(progress, event);
        assert!(action.is_some());
        progress = next;
    }
    let (progress, action) = command.execute(progress, Event::Replied(Reply::Exported));
    assert_eq!(action, None);
    assert!(!progress.is_finished());
    let (progress, action) = command
        .execute(progress, Event::Replied(Reply::Imported { task_id: "t".to_string() }));
    assert_eq!(action, None);
    let info = FileInfo { task_id: "known-task".to_string(), content_length: 1, replica_count: 1 };
    let (progress, action) = command.execute(progress, Event::Replied(Reply::Stat { info }));
    let info = FileInfo { task_id: "known-task".to_string(), content_length: 1, replica_count: 1 };
    assert_eq!(action, Some(Action::Finish(Ok(Reply::Stat { info }))));
    assert!(progress.is_finished());
}

#[test]
fn a_finished_invocation_answers_nothing() {
    let command = export("a b", "/tmp/out");
    let (progress, action) = command.execute(Progress::new(), Event::Start);
    assert_eq!(
        action,
        Some(Action::Finish(Err(Error::Validation { reason: Invalid::MalformedTaskId })))
    );
    assert!(progress.is_finished());
    let mut progress = progress;
    for event in [
        Event::Start,
        Event::SourceProbed { readable: true },
        Event::Daemon(BootstrapEvent::Begin),
        Event::Daemon(BootstrapEvent::HealthConnected),
        Event::Daemon(BootstrapEvent::HealthReported { serving: true }),
        Event::Daemon(BootstrapEvent::DownloadConnected),
        Event::Replied(Reply::Exported),
        Event::Refused { cause: "x".to_string() },
    ] {
        let (next, action) = command.execute(progress, event);
        assert_eq!(action, None);
        assert!(next.is_finished());
        progress = next;
    }
}

#[test]
fn the_daemon_is_asked_again_on_every_invocation() {
    let mut world = healthy();
    let command = stat("known-task");
    assert!(run(&command, &mut world).is_ok());
    assert!(run(&command, &mut world).is_ok());
    assert_eq!(world.health_checks, 2);
    assert_eq!(world.connection_attempts, 4);
    assert_eq!(world.requests.len(), 2);
}

#[test]
fn each_handler_decides_as_the_dispatcher_does() {
    let import = ImportCommand {
        path: "/tmp/file.bin".to_string(),
        replica_count: 2,
        digest: None,
        priority: None,
        url: None,
        endpoint: SOCKET.to_string(),
    };
    assert_eq!(
        import.execute(Progress::new(), Event::Start),
        Command::Import(import.clone()).execute(Progress::new(), Event::Start)
    );
    let (_, action) = import.execute(Progress::new(), Event::Start);
    assert_eq!(action, Some(Action::ProbeSource { path: "/tmp/file.bin".to_string() }));

    let export = ExportCommand {
        id: "known-task".to_string(),
        output: "/tmp/out".to_string(),
        endpoint: SOCKET.to_string(),
    };
    assert_eq!(
        export.execute(Progress::new(), Event::Start),
        Command::Export(export.clone()).execute(Progress::new(), Event::Start)
    );

    let stat = StatCommand { id: "known-task".to_string(), endpoint: SOCKET.to_string() };
    assert_eq!(
        stat.execute(Progress::new(), Event::Start),
        Command::Stat(stat.clone()).execute(Progress::new(), Event::Start)
    );
}
