use kak_tool::error::{ErrorKind, IoError, Outcome};
use kak_tool::kakoune::{KakClient, KakSession, Kakoune, SessionCommand};
use kak_tool::process::{Program, Spawn, Stdio};
use kak_tool::worker::{
    handle_command, is_worker, spawn_background, start_worker, Action, Job, Worker,
};

fn strings(items: &[&str]) -> Vec<String> {
    items.iter().map(|item| item.to_string()).collect()
}

fn failed(kind: ErrorKind, message: &str) -> Outcome {
    Outcome::Failed(IoError { kind, message: message.to_string() })
}

fn other(message: &str) -> IoError {
    IoError { kind: ErrorKind::Other, message: message.to_string() }
}

fn to_client(session: &str, client: &str, command: &str) -> SessionCommand {
    SessionCommand {
        spawn: Spawn {
            program: Program::Named("kak".to_string()),
            args: vec!["-p".to_string(), session.to_string()],
            stdin: Stdio::Piped,
            stdout: Stdio::Null,
            stderr: Stdio::Null,
        },
        script: format!("evaluate-commands -client {} %{{ {} }}", client, command),
    }
}

fn example_worker() -> Worker {
    handle_command(Kakoune::new(KakSession("mysession"), KakClient("client0")), Job::example())
}

/// Runs a worker to its end, each operation ending as `outcomes` says and
/// those that `outcomes` does not reach ending well.
fn run(mut worker: Worker, outcomes: Vec<Outcome>) -> Vec<Action> {
    let mut outcomes = outcomes.into_iter();
    let mut trace = Vec::new();
    loop {
        let action = worker.action();
        let leaves = matches!(action, Action::Exit { .. });
        trace.push(action);
        if leaves {
            assert!(worker.is_finished());
            return trace;
        }
        assert!(!worker.is_finished());
        assert!(trace.len() < 16);
        worker = worker.advance(outcomes.next().unwrap_or(Outcome::Done));
    }
}

fn position(trace: &[Action], wanted: fn(&Action) -> bool) -> usize {
    let found: Vec<usize> = (0..trace.len()).filter(|&i| wanted(&trace[i])).collect();
    assert_eq!(found.len(), 1);
    found[0]
}

#[test]
fn example_job_greets() {
    let job = Job::example();
    assert_eq!(job.key, "example");
    assert_eq!(job.output, Some(b"Hello world".to_vec()));
    assert_eq!(job.status, "{Error}PONG PONG");
}

#[test]
fn worker_streams_the_greeting() {
    let started = start_worker(&strings(&["kak-tool", "mysession", "client0", "hello", "--worker"]));
    let invocation = match started {
        Some(invocation) => invocation,
        None => panic!("the worker did not start"),
    };
    assert_eq!(invocation.kakoune.session(), "mysession");
    assert_eq!(invocation.kakoune.client(), "client0");
    assert_eq!(invocation.payload, strings(&["hello"]));
    assert_eq!(invocation.context.get_tool("rg"), None);

    let worker = handle_command(invocation.kakoune, Job::example());
    let trace = run(worker, vec![failed(ErrorKind::NotFound, "No such file or directory")]);
    assert_eq!(
        trace,
        vec![
            Action::RemoveFile { path: "/tmp/kak-tool-example".to_string() },
            Action::MakeFifo { path: "/tmp/kak-tool-example".to_string(), mode: 0o600 },
            Action::Announce {
                command: SessionCommand {
                    spawn: Spawn {
                        program: Program::Named("kak".to_string()),
                        args: strings(&["-p", "mysession"]),
                        stdin: Stdio::Piped,
                        stdout: Stdio::Null,
                        stderr: Stdio::Null,
                    },
                    script: "evaluate-commands -client client0 %{ edit -fifo /tmp/kak-tool-example *example* }"
                        .to_string(),
                }
            },
            Action::OpenFifo { path: "/tmp/kak-tool-example".to_string() },
            Action::Write { bytes: b"Hello world".to_vec() },
            Action::Close,
            Action::Report {
                command: to_client("mysession", "client0", "echo -markup {Error}PONG PONG")
            },
            Action::Exit { result: Ok(()) },
        ]
    );
}

#[test]
fn worker_replaces_what_stands_at_the_path() {
    let trace = run(example_worker(), vec![Outcome::Done]);
    assert_eq!(trace.len(), 8);
    assert_eq!(trace[0], Action::RemoveFile { path: "/tmp/kak-tool-example".to_string() });
    assert_eq!(
        trace[1],
        Action::MakeFifo { path: "/tmp/kak-tool-example".to_string(), mode: 0o600 }
    );
    assert_eq!(trace[3], Action::OpenFifo { path: "/tmp/kak-tool-example".to_string() });
    assert_eq!(trace[7], Action::Exit { result: Ok(()) });
}

#[test]
fn two_forwarded_arguments_start_nothing() {
    assert!(start_worker(&strings(&["kak-tool", "mysession", "client0", "--worker"])).is_none());
}

#[test]
fn start_worker_wants_three_forwarded_arguments() {
    assert!(start_worker(&strings(&[])).is_none());
    assert!(start_worker(&strings(&["--worker"])).is_none());
    assert!(start_worker(&strings(&["kak-tool", "--worker"])).is_none());
    assert!(start_worker(&strings(&["kak-tool", "s", "--worker"])).is_none());
    assert!(start_worker(&strings(&["kak-tool", "s", "c"])).is_none());
    assert!(start_worker(&strings(&["--worker", "kak-tool", "s", "--worker", "c"])).is_none());
    assert!(start_worker(&strings(&["kak-tool", "s", "c", "p"])).is_some());
    assert!(start_worker(&strings(&["kak-tool", "s", "c", ""])).is_some());
}

#[test]
fn start_worker_strips_the_marker_wherever_it_stands() {
    let started =
        start_worker(&strings(&["kak-tool", "--worker", "s", "c", "--worker", "rg", "-i", "x"]));
    let invocation = started.unwrap();
    assert_eq!(invocation.kakoune.session(), "s");
    assert_eq!(invocation.kakoune.client(), "c");
    assert_eq!(invocation.payload, strings(&["rg", "-i", "x"]));
}

#[test]
fn is_worker_looks_for_the_marker() {
    assert!(is_worker(&strings(&["kak-tool", "s", "c", "--worker"])));
    assert!(is_worker(&strings(&["--worker"])));
    assert!(is_worker(&strings(&["kak-tool", "--worker", "s"])));
    assert!(!is_worker(&strings(&["kak-tool", "s", "c"])));
    assert!(!is_worker(&strings(&["kak-tool", "--worker ", "-worker", "--workers"])));
    assert!(!is_worker(&strings(&[])));
}

#[test]
fn spawn_background_forwards_the_arguments_and_the_marker() {
    assert_eq!(
        spawn_background(&strings(&["kak-tool", "mysession", "client0", "hello"])),
        Spawn {
            program: Program::Current,
            args: strings(&["mysession", "client0", "hello", "--worker"]),
            stdin: Stdio::Null,
            stdout: Stdio::Null,
            stderr: Stdio::Null,
        }
    );
}

#[test]
fn spawn_background_with_the_name_alone_or_nothing() {
    assert_eq!(spawn_background(&strings(&["kak-tool"])).args, strings(&["--worker"]));
    assert_eq!(spawn_background(&strings(&[])).args, strings(&["--worker"]));
}

#[test]
fn worker_gets_what_the_foreground_call_was_given() {
    let given = strings(&["/usr/bin/kak-tool", "mysession", "client0", "rg", "needle"]);
    assert!(!is_worker(&given));
    let spawn = spawn_background(&given);
    let mut started = strings(&["/proc/self/exe"]);
    started.extend(spawn.args);
    assert!(is_worker(&started));
    let invocation = start_worker(&started).unwrap();
    assert_eq!(invocation.kakoune.session(), "mysession");
    assert_eq!(invocation.kakoune.client(), "client0");
    assert_eq!(invocation.payload, strings(&["rg", "needle"]));
}

#[test]
fn announce_open_close_report_come_in_this_order() {
    let trace = run(example_worker(), Vec::new());
    let announce = position(&trace, |action| matches!(action, Action::Announce { .. }));
    let open = position(&trace, |action| matches!(action, Action::OpenFifo { .. }));
    let write = position(&trace, |action| matches!(action, Action::Write { .. }));
    let close = position(&trace, |action| matches!(action, Action::Close));
    let report = position(&trace, |action| matches!(action, Action::Report { .. }));
    let exit = position(&trace, |action| matches!(action, Action::Exit { .. }));
    assert!(announce < open);
    assert!(open < write);
    assert!(write < close);
    assert!(close < report);
    assert!(report < exit);
    assert_eq!(exit, trace.len() - 1);
}

#[test]
fn action_stays_until_the_worker_is_advanced() {
    let worker = example_worker();
    assert_eq!(worker.action(), worker.action());
    assert!(!worker.is_finished());
}

#[test]
fn failed_removal_ends_the_run_before_anything_is_made() {
    let trace = run(example_worker(), vec![failed(ErrorKind::Other, "Permission denied")]);
    assert_eq!(
        trace,
        vec![
            Action::RemoveFile { path: "/tmp/kak-tool-example".to_string() },
            Action::Exit { result: Err(other("Permission denied")) },
        ]
    );
}

#[test]
fn failed_mkfifo_ends_the_run_before_the_announcement() {
    let trace =
        run(example_worker(), vec![Outcome::Done, failed(ErrorKind::Other, "not supported")]);
    assert_eq!(trace.len(), 3);
    assert_eq!(trace[2], Action::Exit { result: Err(other("not supported")) });
}

#[test]
fn failed_announcement_ends_the_run_before_the_pipe_is_opened() {
    let trace = run(
        example_worker(),
        vec![Outcome::Done, Outcome::Done, failed(ErrorKind::NotFound, "kak: not found")],
    );
    assert_eq!(trace.len(), 4);
    assert!(matches!(trace[2], Action::Announce { .. }));
    assert_eq!(
        trace[3],
        Action::Exit {
            result: Err(IoError {
                kind: ErrorKind::NotFound,
                message: "kak: not found".to_string()
            })
        }
    );
}

#[test]
fn failed_open_ends_the_run_with_nothing_to_close() {
    let trace = run(
        example_worker(),
        vec![Outcome::Done, Outcome::Done, Outcome::Done, failed(ErrorKind::Other, "interrupted")],
    );
    assert_eq!(trace.len(), 5);
    assert!(matches!(trace[3], Action::OpenFifo { .. }));
    assert_eq!(trace[4], Action::Exit { result: Err(other("interrupted")) });
}

#[test]
fn failed_write_closes_the_pipe_and_reports_nothing() {
    let trace = run(
        example_worker(),
        vec![
            Outcome::Done,
            Outcome::Done,
            Outcome::Done,
            Outcome::Done,
            failed(ErrorKind::Other, "Broken pipe"),
        ],
    );
    assert_eq!(trace.len(), 7);
    assert_eq!(trace[4], Action::Write { bytes: b"Hello world".to_vec() });
    assert_eq!(trace[5], Action::Close);
    assert_eq!(trace[6], Action::Exit { result: Err(other("Broken pipe")) });
}

#[test]
fn failed_report_ends_the_run_with_that_failure() {
    let mut outcomes = Vec::new();
    for _ in 0..6 {
        outcomes.push(Outcome::Done);
    }
    outcomes.push(failed(ErrorKind::Other, "Broken pipe"));
    let trace = run(example_worker(), outcomes);
    assert_eq!(trace.len(), 8);
    assert!(matches!(trace[6], Action::Report { .. }));
    assert_eq!(trace[7], Action::Exit { result: Err(other("Broken pipe")) });
}

#[test]
fn outcome_of_closing_does_not_matter() {
    let mut outcomes = Vec::new();
    for _ in 0..5 {
        outcomes.push(Outcome::Done);
    }
    outcomes.push(failed(ErrorKind::Other, "ignored"));
    let trace = run(example_worker(), outcomes);
    assert_eq!(trace.len(), 8);
    assert_eq!(trace[7], Action::Exit { result: Ok(()) });
}

#[test]
fn failed_work_writes_nothing_and_is_reported() {
    let job = Job { key: "grep".to_string(), output: None, status: "{Error}grep failed".to_string() };
    let worker = handle_command(Kakoune::new(KakSession("s"), KakClient("main")), job);
    let trace = run(worker, Vec::new());
    assert_eq!(
        trace,
        vec![
            Action::RemoveFile { path: "/tmp/kak-tool-grep".to_string() },
            Action::MakeFifo { path: "/tmp/kak-tool-grep".to_string(), mode: 0o600 },
            Action::Announce {
                command: to_client("s", "main", "edit -fifo /tmp/kak-tool-grep *grep*")
            },
            Action::OpenFifo { path: "/tmp/kak-tool-grep".to_string() },
            Action::Close,
            Action::Report { command: to_client("s", "main", "echo -markup {Error}grep failed") },
            Action::Exit { result: Ok(()) },
        ]
    );
}

#[test]
fn empty_output_is_still_written() {
    let job = Job { key: "k".to_string(), output: Some(Vec::new()), status: String::new() };
    let worker = handle_command(Kakoune::new(KakSession("s"), KakClient("c")), job);
    let trace = run(worker, Vec::new());
    assert_eq!(trace.len(), 8);
    assert_eq!(trace[4], Action::Write { bytes: Vec::new() });
}

#[test]
fn finished_worker_stays_finished() {
    let mut worker = example_worker();
    worker = worker.advance(failed(ErrorKind::Other, "first"));
    assert!(worker.is_finished());
    worker = worker.advance(Outcome::Done);
    assert!(worker.is_finished());
    worker = worker.advance(failed(ErrorKind::Other, "second"));
    assert_eq!(worker.action(), Action::Exit { result: Err(other("first")) });
}
