use curator::batch::{describe_failure, BatchRunner, FileReport, UnroutedPolicy};
use curator::endpoint::{endpoints_for, standard_table, Action, Asset};
use curator::request::{build_requests, FileContent, Method, Request};
use curator::response::{interpret_reply, Reply, SubmissionOutcome};
use curator::submission::{ErrorKind, FileVerdict, Submission};
use curator::request::ReadError;

fn request(asset: Asset) -> Request {
    Request {
        asset,
        method: Method::Post,
        url: format!("https://example.org/{}", asset.name()),
        content_type: asset.content_type().to_string(),
        body: vec![1, 2, 3],
    }
}

fn three() -> Vec<Request> {
    vec![request(Asset::Config), request(Asset::Thumbnail), request(Asset::Banner)]
}

fn failed(kind: ErrorKind, asset: Asset, message: &str) -> FileVerdict {
    FileVerdict::Failed { kind, asset, message: message.to_string() }
}

fn refusal(message: &str) -> SubmissionOutcome {
    SubmissionOutcome::Failure { message: message.to_string() }
}

#[test]
fn submission_sends_its_requests_in_order() {
    let mut submission = Submission::new(three());
    assert!(!submission.is_finished());
    assert_eq!(submission.verdict(), None);
    assert_eq!(submission.next_request(), Some(&request(Asset::Config)));
    submission.record(SubmissionOutcome::Success);
    assert_eq!(submission.next_request(), Some(&request(Asset::Thumbnail)));
    assert_eq!(submission.verdict(), None);
    submission.record(SubmissionOutcome::Success);
    assert_eq!(submission.next_request(), Some(&request(Asset::Banner)));
    submission.record(SubmissionOutcome::Success);
    assert_eq!(submission.next_request(), None);
    assert!(submission.is_finished());
    assert_eq!(submission.verdict(), Some(FileVerdict::Success));
}

#[test]
fn submission_ends_at_the_first_failure() {
    let mut submission = Submission::new(three());
    submission.record(SubmissionOutcome::Success);
    submission.record(refusal("image too large"));
    assert!(submission.is_finished());
    assert_eq!(submission.next_request(), None);
    assert_eq!(
        submission.verdict(),
        Some(failed(ErrorKind::RemoteFailure, Asset::Thumbnail, "image too large"))
    );
}

#[test]
fn outcome_after_the_end_changes_nothing() {
    let mut submission = Submission::new(vec![request(Asset::Config)]);
    submission.record(SubmissionOutcome::Success);
    submission.record(refusal("late"));
    assert_eq!(submission.verdict(), Some(FileVerdict::Success));

    let mut submission = Submission::new(three());
    submission.record(SubmissionOutcome::TransportError { detail: "timed out".to_string() });
    submission.record(SubmissionOutcome::Success);
    submission.record(refusal("late"));
    assert_eq!(
        submission.verdict(),
        Some(failed(ErrorKind::TransportError, Asset::Config, "timed out"))
    );
}

#[test]
fn submission_without_requests_succeeds_at_once() {
    let submission = Submission::new(vec![]);
    assert!(submission.is_finished());
    assert_eq!(submission.next_request(), None);
    assert_eq!(submission.verdict(), Some(FileVerdict::Success));
}

#[test]
fn every_kind_of_outcome_but_success_fails_the_file() {
    assert_eq!(FileVerdict::from_outcome(Asset::Config, SubmissionOutcome::Success), None);
    assert_eq!(
        FileVerdict::from_outcome(Asset::Config, refusal("bad toml")),
        Some(failed(ErrorKind::RemoteFailure, Asset::Config, "bad toml"))
    );
    assert_eq!(
        FileVerdict::from_outcome(
            Asset::Banner,
            SubmissionOutcome::TransportError { detail: "timed out".to_string() }
        ),
        Some(failed(ErrorKind::TransportError, Asset::Banner, "timed out"))
    );
    assert_eq!(
        FileVerdict::from_outcome(
            Asset::Thumbnail,
            SubmissionOutcome::ProtocolError { detail: "invalid server response".to_string() }
        ),
        Some(failed(ErrorKind::ProtocolError, Asset::Thumbnail, "invalid server response"))
    );
}

#[test]
fn read_error_fails_the_file() {
    let error = ReadError { asset: Asset::Thumbnail, detail: "permission denied".to_string() };
    assert_eq!(
        FileVerdict::from_read_error(error),
        failed(ErrorKind::ReadError, Asset::Thumbnail, "permission denied")
    );
}

#[test]
fn kind_of_each_verdict() {
    assert_eq!(FileVerdict::Success.kind(), None);
    assert_eq!(FileVerdict::Skipped.kind(), Some(ErrorKind::NoRouteMatch));
    assert_eq!(
        failed(ErrorKind::ProtocolError, Asset::Config, "x").kind(),
        Some(ErrorKind::ProtocolError)
    );
    let verdict = failed(ErrorKind::ReadError, Asset::Banner, "y");
    assert_eq!(verdict.duplicate(), verdict);
}

#[test]
fn policy_for_each_action() {
    assert_eq!(UnroutedPolicy::for_action(Action::Validate, true), UnroutedPolicy::Warn);
    assert_eq!(UnroutedPolicy::for_action(Action::Validate, false), UnroutedPolicy::Warn);
    assert_eq!(UnroutedPolicy::for_action(Action::Update, true), UnroutedPolicy::Fail);
    assert_eq!(UnroutedPolicy::for_action(Action::Update, false), UnroutedPolicy::Warn);
}

#[test]
fn empty_run_exits_with_zero() {
    let runner = BatchRunner::new();
    assert_eq!(runner.len(), 0);
    assert!(!runner.had_failure());
    assert_eq!(runner.exit_code(), 0);
}

#[test]
fn run_of_successes_exits_with_zero() {
    let mut runner = BatchRunner::new();
    assert!(!runner.record("a.toml".to_string(), UnroutedPolicy::Warn, FileVerdict::Success));
    assert!(!runner.record("b.toml".to_string(), UnroutedPolicy::Fail, FileVerdict::Success));
    assert_eq!(runner.exit_code(), 0);
    assert_eq!(runner.len(), 2);
}

#[test]
fn skipped_file_fails_the_run_only_under_the_failing_policy() {
    let mut runner = BatchRunner::new();
    assert!(!runner.record("a.toml".to_string(), UnroutedPolicy::Warn, FileVerdict::Skipped));
    assert_eq!(runner.exit_code(), 0);
    assert!(runner.record("b.toml".to_string(), UnroutedPolicy::Fail, FileVerdict::Skipped));
    assert_eq!(runner.exit_code(), 1);
}

#[test]
fn one_failure_fails_the_run_for_good() {
    let mut runner = BatchRunner::new();
    runner.record("a.toml".to_string(), UnroutedPolicy::Warn, FileVerdict::Success);
    assert!(runner.record(
        "b.toml".to_string(),
        UnroutedPolicy::Warn,
        failed(ErrorKind::ReadError, Asset::Config, "permission denied")
    ));
    assert!(runner.had_failure());
    runner.record("c.toml".to_string(), UnroutedPolicy::Warn, FileVerdict::Success);
    assert!(runner.had_failure());
    assert_eq!(runner.exit_code(), 1);
}

fn submit(action: Action, file: &str, bodies: &[&str]) -> FileVerdict {
    let table = standard_table();
    let endpoints = match endpoints_for(&table, action, file) {
        Some(endpoints) => endpoints,
        None => return FileVerdict::Skipped,
    };
    let requests = build_requests(
        action,
        &endpoints,
        FileContent::Present(b"name = \"x\"\n".to_vec()),
        FileContent::Present(vec![0x89]),
        FileContent::Absent,
    )
    .unwrap();
    let mut submission = Submission::new(requests);
    let mut answered = 0;
    loop {
        let url = match submission.next_request() {
            Some(next) => next.url.clone(),
            None => break,
        };
        let reply = Reply::Received { body: Some(bodies[answered].to_string()) };
        answered += 1;
        submission.record(interpret_reply(&url, &reply));
    }
    submission.verdict().unwrap()
}

#[test]
fn batch_of_success_remote_error_and_no_route() {
    let action = Action::Validate;
    let policy = UnroutedPolicy::for_action(action, true);
    let files = [
        "collections/cardano/aaa/overview.toml",
        "collections/cardano/bbb/overview.toml",
        "notes/readme.md",
    ];
    let answers: [&[&str]; 3] = [
        &["{\"status\":\"ok\"}"],
        &["{\"status\":\"error\",\"error\":\"bad toml\"}"],
        &[],
    ];
    let mut runner = BatchRunner::new();
    for (file, bodies) in files.iter().zip(answers.iter()) {
        let verdict = submit(action, file, bodies);
        runner.record(file.to_string(), policy, verdict);
    }
    assert_eq!(runner.exit_code(), 1);
    assert_eq!(
        runner.reports(),
        &vec![
            FileReport {
                file: files[0].to_string(),
                policy: UnroutedPolicy::Warn,
                verdict: FileVerdict::Success,
            },
            FileReport {
                file: files[1].to_string(),
                policy: UnroutedPolicy::Warn,
                verdict: failed(ErrorKind::RemoteFailure, Asset::Config, "bad toml"),
            },
            FileReport {
                file: files[2].to_string(),
                policy: UnroutedPolicy::Warn,
                verdict: FileVerdict::Skipped,
            },
        ]
    );
    let lines: Vec<String> = runner.reports().iter().map(|report| report.text(action)).collect();
    assert_eq!(
        lines,
        vec![
            "collections/cardano/aaa/overview.toml is valid".to_string(),
            "collections/cardano/bbb/overview.toml: bad toml".to_string(),
            "Skipping notes/readme.md (no route matched)".to_string(),
        ]
    );
}

#[test]
fn batch_of_success_and_no_route_exits_by_the_policy() {
    for (action, code) in [(Action::Validate, 0), (Action::Update, 1)] {
        let policy = UnroutedPolicy::for_action(action, true);
        let mut runner = BatchRunner::new();
        let ok = ["{\"status\":\"ok\"}", "{\"status\":\"ok\"}"];
        let verdict = submit(action, "collections/cardano/aaa/overview.toml", &ok);
        assert_eq!(verdict, FileVerdict::Success);
        runner.record("collections/cardano/aaa/overview.toml".to_string(), policy, verdict);
        let verdict = submit(action, "notes/readme.md", &[]);
        assert_eq!(verdict, FileVerdict::Skipped);
        runner.record("notes/readme.md".to_string(), policy, verdict);
        assert_eq!(runner.exit_code(), code);
        assert_eq!(runner.len(), 2);
    }
}

#[test]
fn update_stops_after_a_failed_upload() {
    let verdict = submit(
        Action::Update,
        "collections/cardano/aaa/overview.toml",
        &["{\"status\":\"ok\"}", "not json"],
    );
    assert_eq!(
        verdict,
        failed(ErrorKind::ProtocolError, Asset::Thumbnail, "invalid server response")
    );
    let verdict = submit(
        Action::Update,
        "collections/cardano/aaa/overview.toml",
        &["{\"status\":\"error\",\"error\":\"bad toml\"}"],
    );
    assert_eq!(verdict, failed(ErrorKind::RemoteFailure, Asset::Config, "bad toml"));
}

#[test]
fn failures_are_described_by_action_and_asset() {
    assert_eq!(
        describe_failure(Action::Validate, ErrorKind::RemoteFailure, Asset::Config, "bad toml"),
        "bad toml"
    );
    assert_eq!(
        describe_failure(Action::Update, ErrorKind::RemoteFailure, Asset::Config, "bad toml"),
        "config upload failed: bad toml"
    );
    assert_eq!(
        describe_failure(Action::Update, ErrorKind::TransportError, Asset::Thumbnail, "timed out"),
        "thumbnail upload failed: timed out"
    );
    assert_eq!(
        describe_failure(Action::Update, ErrorKind::ProtocolError, Asset::Banner, "invalid"),
        "banner upload failed: invalid"
    );
    assert_eq!(
        describe_failure(Action::Update, ErrorKind::ReadError, Asset::Config, "denied"),
        "read error: denied"
    );
    assert_eq!(
        describe_failure(Action::Validate, ErrorKind::ReadError, Asset::Config, "denied"),
        "read error: denied"
    );
    assert_eq!(
        describe_failure(Action::Update, ErrorKind::ReadError, Asset::Thumbnail, "denied"),
        "thumbnail read error: denied"
    );
    assert_eq!(
        describe_failure(Action::Update, ErrorKind::NoRouteMatch, Asset::Config, "nothing"),
        "nothing"
    );
}

#[test]
fn report_lines_of_an_update() {
    let report = |verdict: FileVerdict| FileReport {
        file: "c/overview.toml".to_string(),
        policy: UnroutedPolicy::Fail,
        verdict,
    };
    assert_eq!(report(FileVerdict::Success).text(Action::Update), "c/overview.toml submitted");
    assert_eq!(report(FileVerdict::Success).text(Action::Validate), "c/overview.toml is valid");
    assert_eq!(
        report(FileVerdict::Skipped).text(Action::Update),
        "Skipping c/overview.toml (no route matched)"
    );
    assert_eq!(
        report(failed(ErrorKind::RemoteFailure, Asset::Banner, "too wide")).text(Action::Update),
        "c/overview.toml: banner upload failed: too wide"
    );
}
