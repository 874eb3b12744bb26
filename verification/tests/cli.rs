use auto_merge::run::Action;
use auto_merge::cli::Cli;
use auto_merge::run::Event;
use auto_merge::run::Run;
use auto_merge::run::Stage;
use auto_merge::run::Step;
use auto_merge::client::Client;
use auto_merge::client::Method;
use auto_merge::client::Request;
use auto_merge::error::RunError;
use auto_merge::pulls::Candidate;

const TWO: &[u8] = br#"[
    {"user":{"login":"dependabot[bot]"},"number":7,"head":{"sha":"abc123","ref":"deps/bump"}},
    {"user":{"login":"carol"},"number":8,"head":{"sha":"fff","ref":"feature"}},
    {"user":{"login":"dependabot[bot]"},"number":9,"head":{"sha":"def456","ref":"deps/other"}}
]"#;
const PASSED: &[u8] =
    br#"{"check_runs":[{"name":"ci","status":"completed","conclusion":"success"}]}"#;
const FAILED: &[u8] = br#"{"check_runs":[{"name":"ci","status":"completed","conclusion":"success"},{"name":"lint","status":"completed","conclusion":"failure"}]}"#;

fn get(url: &str) -> Action {
    Action::Send(Request { method: Method::Get, url: url.to_string(), body: None })
}

fn put(url: &str) -> Action {
    Action::Send(Request {
        method: Method::Put,
        url: url.to_string(),
        body: Some("{\"merge_method\":\"squash\"}".to_string()),
    })
}

fn lines(step: &Step) -> Vec<&str> {
    step.lines.iter().map(|l| l.as_str()).collect()
}

fn started() -> Run {
    let (run, _) = Cli::new("o/r".to_string()).run(Some("tk")).unwrap();
    run
}

fn candidate(number: u64, sha: &str, branch: &str) -> Candidate {
    Candidate {
        number,
        head_sha: sha.to_string(),
        head_ref: branch.to_string(),
        author_login: "dependabot[bot]".to_string(),
    }
}

#[test]
fn a_run_needs_a_token() {
    assert_eq!(Cli::new("o/r".to_string()).run(None), Err(RunError::Config));
}

#[test]
fn a_run_refuses_a_token_that_cannot_stand_in_a_header() {
    let cli = Cli::new("o/r".to_string());
    assert_eq!(cli.run(Some("tk\n")), Err(RunError::InvalidToken));
    assert_eq!(cli.run(Some("a\u{7f}b")), Err(RunError::InvalidToken));
    assert!(cli.run(Some("a\tb")).is_ok());
}

#[test]
fn a_run_starts_with_the_listing() {
    let (run, step) = Cli::new("o/r".to_string()).run(Some("tk")).unwrap();
    assert_eq!(
        run,
        Run {
            repository: "o/r".to_string(),
            client: Client::new("tk").unwrap(),
            retries: 0,
            stage: Stage::Listing,
        }
    );
    assert_eq!(run.client.authorization, "token tk");
    assert_eq!(run.client.user_agent, "auto-merge");
    assert!(step.lines.is_empty());
    assert_eq!(step.action, get("https://api.github.com/repos/o/r/pulls"));
    assert!(!run.is_finished());
}

#[test]
fn a_run_checks_and_merges_each_candidate_in_order() {
    let run = started();

    let (run, step) = run.advance(Event::Response(TWO.to_vec()));
    assert_eq!(
        lines(&step),
        vec!["found: #7 deps/bump", "found: #9 deps/other", "checking: deps/bump"]
    );
    assert_eq!(step.action, get("https://api.github.com/repos/o/r/commits/abc123/check-runs"));
    assert_eq!(
        run.stage,
        Stage::Checking {
            candidate: candidate(7, "abc123", "deps/bump"),
            waiting: vec![candidate(9, "def456", "deps/other")],
        }
    );

    let (run, step) = run.advance(Event::Response(PASSED.to_vec()));
    assert_eq!(
        lines(&step),
        vec!["  name: ci, status: completed, conclusion: success", "merging: deps/bump"]
    );
    assert_eq!(step.action, put("https://api.github.com/repos/o/r/pulls/7/merge"));
    assert!(matches!(run.stage, Stage::Merging { .. }));

    let (run, step) = run.advance(Event::Response(
        br#"{"merged":true,"message":"Pull Request successfully merged"}"#.to_vec(),
    ));
    assert_eq!(
        lines(&step),
        vec![
            "  merged: true, message: Pull Request successfully merged",
            "checking: deps/other"
        ]
    );
    assert_eq!(step.action, get("https://api.github.com/repos/o/r/commits/def456/check-runs"));

    let (run, step) = run.advance(Event::Response(FAILED.to_vec()));
    assert_eq!(
        lines(&step),
        vec![
            "  name: ci, status: completed, conclusion: success",
            "  name: lint, status: completed, conclusion: failure"
        ]
    );
    assert_eq!(step.action, Action::Finish);
    assert_eq!(run.stage, Stage::Finished { error: None });
    assert!(run.is_finished());
}

#[test]
fn a_run_without_candidates_is_done_after_the_listing() {
    let (run, step) = started().advance(Event::Response(b"[]".to_vec()));
    assert!(step.lines.is_empty());
    assert_eq!(step.action, Action::Finish);
    assert_eq!(run.stage, Stage::Finished { error: None });
}

#[test]
fn a_candidate_whose_checks_failed_is_not_merged() {
    let (run, _) = started().advance(Event::Response(TWO.to_vec()));
    let (run, step) = run.advance(Event::Response(FAILED.to_vec()));
    assert_eq!(
        lines(&step),
        vec![
            "  name: ci, status: completed, conclusion: success",
            "  name: lint, status: completed, conclusion: failure",
            "checking: deps/other"
        ]
    );
    assert_eq!(step.action, get("https://api.github.com/repos/o/r/commits/def456/check-runs"));
    assert_eq!(
        run.stage,
        Stage::Checking { candidate: candidate(9, "def456", "deps/other"), waiting: vec![] }
    );
}

#[test]
fn a_candidate_without_check_runs_is_merged() {
    let (run, _) = started().advance(Event::Response(TWO.to_vec()));
    let (_, step) = run.advance(Event::Response(br#"{"check_runs":[]}"#.to_vec()));
    assert_eq!(lines(&step), vec!["merging: deps/bump"]);
    assert_eq!(step.action, put("https://api.github.com/repos/o/r/pulls/7/merge"));
}

#[test]
fn a_refused_merge_does_not_stop_the_run() {
    let (run, _) = started().advance(Event::Response(TWO.to_vec()));
    let (run, _) = run.advance(Event::Response(PASSED.to_vec()));
    let (run, step) =
        run.advance(Event::Response(br#"{"merged":false,"message":"Merge conflict"}"#.to_vec()));
    assert_eq!(
        lines(&step),
        vec!["  merged: false, message: Merge conflict", "checking: deps/other"]
    );
    assert_eq!(step.action, get("https://api.github.com/repos/o/r/commits/def456/check-runs"));
    assert!(!run.is_finished());

    let (run, _) = run.advance(Event::Response(PASSED.to_vec()));
    let (run, step) =
        run.advance(Event::Response(br#"{"merged":false,"message":"Merge conflict"}"#.to_vec()));
    assert_eq!(lines(&step), vec!["  merged: false, message: Merge conflict"]);
    assert_eq!(step.action, Action::Finish);
    assert_eq!(run.stage, Stage::Finished { error: None });
}

#[test]
fn a_listing_that_is_no_array_ends_the_run() {
    let body = br#"{"message":"Bad credentials"}"#.to_vec();
    let (run, step) = started().advance(Event::Response(body.clone()));
    let error = RunError::UnexpectedResponse { payload: body };
    assert!(step.lines.is_empty());
    assert_eq!(step.action, Action::Abort(error.clone()));
    assert_eq!(run.stage, Stage::Finished { error: Some(error) });
}

#[test]
fn check_runs_of_another_shape_end_the_run_before_the_next_candidate() {
    let (run, _) = started().advance(Event::Response(TWO.to_vec()));
    let body = br#"{"message":"Not Found"}"#.to_vec();
    let (run, step) = run.advance(Event::Response(body.clone()));
    let error = RunError::UnexpectedResponse { payload: body };
    assert!(step.lines.is_empty());
    assert_eq!(step.action, Action::Abort(error.clone()));
    assert_eq!(run.stage, Stage::Finished { error: Some(error) });
}

#[test]
fn a_merge_answer_that_is_no_json_ends_the_run() {
    let (run, _) = started().advance(Event::Response(TWO.to_vec()));
    let (run, _) = run.advance(Event::Response(PASSED.to_vec()));
    let (run, step) = run.advance(Event::Response(b"oops".to_vec()));
    let error = RunError::UnexpectedResponse { payload: b"oops".to_vec() };
    assert_eq!(step.action, Action::Abort(error.clone()));
    assert_eq!(run.stage, Stage::Finished { error: Some(error) });
}

#[test]
fn a_failed_request_is_retried_three_times_and_then_ends_the_run() {
    let mut run = started();
    for made in 0..3u32 {
        let (next, step) = run.advance(Event::Failed(format!("timeout {}", made)));
        assert!(step.lines.is_empty());
        assert_eq!(
            step.action,
            Action::Retry {
                delay_ms: 200,
                request: Request {
                    method: Method::Get,
                    url: "https://api.github.com/repos/o/r/pulls".to_string(),
                    body: None,
                },
            }
        );
        assert_eq!(next.retries, made + 1);
        assert_eq!(next.stage, Stage::Listing);
        run = next;
    }
    let (run, step) = run.advance(Event::Failed("timeout 3".to_string()));
    let error = RunError::Request { reason: "timeout 3".to_string() };
    assert!(step.lines.is_empty());
    assert_eq!(step.action, Action::Abort(error.clone()));
    assert_eq!(run.stage, Stage::Finished { error: Some(error) });
}

#[test]
fn a_success_after_failures_goes_on_at_once_and_resets_the_count() {
    let (run, _) = started().advance(Event::Failed("reset".to_string()));
    let (run, _) = run.advance(Event::Failed("reset".to_string()));
    assert_eq!(run.retries, 2);
    let (run, step) = run.advance(Event::Response(TWO.to_vec()));
    assert_eq!(run.retries, 0);
    assert_eq!(step.action, get("https://api.github.com/repos/o/r/commits/abc123/check-runs"));

    let mut run = run;
    for _ in 0..3 {
        let (next, step) = run.advance(Event::Failed("again".to_string()));
        assert!(matches!(step.action, Action::Retry { delay_ms: 200, .. }));
        run = next;
    }
    assert!(!run.is_finished());
}

#[test]
fn a_failed_merge_is_retried_with_its_body() {
    let (run, _) = started().advance(Event::Response(TWO.to_vec()));
    let (run, _) = run.advance(Event::Response(PASSED.to_vec()));
    let (run, step) = run.advance(Event::Failed("broken pipe".to_string()));
    assert_eq!(
        step.action,
        Action::Retry {
            delay_ms: 200,
            request: Request {
                method: Method::Put,
                url: "https://api.github.com/repos/o/r/pulls/7/merge".to_string(),
                body: Some("{\"merge_method\":\"squash\"}".to_string()),
            },
        }
    );
    assert_eq!(run.retries, 1);
    assert!(matches!(run.stage, Stage::Merging { .. }));
}

#[test]
fn a_failure_while_checking_the_second_candidate_ends_the_run() {
    let (run, _) = started().advance(Event::Response(TWO.to_vec()));
    let (mut run, _) = run.advance(Event::Response(FAILED.to_vec()));
    for _ in 0..3 {
        let (next, step) = run.advance(Event::Failed("down".to_string()));
        assert_eq!(
            step.action,
            Action::Retry {
                delay_ms: 200,
                request: Request {
                    method: Method::Get,
                    url: "https://api.github.com/repos/o/r/commits/def456/check-runs"
                        .to_string(),
                    body: None,
                },
            }
        );
        run = next;
    }
    let (run, step) = run.advance(Event::Failed("still down".to_string()));
    assert_eq!(
        step.action,
        Action::Abort(RunError::Request { reason: "still down".to_string() })
    );
    assert!(run.is_finished());
}

#[test]
fn a_finished_run_answers_every_event_with_its_outcome() {
    let (run, _) = started().advance(Event::Response(b"[]".to_vec()));
    let (run, step) = run.advance(Event::Response(TWO.to_vec()));
    assert!(step.lines.is_empty());
    assert_eq!(step.action, Action::Finish);
    let (run, step) = run.advance(Event::Failed("late".to_string()));
    assert_eq!(step.action, Action::Finish);
    assert_eq!(run.stage, Stage::Finished { error: None });

    let (run, _) = started().advance(Event::Response(b"{}".to_vec()));
    let error = RunError::UnexpectedResponse { payload: b"{}".to_vec() };
    let (run, step) = run.advance(Event::Response(b"[]".to_vec()));
    assert!(step.lines.is_empty());
    assert_eq!(step.action, Action::Abort(error.clone()));
    let (run, step) = run.advance(Event::Failed("late".to_string()));
    assert_eq!(step.action, Action::Abort(error.clone()));
    assert_eq!(run.stage, Stage::Finished { error: Some(error) });
}

#[test]
fn pending_names_the_request_under_way() {
    let run = started();
    assert_eq!(run.pending(), Some(Request::list_pulls("o/r")));
    let (run, _) = run.advance(Event::Response(TWO.to_vec()));
    assert_eq!(run.pending(), Some(Request::list_checks("o/r", "abc123")));
    let (run, _) = run.advance(Event::Response(PASSED.to_vec()));
    assert_eq!(run.pending(), Some(Request::merge("o/r", 7)));
    let (run, _) = run.advance(Event::Response(b"!".to_vec()));
    assert_eq!(run.pending(), None);
}

#[test]
fn a_number_above_32_bits_is_merged_under_its_own_number() {
    let body =
        br#"[{"user":{"login":"dependabot[bot]"},"number":4294967303,"head":{"sha":"a","ref":"x"}}]"#;
    let (run, step) = started().advance(Event::Response(body.to_vec()));
    assert_eq!(lines(&step), vec!["found: #4294967303 x", "checking: x"]);
    let (_, step) = run.advance(Event::Response(PASSED.to_vec()));
    assert_eq!(step.action, put("https://api.github.com/repos/o/r/pulls/4294967303/merge"));
}
