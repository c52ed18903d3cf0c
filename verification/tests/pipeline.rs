use kommitter::config::{ConfigFields, Endpoint};
use kommitter::error::CommitError;
use kommitter::json::Lookup;
use kommitter::pipeline::{is_success, read_reply, stage_error, Action, Event, Pipeline, State};
use kommitter::request::{Body, Method, Request, Stage};

fn full_fields() -> ConfigFields {
    ConfigFields {
        github_token: Some(String::from("t0k3n")),
        github_username: Some(String::from("octocat")),
        github_file_path: Some(String::from("notes/auto.txt")),
        github_repo_name: Some(String::from("hello-world")),
        github_branch: Some(String::from("main")),
        github_commit_message: Some(String::from("auto commit")),
    }
}

fn fresh_run() -> Pipeline {
    Pipeline::start(Endpoint::github(), full_fields(), 1700000000).unwrap()
}

fn due_request(run: &Pipeline) -> Request {
    match run.action() {
        Action::Send(request) => request,
        other => panic!("a call should be due, not {:?}", other),
    }
}

fn ok(sha: &str) -> Event {
    Event::Reply { status: 201, found: Lookup::Found(String::from(sha)) }
}

fn run_at(stage: Stage) -> Pipeline {
    let mut run = fresh_run();
    let replies = vec!["-", "parent-id", "blob-id", "tree-id", "commit-id", "-"];
    for reply in replies {
        if run.state().stage() == Some(stage) {
            break;
        }
        run = run.advance(ok(reply));
    }
    assert_eq!(run.state().stage(), Some(stage));
    run
}

#[test]
fn successful_run_makes_the_calls_in_order() {
    let mut run = fresh_run();
    let bodies = vec![
        "<html>hello</html>",
        "{\"name\":\"main\",\"commit\":{\"sha\":\"7fd1a60b\"}}",
        "{\"sha\":\"3a0f86fb\",\"url\":\"u\"}",
        "{\"sha\":\"9c5b2a1d\"}",
        "{\"sha\":\"c0ffee00\"}",
        "{\"ref\":\"refs/heads/main\"}",
        "{\"sha\":\"c0ffee00\"}",
    ];
    let statuses: Vec<u16> = vec![200, 200, 201, 201, 201, 200, 200];
    let mut sent: Vec<Request> = Vec::new();
    for (status, body) in statuses.into_iter().zip(bodies) {
        sent.push(due_request(&run));
        run = run.on_reply(status, body);
    }
    assert_eq!(run.action(), Action::Finish);
    assert_eq!(
        run.state(),
        &State::Done {
            commit: String::from("c0ffee00"),
            confirmed: Some(String::from("c0ffee00")),
        }
    );

    let stages: Vec<Stage> = sent.iter().map(|request| request.stage).collect();
    assert_eq!(
        stages,
        vec![
            Stage::Preflight,
            Stage::ResolveHead,
            Stage::CreateBlob,
            Stage::CreateTree,
            Stage::CreateCommit,
            Stage::UpdateRef,
            Stage::ConfirmBranch,
        ]
    );
    let methods: Vec<Method> = sent.iter().map(|request| request.method).collect();
    assert_eq!(
        methods,
        vec![
            Method::Get,
            Method::Get,
            Method::Post,
            Method::Post,
            Method::Post,
            Method::Patch,
            Method::Patch,
        ]
    );
    assert_eq!(
        sent[2].body,
        Some(Body::Blob {
            content: String::from(
                "This is an auto commit from Kommitter at 1700000000 seconds since the Unix Epoch."
            ),
        })
    );
    assert_eq!(
        sent[3].body,
        Some(Body::Tree {
            base_tree: String::from("7fd1a60b"),
            path: String::from("notes/auto.txt"),
            sha: String::from("3a0f86fb"),
        })
    );
    assert_eq!(
        sent[4].body,
        Some(Body::Commit {
            message: String::from("auto commit"),
            tree: String::from("9c5b2a1d"),
            parent: String::from("7fd1a60b"),
        })
    );
    assert_eq!(sent[5].body, Some(Body::Reference { sha: String::from("c0ffee00") }));
    assert_eq!(sent[6].body, Some(Body::Reference { sha: String::from("c0ffee00") }));
    assert_eq!(sent[5].body.as_ref().unwrap().to_json(), "{\"sha\":\"c0ffee00\"}");
}

#[test]
fn reference_update_carries_the_sha_of_the_commit_reply() {
    let run = run_at(Stage::CreateCommit);
    let run = run.on_reply(201, "{\"sha\":\"0123456789abcdef\",\"tree\":{\"sha\":\"other\"}}");
    let request = due_request(&run);
    assert_eq!(request.stage, Stage::UpdateRef);
    let text = request.body.unwrap().to_json();
    let parsed: serde_json::Value = serde_json::from_str(&text).unwrap();
    assert_eq!(parsed["sha"].as_str(), Some("0123456789abcdef"));
}

#[test]
fn missing_branch_stops_the_run() {
    let run = run_at(Stage::ResolveHead);
    let run = run.on_reply(404, "{\"message\":\"Branch not found\"}");
    assert_eq!(run.action(), Action::Abort(CommitError::RemoteLookupError));
    assert_eq!(
        run.state(),
        &State::Failed { stage: Stage::ResolveHead, error: CommitError::RemoteLookupError }
    );
    let run = run.on_reply(201, "{\"sha\":\"3a0f86fb\"}");
    assert_eq!(run.action(), Action::Abort(CommitError::RemoteLookupError));
    let run = run.advance(ok("late"));
    assert_eq!(run.action(), Action::Abort(CommitError::RemoteLookupError));
    let run = run.on_transport_failure();
    assert_eq!(
        run.state(),
        &State::Failed { stage: Stage::ResolveHead, error: CommitError::RemoteLookupError }
    );
}

#[test]
fn missing_branch_stops_the_run_even_with_a_sha_in_the_body() {
    let run = run_at(Stage::ResolveHead);
    let run = run.on_reply(404, "{\"commit\":{\"sha\":\"7fd1a60b\"}}");
    assert_eq!(run.action(), Action::Abort(CommitError::RemoteLookupError));
}

#[test]
fn failed_blob_creation_stops_the_run() {
    let run = run_at(Stage::CreateBlob);
    let run = run.on_reply(422, "{\"message\":\"Validation Failed\"}");
    assert_eq!(run.action(), Action::Abort(CommitError::RemoteWriteError));
    assert_eq!(
        run.state(),
        &State::Failed { stage: Stage::CreateBlob, error: CommitError::RemoteWriteError }
    );
    let run = run.on_reply(201, "{\"sha\":\"9c5b2a1d\"}");
    assert_eq!(run.action(), Action::Abort(CommitError::RemoteWriteError));
}

#[test]
fn unreadable_blob_reply_stops_the_run() {
    let run = run_at(Stage::CreateBlob).on_reply(201, "created");
    assert_eq!(run.action(), Action::Abort(CommitError::RemoteWriteError));
    let run = run_at(Stage::CreateBlob).on_reply(201, "{\"id\":\"3a0f86fb\"}");
    assert_eq!(run.action(), Action::Abort(CommitError::RemoteWriteError));
    let run = run_at(Stage::CreateBlob).on_reply(201, "{\"sha\":12}");
    assert_eq!(run.action(), Action::Abort(CommitError::RemoteWriteError));
}

#[test]
fn tree_is_based_on_the_branch_head_as_it_came() {
    let head = "  Odd \"head\" \\ id\u{e9} ";
    let run = run_at(Stage::ResolveHead);
    let reply = format!(
        "{{\"commit\":{{\"sha\":{}}}}}",
        serde_json::Value::String(String::from(head))
    );
    let run = run.on_reply(200, &reply);
    assert_eq!(run.state(), &State::CreateBlob { parent: String::from(head) });
    let run = run.on_reply(201, "{\"sha\":\"3a0f86fb\"}");
    let request = due_request(&run);
    assert_eq!(request.stage, Stage::CreateTree);
    assert_eq!(
        request.body,
        Some(Body::Tree {
            base_tree: String::from(head),
            path: String::from("notes/auto.txt"),
            sha: String::from("3a0f86fb"),
        })
    );
    let text = request.body.unwrap().to_json();
    let parsed: serde_json::Value = serde_json::from_str(&text).unwrap();
    assert_eq!(parsed["base_tree"].as_str(), Some(head));
}

#[test]
fn incomplete_configuration_starts_no_run() {
    let mut fields = full_fields();
    fields.github_branch = None;
    assert_eq!(
        Pipeline::start(Endpoint::github(), fields, 1700000000),
        Err(CommitError::ConfigError)
    );
}

#[test]
fn complete_configuration_starts_at_the_probe() {
    let run = fresh_run();
    assert_eq!(run.state(), &State::Preflight);
    assert_eq!(run.now_secs(), 1700000000);
    assert_eq!(run.config().github_branch, "main");
    assert_eq!(run.endpoint().api_base, "https://api.github.com");
    let request = due_request(&run);
    assert_eq!(request.stage, Stage::Preflight);
    assert_eq!(request.url, "http://www.google.com");
}

#[test]
fn two_runs_at_different_seconds_send_different_content() {
    let first = Pipeline::start(Endpoint::github(), full_fields(), 1700000000).unwrap();
    let second = Pipeline::start(Endpoint::github(), full_fields(), 1700000001).unwrap();
    let first = first.advance(ok("-")).advance(ok("parent-id"));
    let second = second.advance(ok("-")).advance(ok("parent-id"));
    let first_blob = due_request(&first);
    let second_blob = due_request(&second);
    assert_eq!(first_blob.url, second_blob.url);
    assert_ne!(first_blob.body, second_blob.body);
    assert_ne!(
        first_blob.body.unwrap().to_json(),
        second_blob.body.unwrap().to_json()
    );
}

#[test]
fn unreachable_network_is_a_connectivity_error() {
    let run = fresh_run().on_transport_failure();
    assert_eq!(run.action(), Action::Abort(CommitError::ConnectivityError));
    let run = fresh_run().on_reply(503, "");
    assert_eq!(run.action(), Action::Abort(CommitError::ConnectivityError));
    assert_eq!(
        run.state(),
        &State::Failed { stage: Stage::Preflight, error: CommitError::ConnectivityError }
    );
}

#[test]
fn probe_needs_no_json() {
    let run = fresh_run().on_reply(200, "<!doctype html>");
    assert_eq!(run.state(), &State::ResolveHead);
}

#[test]
fn lookup_without_the_expected_field_is_a_lookup_error() {
    let run = run_at(Stage::ResolveHead).on_reply(200, "{\"commit\":{}}");
    assert_eq!(run.action(), Action::Abort(CommitError::RemoteLookupError));
    let run = run_at(Stage::ResolveHead).on_reply(200, "{\"sha\":\"7fd1a60b\"}");
    assert_eq!(run.action(), Action::Abort(CommitError::RemoteLookupError));
    let run = run_at(Stage::ResolveHead).on_reply(200, "not json");
    assert_eq!(run.action(), Action::Abort(CommitError::RemoteLookupError));
    let run = run_at(Stage::ResolveHead).on_transport_failure();
    assert_eq!(run.action(), Action::Abort(CommitError::RemoteLookupError));
}

#[test]
fn every_write_stage_fails_with_a_write_error() {
    let stages = vec![
        Stage::CreateBlob,
        Stage::CreateTree,
        Stage::CreateCommit,
        Stage::UpdateRef,
        Stage::ConfirmBranch,
    ];
    for stage in stages {
        let refused = run_at(stage).on_reply(500, "{\"sha\":\"abc\"}");
        assert_eq!(
            refused.state(),
            &State::Failed { stage, error: CommitError::RemoteWriteError }
        );
        let silent = run_at(stage).on_transport_failure();
        assert_eq!(
            silent.state(),
            &State::Failed { stage, error: CommitError::RemoteWriteError }
        );
        let redirected = run_at(stage).advance(Event::Reply {
            status: 302,
            found: Lookup::Found(String::from("abc")),
        });
        assert_eq!(redirected.action(), Action::Abort(CommitError::RemoteWriteError));
    }
}

#[test]
fn stages_that_produce_an_identifier_need_one() {
    let stages = vec![Stage::CreateBlob, Stage::CreateTree, Stage::CreateCommit];
    for stage in stages {
        let run = run_at(stage).advance(Event::Reply { status: 201, found: Lookup::Absent });
        assert_eq!(
            run.state(),
            &State::Failed { stage, error: CommitError::RemoteWriteError }
        );
        let run = run_at(stage).advance(Event::Reply { status: 201, found: Lookup::Malformed });
        assert_eq!(
            run.state(),
            &State::Failed { stage, error: CommitError::RemoteWriteError }
        );
    }
    let run = run_at(Stage::ResolveHead).advance(Event::Reply {
        status: 200,
        found: Lookup::Absent,
    });
    assert_eq!(
        run.state(),
        &State::Failed { stage: Stage::ResolveHead, error: CommitError::RemoteLookupError }
    );
    let run = run_at(Stage::ResolveHead).advance(Event::Reply {
        status: 200,
        found: Lookup::Malformed,
    });
    assert_eq!(
        run.state(),
        &State::Failed { stage: Stage::ResolveHead, error: CommitError::RemoteLookupError }
    );
}

#[test]
fn reference_update_takes_no_identifier_from_the_body() {
    let run = run_at(Stage::UpdateRef).on_reply(200, "{\"object\":{\"sha\":\"other\"}}");
    assert_eq!(run.state(), &State::ConfirmBranch { commit: String::from("commit-id") });
    let run = run_at(Stage::UpdateRef).on_reply(200, "{\"sha\":\"other\"}");
    assert_eq!(run.state(), &State::ConfirmBranch { commit: String::from("commit-id") });
    let run = run_at(Stage::UpdateRef).on_reply(200, "\"other\"");
    assert_eq!(run.state(), &State::ConfirmBranch { commit: String::from("commit-id") });
    let run = run_at(Stage::UpdateRef).advance(Event::Reply {
        status: 200,
        found: Lookup::Found(String::from("other")),
    });
    assert_eq!(run.state(), &State::ConfirmBranch { commit: String::from("commit-id") });
    let run = run_at(Stage::UpdateRef).advance(Event::Reply {
        status: 200,
        found: Lookup::Absent,
    });
    assert_eq!(run.state(), &State::ConfirmBranch { commit: String::from("commit-id") });
}

#[test]
fn reference_update_with_an_unreadable_body_is_a_write_error() {
    let run = run_at(Stage::UpdateRef).on_reply(200, "");
    assert_eq!(
        run.state(),
        &State::Failed { stage: Stage::UpdateRef, error: CommitError::RemoteWriteError }
    );
    let run = run_at(Stage::UpdateRef).on_reply(200, "<html>ok</html>");
    assert_eq!(run.action(), Action::Abort(CommitError::RemoteWriteError));
    let run = run_at(Stage::UpdateRef).advance(Event::Reply {
        status: 200,
        found: Lookup::Malformed,
    });
    assert_eq!(run.action(), Action::Abort(CommitError::RemoteWriteError));
}

#[test]
fn confirmation_with_an_unreadable_body_is_a_write_error() {
    let run = run_at(Stage::ConfirmBranch).on_reply(200, "");
    assert_eq!(
        run.state(),
        &State::Failed { stage: Stage::ConfirmBranch, error: CommitError::RemoteWriteError }
    );
    let run = run_at(Stage::ConfirmBranch).on_reply(200, "{\"sha\":");
    assert_eq!(run.action(), Action::Abort(CommitError::RemoteWriteError));
}

#[test]
fn confirmation_keeps_what_the_branch_endpoint_reported() {
    let run = run_at(Stage::ConfirmBranch).on_reply(200, "{\"sha\":\"reported\"}");
    assert_eq!(
        run.state(),
        &State::Done { commit: String::from("commit-id"), confirmed: Some(String::from("reported")) }
    );
    assert_eq!(run.state().produced(), Some(&String::from("reported")));
    let run = run_at(Stage::ConfirmBranch).on_reply(200, "{\"name\":\"main\"}");
    assert_eq!(
        run.state(),
        &State::Done { commit: String::from("commit-id"), confirmed: None }
    );
    assert_eq!(run.action(), Action::Finish);
    assert_eq!(run.state().produced(), None);
}

#[test]
fn finished_run_stays_finished() {
    let run = run_at(Stage::ConfirmBranch).on_reply(200, "{}");
    assert_eq!(run.action(), Action::Finish);
    let run = run.on_reply(500, "");
    assert_eq!(run.action(), Action::Finish);
    let run = run.on_transport_failure();
    assert_eq!(run.action(), Action::Finish);
    assert_eq!(run.state().stage(), None);
}

#[test]
fn each_state_reports_what_the_last_reply_brought() {
    assert_eq!(run_at(Stage::Preflight).state().produced(), None);
    assert_eq!(run_at(Stage::ResolveHead).state().produced(), None);
    assert_eq!(run_at(Stage::CreateBlob).state().produced(), Some(&String::from("parent-id")));
    assert_eq!(run_at(Stage::CreateTree).state().produced(), Some(&String::from("blob-id")));
    assert_eq!(run_at(Stage::CreateCommit).state().produced(), Some(&String::from("tree-id")));
    assert_eq!(run_at(Stage::UpdateRef).state().produced(), Some(&String::from("commit-id")));
    assert_eq!(run_at(Stage::ConfirmBranch).state().produced(), None);
}

#[test]
fn identifiers_pass_from_stage_to_stage() {
    assert_eq!(
        run_at(Stage::CreateTree).state(),
        &State::CreateTree { parent: String::from("parent-id"), blob: String::from("blob-id") }
    );
    assert_eq!(
        run_at(Stage::CreateCommit).state(),
        &State::CreateCommit { parent: String::from("parent-id"), tree: String::from("tree-id") }
    );
    assert_eq!(
        run_at(Stage::UpdateRef).state(),
        &State::UpdateRef { commit: String::from("commit-id") }
    );
    let commit = due_request(&run_at(Stage::CreateCommit));
    assert_eq!(
        commit.body,
        Some(Body::Commit {
            message: String::from("auto commit"),
            tree: String::from("tree-id"),
            parent: String::from("parent-id"),
        })
    );
    let confirm = due_request(&run_at(Stage::ConfirmBranch));
    assert_eq!(confirm.body, Some(Body::Reference { sha: String::from("commit-id") }));
}

#[test]
fn success_is_the_range_of_two_hundreds() {
    assert!(!is_success(0));
    assert!(!is_success(199));
    assert!(is_success(200));
    assert!(is_success(201));
    assert!(is_success(204));
    assert!(is_success(299));
    assert!(!is_success(300));
    assert!(!is_success(404));
    assert!(!is_success(500));
    assert!(!is_success(u16::MAX));
}

#[test]
fn status_at_the_edges_of_success() {
    assert_eq!(fresh_run().on_reply(199, "").action(), Action::Abort(CommitError::ConnectivityError));
    assert_eq!(fresh_run().on_reply(200, "").state(), &State::ResolveHead);
    assert_eq!(fresh_run().on_reply(299, "").state(), &State::ResolveHead);
    assert_eq!(fresh_run().on_reply(300, "").action(), Action::Abort(CommitError::ConnectivityError));
}

#[test]
fn each_stage_has_its_error() {
    assert_eq!(stage_error(Stage::Preflight), CommitError::ConnectivityError);
    assert_eq!(stage_error(Stage::ResolveHead), CommitError::RemoteLookupError);
    assert_eq!(stage_error(Stage::CreateBlob), CommitError::RemoteWriteError);
    assert_eq!(stage_error(Stage::CreateTree), CommitError::RemoteWriteError);
    assert_eq!(stage_error(Stage::CreateCommit), CommitError::RemoteWriteError);
    assert_eq!(stage_error(Stage::UpdateRef), CommitError::RemoteWriteError);
    assert_eq!(stage_error(Stage::ConfirmBranch), CommitError::RemoteWriteError);
}

#[test]
fn each_stage_reads_its_own_field() {
    let nested = "{\"sha\":\"outer\",\"commit\":{\"sha\":\"inner\"}}";
    let inner = Lookup::Found(String::from("inner"));
    let outer = Lookup::Found(String::from("outer"));
    assert_eq!(read_reply(Stage::Preflight, nested), Lookup::Absent);
    assert_eq!(read_reply(Stage::ResolveHead, nested), inner);
    assert_eq!(read_reply(Stage::CreateBlob, nested), outer);
    assert_eq!(read_reply(Stage::CreateTree, nested), outer);
    assert_eq!(read_reply(Stage::CreateCommit, nested), outer);
    assert_eq!(read_reply(Stage::UpdateRef, nested), Lookup::Absent);
    assert_eq!(read_reply(Stage::ConfirmBranch, nested), outer);
    assert_eq!(read_reply(Stage::ResolveHead, "{\"sha\":\"outer\"}"), Lookup::Absent);
    assert_eq!(
        read_reply(Stage::CreateBlob, "{\"commit\":{\"sha\":\"inner\"}}"),
        Lookup::Absent
    );
}

#[test]
fn each_stage_that_reads_the_body_notices_what_is_not_json() {
    let stages = vec![
        Stage::ResolveHead,
        Stage::CreateBlob,
        Stage::CreateTree,
        Stage::CreateCommit,
        Stage::UpdateRef,
        Stage::ConfirmBranch,
    ];
    for stage in stages {
        assert_eq!(read_reply(stage, "Service Unavailable"), Lookup::Malformed);
        assert_eq!(read_reply(stage, ""), Lookup::Malformed);
    }
    assert_eq!(read_reply(Stage::Preflight, "Service Unavailable"), Lookup::Absent);
    assert_eq!(read_reply(Stage::UpdateRef, "\"a string\""), Lookup::Absent);
}

#[test]
fn new_and_start_begin_the_same_run() {
    let config = kommitter::config::Config::from_fields(full_fields()).unwrap();
    let built = Pipeline::new(Endpoint::github(), config, 1700000000);
    assert_eq!(built, fresh_run());
}
