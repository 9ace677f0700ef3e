use rustsec_admin::decimal::{parse_u64, to_decimal};
use rustsec_admin::publish::{
    destination_ref, fetch_refspec, plan_remote, remote_path_prefix, resolve_fetched_target,
    PublishCmd, RemoteAction,
};
use rustsec_admin::pull_request::{
    PullRequest, PullRequestBase, PullRequestHead, PullRequestRepo, PullRequestUser,
};
use rustsec_admin::session::{step, Action, Event, Stage};
use rustsec_admin::{Error, ErrorKind};

const CLONE_URL: &str = "https://example.com/contributor1/advisory-db.git";

fn sample(id: u64) -> PullRequest {
    PullRequest {
        id,
        url: format!("https://api.github.com/repos/rustsec/advisory-db/pulls/{}", id),
        title: "Add advisory".to_string(),
        user: PullRequestUser { login: "contributor1".to_string() },
        head: PullRequestHead {
            git_ref: "add-advisory".to_string(),
            repo: PullRequestRepo { clone_url: CLONE_URL.to_string() },
        },
        base: PullRequestBase { sha: "0123abcd".to_string() },
    }
}

fn failed_error(s: Stage) -> Error {
    match s {
        Stage::Failed { error } => error,
        _ => panic!("run did not fail"),
    }
}

#[test]
fn decimal_text_of_numbers() {
    assert_eq!(to_decimal(0), "0");
    assert_eq!(to_decimal(1234), "1234");
    assert_eq!(to_decimal(u64::MAX), "18446744073709551615");
}

#[test]
fn parse_ids() {
    assert_eq!(parse_u64("1234"), Some(1234));
    assert_eq!(parse_u64("+7"), Some(7));
    assert_eq!(parse_u64("18446744073709551615"), Some(u64::MAX));
    assert_eq!(parse_u64("18446744073709551616"), None);
    assert_eq!(parse_u64(""), None);
    assert_eq!(parse_u64("+"), None);
    assert_eq!(parse_u64("12a"), None);
    assert_eq!(parse_u64("-1"), None);
}

#[test]
fn api_url_of_id() {
    assert_eq!(
        PullRequest::api_url(1234),
        "https://api.github.com/repos/rustsec/advisory-db/pulls/1234"
    );
}

#[test]
fn clone_url_is_head_repo_url() {
    assert_eq!(sample(1).clone_url(), CLONE_URL);
}

#[test]
fn response_with_matching_id_is_accepted() {
    let pr = PullRequest::from_response(1234, 200, Ok(sample(1234))).unwrap();
    assert_eq!(pr.id, 1234);
    assert_eq!(pr.user.login, "contributor1");
}

#[test]
fn response_with_other_id_is_rejected() {
    let e = PullRequest::from_response(1234, 200, Ok(sample(99))).unwrap_err();
    assert_eq!(e.kind(), ErrorKind::RemoteDataSource);
}

#[test]
fn response_not_found_cites_status() {
    let e = PullRequest::from_response(1234, 404, Ok(sample(1234))).unwrap_err();
    assert_eq!(e.kind(), ErrorKind::RemoteDataSource);
    assert_eq!(e.message, "api.github.com returned error: 404");
}

#[test]
fn response_unparsable_keeps_cause() {
    let e = PullRequest::from_response(1234, 200, Err("missing field `head`".to_string()))
        .unwrap_err();
    assert_eq!(e.kind(), ErrorKind::RemoteDataSource);
    assert_eq!(e.cause.as_deref(), Some("missing field `head`"));
}

#[test]
fn request_failure_is_remote_data_source() {
    let e = PullRequest::request_failed(1234, "connection refused".to_string());
    assert_eq!(e.kind(), ErrorKind::RemoteDataSource);
    assert_eq!(e.message, "couldn't get info about pull request #1234");
}

#[test]
fn error_text_has_kind_message_and_cause() {
    let e = ErrorKind::Git.context("fetch failed".to_string(), "timed out".to_string());
    assert_eq!(e.to_string(), "git error: fetch failed: timed out");
    let e = ErrorKind::Config.error("bad".to_string());
    assert_eq!(e.to_string(), "config error: bad");
    assert_eq!(ErrorKind::Io.description(), "I/O error");
    assert_eq!(ErrorKind::RemoteDataSource.description(), "remote data source error");
}

#[test]
fn remote_is_added_when_absent() {
    assert_eq!(plan_remote(&sample(1), None).unwrap(), RemoteAction::Add);
}

#[test]
fn remote_is_reused_when_same_url() {
    let existing = Some(Some(CLONE_URL.to_string()));
    assert_eq!(plan_remote(&sample(1), existing.clone()).unwrap(), RemoteAction::Reuse);
    assert_eq!(plan_remote(&sample(1), existing).unwrap(), RemoteAction::Reuse);
}

#[test]
fn remote_conflict_cites_both_urls() {
    let other = "https://example.com/someone-else/advisory-db.git";
    let e = plan_remote(&sample(1), Some(Some(other.to_string()))).unwrap_err();
    assert_eq!(e.kind(), ErrorKind::Config);
    assert!(e.message.contains(CLONE_URL));
    assert!(e.message.contains(other));
    let e = plan_remote(&sample(1), Some(None)).unwrap_err();
    assert_eq!(e.kind(), ErrorKind::Config);
}

#[test]
fn destination_ref_under_remote_prefix() {
    assert_eq!(remote_path_prefix("alice"), "remotes/alice");
    assert_eq!(destination_ref("remotes/alice", "fix-branch"), "remotes/alice/fix-branch");
    assert_eq!(
        fetch_refspec("remotes/alice/fix-branch"),
        "refs/heads/master:remotes/alice/fix-branch"
    );
}

#[test]
fn resolved_target_is_commit_id() {
    let id = "4b825dc642cb6eb9a060e54bf8d69288fbee4904".to_string();
    assert_eq!(resolve_fetched_target("remotes/a/b", Some(Some(id.clone()))).unwrap(), id);
    let e = resolve_fetched_target("remotes/a/b", None).unwrap_err();
    assert_eq!(e.kind(), ErrorKind::Git);
    let e = resolve_fetched_target("remotes/a/b", Some(None)).unwrap_err();
    assert_eq!(e.kind(), ErrorKind::Git);
    let e = resolve_fetched_target("remotes/a/b", Some(Some(String::new()))).unwrap_err();
    assert_eq!(e.kind(), ErrorKind::Git);
}

#[test]
fn command_arguments() {
    let cmd = PublishCmd { db: None, pull_request_id: vec!["1234".to_string()] };
    assert_eq!(cmd.repo_path(), ".");
    assert_eq!(cmd.parse_pull_request_id().unwrap(), 1234);
    let cmd = PublishCmd { db: Some("/tmp/db".to_string()), pull_request_id: vec![] };
    assert_eq!(cmd.repo_path(), "/tmp/db");
    assert_eq!(cmd.parse_pull_request_id().unwrap_err().kind(), ErrorKind::Config);
    let cmd = PublishCmd { db: None, pull_request_id: vec!["x1".to_string()] };
    assert_eq!(cmd.parse_pull_request_id().unwrap_err().kind(), ErrorKind::Config);
    let cmd = PublishCmd {
        db: None,
        pull_request_id: vec!["1".to_string(), "2".to_string()],
    };
    assert_eq!(cmd.parse_pull_request_id().unwrap_err().kind(), ErrorKind::Config);
}

#[test]
fn scenario_fresh_clone_publishes() {
    let (s, a) = step(Stage::Idle { pull_request_id: 1234 }, Event::Start);
    match a {
        Action::GetPullRequest { url } => {
            assert_eq!(url, "https://api.github.com/repos/rustsec/advisory-db/pulls/1234")
        }
        _ => panic!("expected a metadata request"),
    }
    let (s, a) = step(s, Event::Response { status: 200, parsed: Ok(sample(1234)) });
    match a {
        Action::FindRemote { name } => assert_eq!(name, "contributor1"),
        _ => panic!("expected a remote lookup"),
    }
    let (s, a) = step(s, Event::RemoteFound { existing: None });
    match a {
        Action::AddRemote { name, url } => {
            assert_eq!(name, "contributor1");
            assert_eq!(url, CLONE_URL);
        }
        _ => panic!("expected a remote to be added"),
    }
    let (s, a) = step(s, Event::RemoteAdded { result: Ok(()) });
    match a {
        Action::Fetch { url, refspec } => {
            assert_eq!(url, CLONE_URL);
            assert_eq!(refspec, "refs/heads/master:remotes/contributor1/add-advisory");
        }
        _ => panic!("expected a fetch"),
    }
    let (s, a) = step(s, Event::Fetched { result: Ok(()) });
    match a {
        Action::FindReference { name } => assert_eq!(name, "remotes/contributor1/add-advisory"),
        _ => panic!("expected a ref lookup"),
    }
    let commit = "4b825dc642cb6eb9a060e54bf8d69288fbee4904".to_string();
    let (s, a) = step(s, Event::ReferenceFound { found: Some(Some(commit.clone())) });
    assert!(matches!(a, Action::Stop));
    match s {
        Stage::Done { commit: c } => assert_eq!(c, commit),
        _ => panic!("run did not finish"),
    }
}

#[test]
fn scenario_not_found_stops_before_git() {
    let (s, _) = step(Stage::Idle { pull_request_id: 1234 }, Event::Start);
    let (s, a) = step(s, Event::Response { status: 404, parsed: Err("Not Found".to_string()) });
    assert!(matches!(a, Action::Stop));
    let e = failed_error(s);
    assert_eq!(e.kind(), ErrorKind::RemoteDataSource);
    assert!(e.to_string().contains("404"));
}

#[test]
fn scenario_conflicting_remote_stops_before_fetch() {
    let other = "https://example.com/other/advisory-db.git";
    let (s, _) = step(Stage::Idle { pull_request_id: 1234 }, Event::Start);
    let (s, _) = step(s, Event::Response { status: 200, parsed: Ok(sample(1234)) });
    let (s, a) = step(s, Event::RemoteFound { existing: Some(Some(other.to_string())) });
    assert!(matches!(a, Action::Stop));
    let e = failed_error(s);
    assert_eq!(e.kind(), ErrorKind::Config);
    let text = e.to_string();
    assert!(text.contains(other));
    assert!(text.contains(CLONE_URL));
}

#[test]
fn existing_remote_skips_adding() {
    let (s, a) = step(
        Stage::ReconcilingRemote { pull_request: sample(1234) },
        Event::RemoteFound { existing: Some(Some(CLONE_URL.to_string())) },
    );
    assert!(matches!(a, Action::Fetch { .. }));
    assert!(matches!(s, Stage::FetchingBranch { .. }));
}

#[test]
fn fetch_leaving_no_ref_is_git_failure() {
    let (s, _) = step(
        Stage::FetchingBranch { destination: "remotes/alice/fix-branch".to_string() },
        Event::Fetched { result: Ok(()) },
    );
    let (s, a) = step(s, Event::ReferenceFound { found: None });
    assert!(matches!(a, Action::Stop));
    assert_eq!(failed_error(s).kind(), ErrorKind::Git);
}

#[test]
fn failed_fetch_and_unexpected_event() {
    let (s, _) = step(
        Stage::FetchingBranch { destination: "remotes/alice/fix-branch".to_string() },
        Event::Fetched { result: Err("authentication failed".to_string()) },
    );
    let e = failed_error(s);
    assert_eq!(e.kind(), ErrorKind::Git);
    assert_eq!(e.cause.as_deref(), Some("authentication failed"));
    let (s, a) = step(Stage::Idle { pull_request_id: 3 }, Event::Fetched { result: Ok(()) });
    assert!(matches!(a, Action::Stop));
    assert!(matches!(s, Stage::Idle { pull_request_id: 3 }));
}

#[test]
fn empty_login_is_refused() {
    let mut pr = sample(1234);
    pr.user.login = String::new();
    let e = plan_remote(&pr, None).unwrap_err();
    assert_eq!(e.kind(), ErrorKind::Config);
    assert_eq!(e.message, "pull request author has an empty login");
    let (s, a) = step(
        Stage::ReconcilingRemote { pull_request: pr },
        Event::RemoteFound { existing: None },
    );
    assert!(matches!(a, Action::Stop));
    assert_eq!(failed_error(s).kind(), ErrorKind::Config);
}

#[test]
fn failed_remote_add_keeps_git_error() {
    let (s, a) = step(
        Stage::AddingRemote { pull_request: sample(1234) },
        Event::RemoteAdded { result: Err("remote already exists".to_string()) },
    );
    assert!(matches!(a, Action::Stop));
    let e = failed_error(s);
    assert_eq!(e.kind(), ErrorKind::Git);
    assert_eq!(e.message, "error adding remote");
    assert_eq!(e.cause.as_deref(), Some("remote already exists"));
}

#[test]
fn failed_request_keeps_cause() {
    let (s, _) = step(
        Stage::FetchingPullRequest { pull_request_id: 1234 },
        Event::RequestFailed { cause: "dns error".to_string() },
    );
    let e = failed_error(s);
    assert_eq!(e.kind(), ErrorKind::RemoteDataSource);
    assert_eq!(e.message, "couldn't get info about pull request #1234");
    assert_eq!(e.cause.as_deref(), Some("dns error"));
}
