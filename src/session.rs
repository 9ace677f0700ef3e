//! One run of `publish` as a state machine: each step takes the outcome of
//! the previous outside operation and names the next one to perform

use crate::decimal::decimal;
use crate::error::{Error, ErrorKind};
use crate::publish::{
    destination_ref, destination_ref_spec, existing_view, fetch_refspec, plan_remote,
    refspec_spec, remote_failure_message, remote_path_prefix, remote_plan, remote_prefix,
    resolve_fetched_target,
    RemoteAction,
};
use crate::pull_request::{api_url_spec, is_success_status, response_outcome, PullRequest};
use vstd::prelude::*;

verus! {

/// Stage of a run
pub enum Stage {
    /// Nothing done yet for this pull request id
    Idle { pull_request_id: u64 },
    /// Waiting for the pull request's metadata
    FetchingPullRequest { pull_request_id: u64 },
    /// Waiting for the state of the remote named after the author
    ReconcilingRemote { pull_request: PullRequest },
    /// Waiting for the remote to be added
    AddingRemote { pull_request: PullRequest },
    /// Waiting for the fetch into the destination ref
    FetchingBranch { destination: String },
    /// Waiting for the destination ref to be looked up
    ResolvingRef { destination: String },
    /// The fetched commit is available for review
    Done { commit: String },
    /// The run failed
    Failed { error: Error },
}

/// Outcome of the operation that the previous step asked for
pub enum Event {
    /// The run begins
    Start,
    /// No response to the metadata request
    RequestFailed { cause: String },
    /// A response: its HTTP status, and its body read as a pull request or
    /// the parser's error message
    Response { status: u16, parsed: Result<PullRequest, String> },
    /// State of the remote looked up (see `plan_remote`)
    RemoteFound { existing: Option<Option<String>> },
    /// Outcome of adding the remote
    RemoteAdded { result: Result<(), String> },
    /// Outcome of the fetch
    Fetched { result: Result<(), String> },
    /// What looking up the destination ref found (see `resolve_fetched_target`)
    ReferenceFound { found: Option<Option<String>> },
}

/// Next outside operation to perform
pub enum Action {
    /// GET the pull request's metadata from this URL
    GetPullRequest { url: String },
    /// Look up the remote of this name
    FindRemote { name: String },
    /// Add a remote of this name bound to this URL
    AddRemote { name: String, url: String },
    /// Fetch from an anonymous remote at this URL with this refspec
    Fetch { url: String, refspec: String },
    /// Look up the target of this ref
    FindReference { name: String },
    /// Nothing more: the run has ended, or the event did not fit the stage
    Stop,
}

/// Whether the stage has failed with an error of the given kind
pub open spec fn failed_with(s: Stage, kind: ErrorKind) -> bool {
    s matches Stage::Failed { error } && error.kind == kind
}

/// Whether the stage has failed with an error of the given kind and message
/// that wraps `cause`
pub open spec fn failed_wrapping(s: Stage, kind: ErrorKind, message: Seq<char>, cause: String) -> bool {
    s matches Stage::Failed { error } && error.kind == kind && error.message@ == message
        && error.cause == Some(cause)
}

/// The step taken after the destination ref is known: fetch into it
pub open spec fn fetch_step(pr: PullRequest, s: Stage, a: Action) -> bool {
    let dest = destination_ref_spec(remote_prefix(pr.user.login@), pr.head.git_ref@);
    &&& s matches Stage::FetchingBranch { destination } && destination@ == dest
    &&& a matches Action::Fetch { url, refspec } && url@ == pr.head.repo.clone_url@
        && refspec@ == refspec_spec(dest)
}

fn begin_fetch(pull_request: PullRequest) -> (r: (Stage, Action))
    ensures
        fetch_step(pull_request, r.0, r.1),
{
    let prefix = remote_path_prefix(pull_request.user.login.as_str());
    let destination = destination_ref(prefix.as_str(), pull_request.head.git_ref.as_str());
    let refspec = fetch_refspec(destination.as_str());
    let url = String::from_str(pull_request.clone_url());
    (Stage::FetchingBranch { destination }, Action::Fetch { url, refspec })
}

fn fail(kind: ErrorKind, message: &str, cause: String) -> (r: (Stage, Action))
    ensures
        failed_wrapping(r.0, kind, message@, cause),
        r.1 is Stop,
{
    (Stage::Failed { error: kind.context(String::from_str(message), cause) }, Action::Stop)
}

/// Advance the run by one step
pub fn step(stage: Stage, event: Event) -> (r: (Stage, Action))
    ensures
        match (stage, event) {
            (Stage::Idle { pull_request_id }, Event::Start) => {
                &&& r.0 == (Stage::FetchingPullRequest { pull_request_id })
                &&& r.1 matches Action::GetPullRequest { url } && url@ == api_url_spec(pull_request_id)
            },
            (Stage::FetchingPullRequest { pull_request_id }, Event::RequestFailed { cause }) => {
                &&& failed_wrapping(
                    r.0,
                    ErrorKind::RemoteDataSource,
                    "couldn't get info about pull request #"@ + decimal(pull_request_id as nat),
                    cause,
                )
                &&& r.1 is Stop
            },
            (Stage::FetchingPullRequest { pull_request_id }, Event::Response { status, parsed }) => {
                match response_outcome(pull_request_id, status, parsed) {
                    Some(pr) => {
                        &&& r.0 == (Stage::ReconcilingRemote { pull_request: pr })
                        &&& r.1 matches Action::FindRemote { name } && name@ == pr.user.login@
                    },
                    None => {
                        &&& failed_with(r.0, ErrorKind::RemoteDataSource)
                        &&& r.1 is Stop
                        &&& !is_success_status(status) ==> (r.0 matches Stage::Failed { error }
                            && error.message@ == "api.github.com returned error: "@ + decimal(
                            status as nat,
                        ))
                        &&& is_success_status(status) && parsed is Err ==> (r.0 matches Stage::Failed {
                            error,
                        } && error.cause == Some(parsed->Err_0))
                    },
                }
            },
            (Stage::ReconcilingRemote { pull_request }, Event::RemoteFound { existing }) => {
                match remote_plan(
                    pull_request.user.login@,
                    pull_request.head.repo.clone_url@,
                    existing_view(existing),
                ) {
                    Ok(RemoteAction::Add) => {
                        &&& r.0 == (Stage::AddingRemote { pull_request })
                        &&& r.1 matches Action::AddRemote { name, url } && name@
                            == pull_request.user.login@ && url@ == pull_request.head.repo.clone_url@
                    },
                    Ok(RemoteAction::Reuse) => fetch_step(pull_request, r.0, r.1),
                    Err(k) => {
                        &&& r.0 matches Stage::Failed { error } && error.kind == k
                            && error.message@ == remote_failure_message(
                            pull_request.user.login@,
                            pull_request.head.repo.clone_url@,
                            existing_view(existing),
                        )
                        &&& r.1 is Stop
                    },
                }
            },
            (Stage::AddingRemote { pull_request }, Event::RemoteAdded { result }) => {
                match result {
                    Ok(_) => fetch_step(pull_request, r.0, r.1),
                    Err(cause) => {
                        failed_wrapping(r.0, ErrorKind::Git, "error adding remote"@, cause) && r.1 is Stop
                    },
                }
            },
            (Stage::FetchingBranch { destination }, Event::Fetched { result }) => {
                match result {
                    Ok(_) => {
                        &&& r.0 matches Stage::ResolvingRef { destination: d } && d@ == destination@
                        &&& r.1 matches Action::FindReference { name } && name@ == destination@
                    },
                    Err(cause) => {
                        failed_wrapping(r.0, ErrorKind::Git, "fetch failed"@, cause) && r.1 is Stop
                    },
                }
            },
            (Stage::ResolvingRef { .. }, Event::ReferenceFound { found }) => {
                &&& r.1 is Stop
                &&& match found {
                    Some(Some(id)) => if id@.len() > 0 {
                        r.0 matches Stage::Done { commit } && commit@ == id@
                    } else {
                        failed_with(r.0, ErrorKind::Git)
                    },
                    _ => failed_with(r.0, ErrorKind::Git),
                }
            },
            (s, _) => r.0 == s && r.1 is Stop,
        },
{
    match (stage, event) {
        (Stage::Idle { pull_request_id }, Event::Start) => {
            let url = PullRequest::api_url(pull_request_id);
            (Stage::FetchingPullRequest { pull_request_id }, Action::GetPullRequest { url })
        },
        (Stage::FetchingPullRequest { pull_request_id }, Event::RequestFailed { cause }) => {
            (Stage::Failed { error: PullRequest::request_failed(pull_request_id, cause) }, Action::Stop)
        },
        (Stage::FetchingPullRequest { pull_request_id }, Event::Response { status, parsed }) => {
            match PullRequest::from_response(pull_request_id, status, parsed) {
                Ok(pull_request) => {
                    let name = String::from_str(pull_request.user.login.as_str());
                    (Stage::ReconcilingRemote { pull_request }, Action::FindRemote { name })
                },
                Err(error) => (Stage::Failed { error }, Action::Stop),
            }
        },
        (Stage::ReconcilingRemote { pull_request }, Event::RemoteFound { existing }) => {
            match plan_remote(&pull_request, existing) {
                Ok(RemoteAction::Add) => {
                    let name = String::from_str(pull_request.user.login.as_str());
                    let url = String::from_str(pull_request.clone_url());
                    (Stage::AddingRemote { pull_request }, Action::AddRemote { name, url })
                },
                Ok(RemoteAction::Reuse) => begin_fetch(pull_request),
                Err(error) => (Stage::Failed { error }, Action::Stop),
            }
        },
        (Stage::AddingRemote { pull_request }, Event::RemoteAdded { result }) => {
            match result {
                Ok(()) => begin_fetch(pull_request),
                Err(cause) => fail(ErrorKind::Git, "error adding remote", cause),
            }
        },
        (Stage::FetchingBranch { destination }, Event::Fetched { result }) => {
            match result {
                Ok(()) => {
                    let name = String::from_str(destination.as_str());
                    (Stage::ResolvingRef { destination }, Action::FindReference { name })
                },
                Err(cause) => fail(ErrorKind::Git, "fetch failed", cause),
            }
        },
        (Stage::ResolvingRef { destination }, Event::ReferenceFound { found }) => {
            match resolve_fetched_target(destination.as_str(), found) {
                Ok(commit) => (Stage::Done { commit }, Action::Stop),
                Err(error) => (Stage::Failed { error }, Action::Stop),
            }
        },
        (s, _) => (s, Action::Stop),
    }
}

} // verus!
