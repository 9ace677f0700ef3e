//! Pull requests to `RustSec/advisory-db` on GitHub

use crate::decimal::{decimal, to_decimal};
use crate::error::{Error, ErrorKind};
use vstd::prelude::*;

verus! {

/// Parts of the pull request API response we're interested in
#[derive(Clone, Debug)]
pub struct PullRequest {
    /// Pull request's identifier
    pub id: u64,
    /// URL where the pull request is located
    pub url: String,
    /// Title of the pull request
    pub title: String,
    /// Author of the pull request
    pub user: PullRequestUser,
    /// HEAD of the pull request
    pub head: PullRequestHead,
    /// Base commit for the given PR
    pub base: PullRequestBase,
}

/// User who opened a pull request
#[derive(Clone, Debug)]
pub struct PullRequestUser {
    /// User's GitHub login
    pub login: String,
}

/// HEAD for the pull request
#[derive(Clone, Debug)]
pub struct PullRequestHead {
    /// Git ref (i.e. branch for the pull request)
    pub git_ref: String,
    /// Repository where the pull request lives
    pub repo: PullRequestRepo,
}

/// Git repository a PR comes from
#[derive(Clone, Debug)]
pub struct PullRequestRepo {
    /// URL to clone the repository from
    pub clone_url: String,
}

/// Base commit for a pull request
#[derive(Clone, Debug)]
pub struct PullRequestBase {
    /// Commit hash the PR is based on
    pub sha: String,
}

/// Endpoint under which the API serves the pull requests of the advisory database
pub open spec fn pulls_endpoint() -> Seq<char> {
    "https://api.github.com/repos/rustsec/advisory-db/pulls/"@
}

/// API URL of the pull request with the given id
pub open spec fn api_url_spec(id: u64) -> Seq<char> {
    pulls_endpoint() + decimal(id as nat)
}

/// Whether an HTTP status code is a success code
pub open spec fn is_success_status(status: u16) -> bool {
    200 <= status <= 299
}

/// What a response to the metadata request yields: the pull request when the
/// status is a success, the body parsed and the id is the one requested;
/// otherwise a failure of the hosting API
pub open spec fn response_outcome(
    requested_id: u64,
    status: u16,
    parsed: Result<PullRequest, String>,
) -> Option<PullRequest> {
    if !is_success_status(status) {
        None
    } else {
        match parsed {
            Ok(pr) => if pr.id == requested_id { Some(pr) } else { None },
            Err(_) => None,
        }
    }
}

impl PullRequest {
    /// URL of the API request that retrieves the pull request with the given id
    pub fn api_url(pull_request_id: u64) -> (r: String)
        ensures
            r@ == api_url_spec(pull_request_id),
    {
        let mut r = String::from_str("https://api.github.com/repos/rustsec/advisory-db/pulls/");
        let id = to_decimal(pull_request_id);
        r.append(id.as_str());
        r
    }

    /// Failure of the metadata request itself (no response was received)
    pub fn request_failed(pull_request_id: u64, cause: String) -> (e: Error)
        ensures
            e.kind == ErrorKind::RemoteDataSource,
            e.message@ == "couldn't get info about pull request #"@ + decimal(pull_request_id as nat),
            e.cause == Some(cause),
    {
        let mut m = String::from_str("couldn't get info about pull request #");
        let id = to_decimal(pull_request_id);
        m.append(id.as_str());
        ErrorKind::RemoteDataSource.context(m, cause)
    }

    /// Turn the response to the metadata request of `requested_id` into a pull
    /// request: `status` is the HTTP status and `parsed` the body read as a
    /// pull request, or the parser's error message
    pub fn from_response(requested_id: u64, status: u16, parsed: Result<PullRequest, String>) -> (r:
        Result<PullRequest, Error>)
        ensures
            match response_outcome(requested_id, status, parsed) {
                Some(pr) => r == Ok::<PullRequest, Error>(pr),
                None => r is Err,
            },
            r is Ok ==> r->Ok_0.id == requested_id,
            r is Err ==> r->Err_0.kind == ErrorKind::RemoteDataSource,
            !is_success_status(status) ==> r is Err && r->Err_0.message@
                == "api.github.com returned error: "@ + decimal(status as nat),
            is_success_status(status) && parsed is Err ==> r is Err && r->Err_0.cause == Some(
                parsed->Err_0,
            ),
    {
        if status < 200 || status > 299 {
            let mut m = String::from_str("api.github.com returned error: ");
            let code = to_decimal(status as u64);
            m.append(code.as_str());
            return Err(ErrorKind::RemoteDataSource.error(m));
        }
        match parsed {
            Ok(pr) => {
                if pr.id == requested_id {
                    Ok(pr)
                } else {
                    let mut m = String::from_str("pull request in the response has id ");
                    let got = to_decimal(pr.id);
                    m.append(got.as_str());
                    m.append(", expected ");
                    let want = to_decimal(requested_id);
                    m.append(want.as_str());
                    Err(ErrorKind::RemoteDataSource.error(m))
                }
            },
            Err(e) => {
                let m = String::from_str("error parsing response from https://api.github.com");
                Err(ErrorKind::RemoteDataSource.context(m, e))
            },
        }
    }

    /// Get the clone URL for this pull request
    pub fn clone_url(&self) -> (r: &str)
        ensures
            r@ == self.head.repo.clone_url@,
    {
        self.head.repo.clone_url.as_str()
    }
}

} // verus!
