//! The `publish` workflow: reconcile the git remote of a pull request's
//! author, then fetch into a ref namespaced under that remote

use crate::decimal::{parse_u64, parse_u64_spec};
use crate::error::{Error, ErrorKind};
use crate::pull_request::PullRequest;
use vstd::prelude::*;

verus! {

/// What to do about the git remote named after a pull request's author
#[derive(Copy, Clone, Debug, PartialEq, Eq, Structural)]
pub enum RemoteAction {
    /// A remote of that name already points at the clone URL: keep it
    Reuse,
    /// No remote of that name exists: add one bound to the clone URL
    Add,
}

/// Decision for the remote named `login` whose current state is `existing`:
/// `None` when no remote of that name exists, `Some(None)` when it exists
/// without a URL, `Some(Some(u))` when it points at `u`. An empty login names
/// no remote and is refused.
pub open spec fn remote_plan(
    login: Seq<char>,
    clone_url: Seq<char>,
    existing: Option<Option<Seq<char>>>,
) -> Result<RemoteAction, ErrorKind> {
    if login.len() == 0 {
        Err(ErrorKind::Config)
    } else {
        match existing {
            None => Ok(RemoteAction::Add),
            Some(Some(u)) => if u == clone_url {
                Ok(RemoteAction::Reuse)
            } else {
                Err(ErrorKind::Config)
            },
            Some(None) => Err(ErrorKind::Config),
        }
    }
}

/// View of a remote's state as reported by the repository
pub open spec fn existing_view(existing: Option<Option<String>>) -> Option<Option<Seq<char>>> {
    match existing {
        None => None,
        Some(None) => Some(None),
        Some(Some(u)) => Some(Some(u@)),
    }
}

/// Path prefix of the refs that belong to the remote `login`
pub open spec fn remote_prefix(login: Seq<char>) -> Seq<char> {
    "remotes/"@ + login
}

/// Destination ref of the fetch: the branch under the remote's prefix
pub open spec fn destination_ref_spec(prefix: Seq<char>, git_ref: Seq<char>) -> Seq<char> {
    prefix + "/"@ + git_ref
}

/// The local master branch's ref
pub open spec fn local_master_ref() -> Seq<char> {
    "refs/heads/master"@
}

/// Refspec mapping the local master branch onto the destination ref
pub open spec fn refspec_spec(destination: Seq<char>) -> Seq<char> {
    local_master_ref() + ":"@ + destination
}

/// The remotes of a repository, by name, as the URL each points at
pub open spec fn remote_lookup(remotes: Map<Seq<char>, Seq<char>>, name: Seq<char>) -> Option<
    Option<Seq<char>>,
> {
    if remotes.contains_key(name) {
        Some(Some(remotes[name]))
    } else {
        None
    }
}

/// The remotes after reconciling the remote `login` with `clone_url`, and the
/// outcome: the remote's ref prefix, or the kind of the failure
pub open spec fn reconcile(remotes: Map<Seq<char>, Seq<char>>, login: Seq<char>, clone_url: Seq<char>) -> (
    Map<Seq<char>, Seq<char>>,
    Result<Seq<char>, ErrorKind>,
) {
    match remote_plan(login, clone_url, remote_lookup(remotes, login)) {
        Ok(RemoteAction::Add) => (remotes.insert(login, clone_url), Ok(remote_prefix(login))),
        Ok(RemoteAction::Reuse) => (remotes, Ok(remote_prefix(login))),
        Err(k) => (remotes, Err(k)),
    }
}

/// Reconciling with an empty login fails with a configuration error and
/// leaves the remotes unchanged.
pub proof fn lemma_reconcile_empty_login(remotes: Map<Seq<char>, Seq<char>>, clone_url: Seq<char>)
    ensures
        reconcile(remotes, Seq::<char>::empty(), clone_url) == (
            remotes,
            Err::<Seq<char>, ErrorKind>(ErrorKind::Config),
        ),
{
}

/// Reconciling the same remote twice succeeds both times, and the second
/// time changes nothing: exactly one remote of that name remains, bound to
/// the clone URL.
pub proof fn lemma_reconcile_idempotent(
    remotes: Map<Seq<char>, Seq<char>>,
    login: Seq<char>,
    clone_url: Seq<char>,
)
    requires
        reconcile(remotes, login, clone_url).1 is Ok,
    ensures
        ({
            let (once, r1) = reconcile(remotes, login, clone_url);
            let (twice, r2) = reconcile(once, login, clone_url);
            &&& r2 == r1
            &&& twice == once
            &&& twice.contains_key(login)
            &&& twice[login] == clone_url
            &&& twice.dom() == remotes.dom().insert(login)
        }),
{
    let (once, r1) = reconcile(remotes, login, clone_url);
    assert(once.dom() =~= remotes.dom().insert(login));
}

/// Reconciling a remote whose name is bound to a different URL fails with a
/// configuration error and leaves the remotes, that URL included, unchanged.
pub proof fn lemma_reconcile_conflict(
    remotes: Map<Seq<char>, Seq<char>>,
    login: Seq<char>,
    clone_url: Seq<char>,
)
    requires
        remotes.contains_key(login),
        remotes[login] != clone_url,

    ensures
        reconcile(remotes, login, clone_url) == (remotes, Err::<Seq<char>, ErrorKind>(ErrorKind::Config)),
{
}

/// The destination ref is the remote's prefix, a slash and the branch name.
pub proof fn lemma_destination_ref(login: Seq<char>, git_ref: Seq<char>)
    ensures
        destination_ref_spec(remote_prefix(login), git_ref) == "remotes/"@ + login + "/"@ + git_ref,
{
}

/// Decide what to do about the remote named after the pull request's author,
/// given the state of the remote of that name
pub fn plan_remote(pull_request: &PullRequest, existing: Option<Option<String>>) -> (r: Result<
    RemoteAction,
    Error,
>)
    ensures
        match remote_plan(
            pull_request.user.login@,
            pull_request.head.repo.clone_url@,
            existing_view(existing),
        ) {
            Ok(a) => r == Ok::<RemoteAction, Error>(a),
            Err(k) => r is Err && r->Err_0.kind == k,
        },
        r is Err ==> r->Err_0.message@ == remote_failure_message(
            pull_request.user.login@,
            pull_request.head.repo.clone_url@,
            existing_view(existing),
        ),
{
    if pull_request.user.login.unicode_len() == 0 {
        let m = String::from_str("pull request author has an empty login");
        return Err(ErrorKind::Config.error(m));
    }
    match existing {
        None => Ok(RemoteAction::Add),
        Some(url) => {
            let same = match &url {
                Some(u) => *u == pull_request.head.repo.clone_url,
                None => false,
            };
            if same {
                Ok(RemoteAction::Reuse)
            } else {
                let m = remote_conflict_message(
                    pull_request.user.login.as_str(),
                    pull_request.clone_url(),
                    &url,
                );
                Err(ErrorKind::Config.error(m))
            }
        },
    }
}

/// Message of a refused remote plan: an empty login, or a conflict
pub open spec fn remote_failure_message(
    login: Seq<char>,
    expected: Seq<char>,
    existing: Option<Option<Seq<char>>>,
) -> Seq<char> {
    if login.len() == 0 {
        "pull request author has an empty login"@
    } else {
        conflict_message(login, expected, existing)
    }
}

/// Message of a conflict between an existing remote and the clone URL
pub open spec fn conflict_message(
    login: Seq<char>,
    expected: Seq<char>,
    existing: Option<Option<Seq<char>>>,
) -> Seq<char> {
    let got = match existing {
        Some(Some(u)) => u,
        _ => "no URL"@,
    };
    "git remote '"@ + login + "' exists but has different URL (expected "@ + expected + ", got "@
        + got + ")"@
}

fn remote_conflict_message(login: &str, expected: &str, got: &Option<String>) -> (r: String)
    ensures
        r@ == conflict_message(
            login@,
            expected@,
            Some(
                match got {
                    Some(u) => Some(u@),
                    None => None,
                },
            ),
        ),
{
    let mut m = String::from_str("git remote '");
    m.append(login);
    m.append("' exists but has different URL (expected ");
    m.append(expected);
    m.append(", got ");
    match got {
        Some(u) => m.append(u.as_str()),
        None => m.append("no URL"),
    }
    m.append(")");
    m
}

/// Path prefix of the refs of the remote named `login`
pub fn remote_path_prefix(login: &str) -> (r: String)
    ensures
        r@ == remote_prefix(login@),
{
    let mut r = String::from_str("remotes/");
    r.append(login);
    r
}

/// Destination ref of the fetch: `<remote_path_prefix>/<git_ref>`
pub fn destination_ref(remote_path_prefix: &str, git_ref: &str) -> (r: String)
    ensures
        r@ == destination_ref_spec(remote_path_prefix@, git_ref@),
{
    let mut r = String::from_str(remote_path_prefix);
    r.append("/");
    r.append(git_ref);
    r
}

/// Refspec of the fetch: the local master branch onto the destination ref
pub fn fetch_refspec(destination: &str) -> (r: String)
    ensures
        r@ == refspec_spec(destination@),
{
    let mut r = String::from_str("refs/heads/master");
    r.append(":");
    r.append(destination);
    r
}

/// The commit that the fetch yields, given what looking up the destination
/// ref found after the fetch succeeded: `None` when the ref is absent,
/// `Some(None)` when it has no direct target, `Some(Some(id))` for its target
pub fn resolve_fetched_target(destination: &str, found: Option<Option<String>>) -> (r: Result<
    String,
    Error,
>)
    ensures
        match found {
            Some(Some(id)) => if id@.len() > 0 {
                r is Ok && r->Ok_0@ == id@
            } else {
                r is Err
            },
            _ => r is Err,
        },
        r is Ok ==> r->Ok_0@.len() > 0,
        r is Err ==> r->Err_0.kind == ErrorKind::Git,
{
    match found {
        Some(Some(id)) => {
            if id.unicode_len() > 0 {
                Ok(id)
            } else {
                let mut m = String::from_str("empty target for ");
                m.append(destination);
                Err(ErrorKind::Git.error(m))
            }
        },
        Some(None) => {
            let mut m = String::from_str("no direct target for ");
            m.append(destination);
            Err(ErrorKind::Git.error(m))
        },
        None => {
            let mut m = String::from_str("fetch succeeded but left no ref ");
            m.append(destination);
            Err(ErrorKind::Git.error(m))
        },
    }
}

/// `publish` subcommand: the advisory database path and the pull request id
#[derive(Clone, Debug, Default)]
pub struct PublishCmd {
    /// Filesystem path to the advisory database git repository
    pub db: Option<String>,
    /// Pull request ID number (free arguments)
    pub pull_request_id: Vec<String>,
}

/// The pull request id that the free arguments denote: exactly one argument,
/// which parses as a `u64`
pub open spec fn pull_request_id_spec(args: Seq<String>) -> Option<u64> {
    if args.len() == 1 {
        parse_u64_spec(args[0]@)
    } else {
        None
    }
}

impl PublishCmd {
    /// Path of the advisory database repository: `--db`, or the current directory
    pub fn repo_path(&self) -> (r: String)
        ensures
            r@ == match self.db {
                Some(p) => p@,
                None => "."@,
            },
    {
        match &self.db {
            Some(p) => p.clone(),
            None => String::from_str("."),
        }
    }

    /// The pull request id given on the command line
    pub fn parse_pull_request_id(&self) -> (r: Result<u64, Error>)
        ensures
            match pull_request_id_spec(self.pull_request_id@) {
                Some(id) => r == Ok::<u64, Error>(id),
                None => r is Err && r->Err_0.kind == ErrorKind::Config,
            },
    {
        if self.pull_request_id.len() != 1 {
            let m = String::from_str(
                "publish requires one argument: GitHub pull request ID number to publish",
            );
            return Err(ErrorKind::Config.error(m));
        }
        match parse_u64(self.pull_request_id[0].as_str()) {
            Some(id) => Ok(id),
            None => {
                let mut m = String::from_str("error parsing pull request ID number: ");
                m.append(self.pull_request_id[0].as_str());
                Err(ErrorKind::Config.error(m))
            },
        }
    }
}

} // verus!
