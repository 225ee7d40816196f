//! The decisions taken when fetching node software: which commit is the
//! latest, and whether an existing checkout can be kept.

use vstd::prelude::*;

use crate::config::str_eq;

verus! {

/// Base URL of GitHub's REST API.
pub const GITHUB_API_BASE_URL: &'static str = "https://api.github.com";

/// A commit as GitHub's commit listing reports it.
#[derive(Debug, Clone)]
pub struct Commit {
    pub sha: String,
}

/// The URL that lists the commits of `org/repo`, newest first.
pub fn commits_url(org: &str, repo: &str) -> (r: String)
    ensures
        r@ == GITHUB_API_BASE_URL@ + "/repos/"@ + org@ + "/"@ + repo@ + "/commits"@,
{
    let mut url = String::from_str(GITHUB_API_BASE_URL);
    url.append("/repos/");
    url.append(org);
    url.append("/");
    url.append(repo);
    url.append("/commits");
    url
}

/// The hash of the latest commit of a listing that puts the newest first;
/// `None` where the listing is empty.
pub fn latest_commit_hash(commits: &Vec<Commit>) -> (r: Option<String>)
    ensures
        r is None <==> commits@.len() == 0,
        r matches Some(s) ==> s@ == commits@[0].sha@,
{
    if commits.len() == 0 {
        None
    } else {
        Some(commits[0].sha.clone())
    }
}

/// What is found at the path a repository is to be cloned into.
#[derive(Debug, Clone)]
pub enum ExistingRepo {
    /// No repository opens there.
    Missing,
    /// A repository opens there, but it is empty or its emptiness is unknown.
    Empty,
    /// A repository with commits; the URL of its `origin` remote, where it has
    /// one that is valid UTF-8.
    Origin(Option<String>),
}

/// What to do to have a clone of a URL at a path.
#[derive(Debug, Clone, Copy, PartialEq, Eq, Structural)]
pub enum CloneStep {
    /// The path already holds a clone of the URL.
    UpToDate,
    /// Clone into the path, which does not exist.
    Clone,
    /// Remove what is at the path, then clone into it.
    RemoveAndClone,
}

pub open spec fn spec_plan_clone(url: Seq<char>, existing: ExistingRepo, path_exists: bool) -> CloneStep {
    match existing {
        ExistingRepo::Origin(Some(u)) if u@ == url => CloneStep::UpToDate,
        _ => if path_exists {
            CloneStep::RemoveAndClone
        } else {
            CloneStep::Clone
        },
    }
}

/// Keeps a non-empty repository whose `origin` is the URL; otherwise clones,
/// after removing whatever stands at the path.
pub fn plan_clone(url: &str, existing: &ExistingRepo, path_exists: bool) -> (r: CloneStep)
    ensures
        r == spec_plan_clone(url@, *existing, path_exists),
{
    if let ExistingRepo::Origin(Some(u)) = existing {
        if str_eq(u.as_str(), url) {
            return CloneStep::UpToDate;
        }
    }
    if path_exists {
        CloneStep::RemoveAndClone
    } else {
        CloneStep::Clone
    }
}

/// The arguments of a `git clone` command, around the target path, which
/// stands between them as it is.
#[derive(Debug, Clone)]
pub struct CloneArgs {
    pub before_path: Vec<String>,
    pub after_path: Vec<String>,
}

/// The arguments of the `git` command that clones `url`, showing progress,
/// on `branch` where one is given.
pub fn clone_args(url: &str, branch: Option<&str>) -> (r: CloneArgs)
    ensures
        r.before_path@.len() == 3,
        r.before_path@[0]@ == "clone"@,
        r.before_path@[1]@ == "--progress"@,
        r.before_path@[2]@ == url@,
        r.after_path@.len() == if branch is Some { 1int } else { 0int },
        branch matches Some(b) ==> r.after_path@[0]@ == "--branch="@ + b@,
{
    let mut before_path: Vec<String> = Vec::new();
    before_path.push(String::from_str("clone"));
    before_path.push(String::from_str("--progress"));
    before_path.push(String::from_str(url));
    let mut after_path: Vec<String> = Vec::new();
    if let Some(b) = branch {
        let mut flag = String::from_str("--branch=");
        flag.append(b);
        after_path.push(flag);
    }
    CloneArgs { before_path, after_path }
}

} // verus!
