//! The repositories the daemon keeps in step, and what is derived from
//! their description: the address to clone from and the place on disk.

use artisan_middleware::git_actions::{
    generate_git_project_id, generate_git_project_path, GitAuth, GitServer,
};
use crate::text::text_of;
use vstd::prelude::*;

verus! {

/// Where a repository is hosted.
#[derive(Debug, PartialEq, Eq)]
pub enum Server {
    GitHub,
    GitLab,
    /// Another host, by the address it is reached under.
    Custom(String),
}

/// A host as a plain value.
pub enum ServerView {
    GitHub,
    GitLab,
    Custom(Seq<char>),
}

impl View for Server {
    type V = ServerView;

    open spec fn view(&self) -> ServerView {
        match self {
            Server::GitHub => ServerView::GitHub,
            Server::GitLab => ServerView::GitLab,
            Server::Custom(url) => ServerView::Custom(url@),
        }
    }
}

/// One repository branch to keep in step with its remote.
#[derive(Debug, PartialEq, Eq)]
pub struct RepoTarget {
    pub owner: String,
    pub repo: String,
    pub branch: String,
    pub server: Server,
    /// A token embedded in the remote address, where the target has one.
    pub token: Option<String>,
}

/// A target as a plain value.
pub struct TargetView {
    pub owner: Seq<char>,
    pub repo: Seq<char>,
    pub branch: Seq<char>,
    pub server: ServerView,
    pub token: Option<Seq<char>>,
}

impl View for RepoTarget {
    type V = TargetView;

    open spec fn view(&self) -> TargetView {
        TargetView {
            owner: self.owner@,
            repo: self.repo@,
            branch: self.branch@,
            server: self.server@,
            token: text_of(self.token),
        }
    }
}

/// The views of a list of targets, in order.
pub open spec fn target_views(targets: Seq<RepoTarget>) -> Seq<TargetView> {
    targets.map_values(|t: RepoTarget| t@)
}

/// The identifier that `generate_git_project_id` of `artisan_middleware`
/// gives to the repository `owner`/`repo` on `branch`.
pub uninterp spec fn git_project_id(owner: Seq<char>, repo: Seq<char>, branch: Seq<char>) -> Seq<char>;

/// The directory under which every working copy lies.
pub open spec fn projects_root() -> Seq<char> {
    "/var/www/ais/"@
}

/// The place on disk of a target's working copy. It depends on owner,
/// repository and branch alone.
pub open spec fn project_path(t: TargetView) -> Seq<char> {
    projects_root() + git_project_id(t.owner, t.repo, t.branch)
}

/// `s` without the slashes at its end.
pub open spec fn strip_slashes(s: Seq<char>) -> Seq<char>
    decreases s.len(),
{
    if s.len() > 0 && s.last() == '/' {
        strip_slashes(s.drop_last())
    } else {
        s
    }
}

/// The address of a host, without a slash at its end.
pub open spec fn base_url(server: ServerView) -> Seq<char> {
    match server {
        ServerView::GitHub => "https://github.com"@,
        ServerView::GitLab => "https://gitlab.com"@,
        ServerView::Custom(url) => strip_slashes(url),
    }
}

/// The address a target is cloned from.
pub open spec fn remote_url(t: TargetView) -> Seq<char> {
    let tail = base_url(t.server) + "/"@ + t.owner + "/"@ + t.repo + ".git"@;
    match t.token {
        Some(token) => "https://"@ + token + "@"@ + tail,
        None => tail,
    }
}

/// Whether two targets name the same branch of the same repository.
pub open spec fn same_repository(a: TargetView, b: TargetView) -> bool {
    a.owner == b.owner && a.repo == b.repo && a.branch == b.branch
}

/// Calls `generate_git_project_id` of `artisan_middleware` on the target.
/// Trusted: the result is the named identifier of the target's owner,
/// repository and branch, the only fields the function reads.
#[verifier::external_body]
fn project_id_of(target: &RepoTarget) -> (id: String)
    ensures
        id@ == git_project_id(target.owner@, target.repo@, target.branch@),
{
    let auth = GitAuth {
        user: target.owner.as_str().into(),
        repo: target.repo.as_str().into(),
        branch: target.branch.as_str().into(),
        server: match &target.server {
            Server::GitHub => GitServer::GitHub,
            Server::GitLab => GitServer::GitLab,
            Server::Custom(url) => GitServer::Custom(url.clone()),
        },
        token: target.token.as_ref().map(Into::into),
    };
    generate_git_project_id(&auth).to_string()
}

/// Calls `generate_git_project_path` of `artisan_middleware` on the
/// target. Trusted: the result is the projects' root followed by the
/// identifier that `generate_git_project_id` gives to the same target.
#[verifier::external_body]
fn project_path_of(target: &RepoTarget) -> (path: String)
    ensures
        path@ == project_path(target@),
{
    let auth = GitAuth {
        user: target.owner.as_str().into(),
        repo: target.repo.as_str().into(),
        branch: target.branch.as_str().into(),
        server: match &target.server {
            Server::GitHub => GitServer::GitHub,
            Server::GitLab => GitServer::GitLab,
            Server::Custom(url) => GitServer::Custom(url.clone()),
        },
        token: target.token.as_ref().map(Into::into),
    };
    generate_git_project_path(&auth).to_string()
}

/// Calls `GitAuth::assemble_remote_url` of `artisan_middleware` on the
/// target. Trusted: the result is the host's address without slashes at
/// its end, then owner and repository, each after a slash, then `.git`;
/// where the target has a token, `https://`, the token and `@` come first.
#[verifier::external_body]
fn remote_url_of(target: &RepoTarget) -> (url: String)
    ensures
        url@ == remote_url(target@),
{
    let auth = GitAuth {
        user: target.owner.as_str().into(),
        repo: target.repo.as_str().into(),
        branch: target.branch.as_str().into(),
        server: match &target.server {
            Server::GitHub => GitServer::GitHub,
            Server::GitLab => GitServer::GitLab,
            Server::Custom(url) => GitServer::Custom(url.clone()),
        },
        token: target.token.as_ref().map(Into::into),
    };
    auth.assemble_remote_url()
}

impl Clone for Server {
    fn clone(&self) -> (s: Server)
        ensures
            s == *self,
    {
        match self {
            Server::GitHub => Server::GitHub,
            Server::GitLab => Server::GitLab,
            Server::Custom(url) => Server::Custom(url.clone()),
        }
    }
}

impl Clone for RepoTarget {
    fn clone(&self) -> (t: RepoTarget)
        ensures
            t == *self,
    {
        RepoTarget {
            owner: self.owner.clone(),
            repo: self.repo.clone(),
            branch: self.branch.clone(),
            server: self.server.clone(),
            token: match &self.token {
                Some(t) => Some(t.clone()),
                None => None,
            },
        }
    }
}

impl RepoTarget {
    /// The identifier of the target's working copy.
    pub fn project_id(&self) -> (id: String)
        ensures
            id@ == git_project_id(self@.owner, self@.repo, self@.branch),
    {
        project_id_of(self)
    }

    /// The place on disk of the target's working copy.
    pub fn project_path(&self) -> (path: String)
        ensures
            path@ == project_path(self@),
    {
        project_path_of(self)
    }

    /// The address the target is cloned from.
    pub fn remote_url(&self) -> (url: String)
        ensures
            url@ == remote_url(self@),
    {
        remote_url_of(self)
    }

    /// Whether `other` names the same branch of the same repository.
    pub fn same_repository(&self, other: &RepoTarget) -> (same: bool)
        ensures
            same == same_repository(self@, other@),
    {
        self.owner == other.owner && self.repo == other.repo && self.branch == other.branch
    }
}

/// A copy of a list of targets.
pub fn clone_targets(targets: &Vec<RepoTarget>) -> (copy: Vec<RepoTarget>)
    ensures
        copy@ == targets@,
{
    let mut copy: Vec<RepoTarget> = Vec::new();
    let mut i: usize = 0;
    while i < targets.len()
        invariant
            i <= targets.len(),
            copy@ == targets@.take(i as int),
        decreases targets.len() - i,
    {
        copy.push(targets[i].clone());
        assert(targets@.take(i as int).push(targets@[i as int]) =~= targets@.take(i + 1));
        i = i + 1;
    }
    assert(targets@.take(targets.len() as int) =~= targets@);
    copy
}

} // verus!
