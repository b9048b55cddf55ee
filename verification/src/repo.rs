//! The records that repository handling passes around.

use crate::repo_url::{RepoUrl, UrlView};
use vstd::prelude::*;
use vstd::string::*;

verus! {

/// The branch that is fetched where the caller names none.
pub const DEFAULT_BRANCH: &'static str = "master";

/// What the user asked for.
#[derive(Debug)]
pub struct Cli {
    /// GitHub or GitLab repository URL.
    pub url: String,
    /// The branch to fetch.
    pub branch: String,
}

/// The service that hosts a repository.
#[derive(Debug, PartialEq, Eq, Structural, Clone, Copy)]
pub enum RepoType {
    GitHub,
    GitLab,
}

/// The owner of a repository and the repository's name.
#[derive(Debug)]
pub struct UserInfo {
    pub user_name: String,
    pub repo_name: String,
}

/// A repository on a supported host, and the branch of it that is wanted.
#[derive(Debug)]
pub struct Repo {
    /// The URL that was given, parsed.
    pub url: RepoUrl,
    pub user_info: UserInfo,
    pub repo_type: RepoType,
    pub branch: String,
}

/// What a [`Cli`] stands for.
pub struct CliView {
    pub url: Seq<char>,
    pub branch: Seq<char>,
}

/// What a [`UserInfo`] stands for.
pub struct UserInfoView {
    pub user_name: Seq<char>,
    pub repo_name: Seq<char>,
}

/// What a [`Repo`] stands for.
pub struct RepoView {
    pub url: UrlView,
    pub user_info: UserInfoView,
    pub repo_type: RepoType,
    pub branch: Seq<char>,
}

impl View for Cli {
    type V = CliView;

    open spec fn view(&self) -> CliView {
        CliView { url: self.url@, branch: self.branch@ }
    }
}

impl View for UserInfo {
    type V = UserInfoView;

    open spec fn view(&self) -> UserInfoView {
        UserInfoView { user_name: self.user_name@, repo_name: self.repo_name@ }
    }
}

impl View for Repo {
    type V = RepoView;

    open spec fn view(&self) -> RepoView {
        RepoView {
            url: self.url@,
            user_info: self.user_info@,
            repo_type: self.repo_type,
            branch: self.branch@,
        }
    }
}

impl Cli {
    /// Puts a request together. Without a branch, the default branch is asked
    /// for.
    pub fn new(url: String, branch: Option<String>) -> (cli: Cli)
        ensures
            cli.url@ == url@,
            cli.branch@ == match branch {
                Some(name) => name@,
                None => DEFAULT_BRANCH@,
            },
    {
        let branch = match branch {
            Some(name) => name,
            None => String::from_str(DEFAULT_BRANCH),
        };
        Cli { url, branch }
    }
}

} // verus!
