//! The ways in which handling a repository address can fail.

use vstd::prelude::*;

verus! {

/// Why a repository address could not be turned into a downloaded archive.
#[derive(PartialEq, Eq, Structural, Clone, Copy, Debug)]
pub enum RepoError {
    /// The text is not a syntactically valid URL.
    URLParseError,
    /// The URL names a host other than GitHub or GitLab.
    NonGitURLError,
    /// The URL has no host at all.
    InvalidURLError,
    /// The host is supported, but the path does not name an owner and a repository.
    InvalidRepoURLError,
    /// The archive could not be fetched.
    FileDownloadError,
}

impl RepoError {
    /// The message shown to the user for this error.
    pub open spec fn description_text(self) -> Seq<char> {
        match self {
            RepoError::URLParseError => "Could not parse URL"@,
            RepoError::NonGitURLError => "Please enter only GitHub or GitLab URLs"@,
            RepoError::InvalidURLError => "Please enter a valid URL"@,
            RepoError::InvalidRepoURLError => "The URL does not seem to be a valid repo URL"@,
            RepoError::FileDownloadError => "The Git Repo could not be downloaded"@,
        }
    }

    /// Returns the message shown to the user for this error.
    pub fn description(&self) -> (text: &'static str)
        ensures
            text@ == self.description_text(),
    {
        match self {
            RepoError::URLParseError => "Could not parse URL",
            RepoError::NonGitURLError => "Please enter only GitHub or GitLab URLs",
            RepoError::InvalidURLError => "Please enter a valid URL",
            RepoError::InvalidRepoURLError => "The URL does not seem to be a valid repo URL",
            RepoError::FileDownloadError => "The Git Repo could not be downloaded",
        }
    }
}

} // verus!
