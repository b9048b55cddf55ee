//! What handling a repository address comes to, stated over texts.
//!
//! The functions of [`crate::filehandle`] compute what is defined here.

use crate::error::RepoError;
use crate::path::{
    is_plain, lemma_segments_are_plain, lemma_segments_of_repo_path, segments, SEPARATOR,
};
use crate::repo::{RepoType, RepoView, UserInfoView};
use crate::repo_url::{url_parse, HostView, UrlView};
use vstd::prelude::*;

verus! {

/// The only host name under which GitHub repositories are recognized.
pub const GITHUB_DOMAIN: &'static str = "github.com";

/// The only host name under which GitLab repositories are recognized.
pub const GITLAB_DOMAIN: &'static str = "gitlab.com";

/// `raw` without its last character, where that is a separator.
pub open spec fn trim_separator(raw: Seq<char>) -> Seq<char> {
    if raw.len() > 0 && raw.last() == SEPARATOR {
        raw.drop_last()
    } else {
        raw
    }
}

/// The service behind a host: one of the two domains, letter for letter.
/// Any other domain, and any IP address, is no supported service.
pub open spec fn repo_type_of(host: HostView) -> Option<RepoType> {
    match host {
        HostView::Domain(name) => if name == GITHUB_DOMAIN@ {
            Some(RepoType::GitHub)
        } else if name == GITLAB_DOMAIN@ {
            Some(RepoType::GitLab)
        } else {
            None
        },
        _ => None,
    }
}

/// The owner and the repository that a path names: its first two segments.
/// A path with fewer names no repository.
pub open spec fn user_info_of(path: Seq<char>) -> Result<UserInfoView, RepoError> {
    let found = segments(path);
    if found.len() < 2 {
        Err(RepoError::InvalidRepoURLError)
    } else {
        Ok(UserInfoView { user_name: found[0], repo_name: found[1] })
    }
}

/// The repository that a parsed URL points at, with the branch asked for.
///
/// The host is looked at first: a URL without one, or with an unsupported
/// one, fails whatever its path holds.
pub open spec fn classify(url: UrlView, branch: Seq<char>) -> Result<RepoView, RepoError> {
    match url.host {
        None => Err(RepoError::InvalidURLError),
        Some(host) => match repo_type_of(host) {
            None => Err(RepoError::NonGitURLError),
            Some(repo_type) => match user_info_of(url.path) {
                Err(e) => Err(e),
                Ok(user_info) => Ok(RepoView { url, user_info, repo_type, branch }),
            },
        },
    }
}

/// The repository that the text of a URL points at: one trailing separator
/// is dropped, the rest is parsed and the parsed URL classified.
pub open spec fn classify_text(raw: Seq<char>, branch: Seq<char>) -> Result<RepoView, RepoError> {
    match url_parse(trim_separator(raw)) {
        None => Err(RepoError::URLParseError),
        Some(url) => classify(url, branch),
    }
}

/// The address of the zip archive of the repository's branch, as its host
/// lays such addresses out.
pub open spec fn archive_url(repo: RepoView) -> Seq<char> {
    match repo.repo_type {
        RepoType::GitHub => repo.url.text + "/archive/"@ + repo.branch + ".zip"@,
        RepoType::GitLab => repo.url.text + "/-/archive/"@ + repo.branch + "/"@
            + repo.user_info.repo_name + "-"@ + repo.branch + ".zip"@,
    }
}

impl RepoView {
    /// The repository is what its URL says: the host is that of its service,
    /// and owner and name are the first two segments of the path.
    pub open spec fn wf(self) -> bool {
        &&& self.url.host matches Some(host) && repo_type_of(host) == Some(self.repo_type)
        &&& user_info_of(self.url.path) == Ok::<UserInfoView, RepoError>(self.user_info)
    }
}

/// Whatever classification accepts is well-formed and keeps the URL and the
/// branch it was given.
pub proof fn lemma_classified_is_wf(url: UrlView, branch: Seq<char>)
    ensures
        classify(url, branch) matches Ok(repo) ==> repo.wf() && repo.url == url && repo.branch
            == branch,
{
}

/// The owner and the name of a well-formed repository are not empty and hold
/// no separator.
pub proof fn lemma_wf_names(repo: RepoView)
    requires
        repo.wf(),
    ensures
        repo.user_info.user_name.len() > 0,
        is_plain(repo.user_info.user_name),
        repo.user_info.repo_name.len() > 0,
        is_plain(repo.user_info.repo_name),
{
    lemma_segments_are_plain(repo.url.path, 0);
    lemma_segments_are_plain(repo.url.path, 1);
}

/// The two supported domains are different names.
pub proof fn lemma_domains_differ()
    ensures
        GITHUB_DOMAIN@ != GITLAB_DOMAIN@,
{
    reveal_strlit("github.com");
    reveal_strlit("gitlab.com");
    assert(GITHUB_DOMAIN@[3] != GITLAB_DOMAIN@[3]);
}

/// A GitHub URL whose path is a separator, an owner, a separator and a name,
/// and then ends or goes on with a separator, is classified as that owner's
/// repository of that name on GitHub.
pub proof fn lemma_github_repo_classified(
    url: UrlView,
    branch: Seq<char>,
    owner: Seq<char>,
    name: Seq<char>,
    rest: Seq<char>,
)
    requires
        url.host == Some(HostView::Domain(GITHUB_DOMAIN@)),
        owner.len() > 0,
        is_plain(owner),
        name.len() > 0,
        is_plain(name),
        rest.len() == 0 || rest[0] == SEPARATOR,
        url.path == seq![SEPARATOR] + owner + seq![SEPARATOR] + name + rest,
    ensures
        classify(url, branch) == Ok::<RepoView, RepoError>(
            RepoView {
                url,
                user_info: UserInfoView { user_name: owner, repo_name: name },
                repo_type: RepoType::GitHub,
                branch,
            },
        ),
{
    lemma_segments_of_repo_path(owner, name, rest);
}

/// A GitLab URL whose path is a separator, an owner, a separator and a name,
/// and then ends or goes on with a separator, is classified as that owner's
/// repository of that name on GitLab.
pub proof fn lemma_gitlab_repo_classified(
    url: UrlView,
    branch: Seq<char>,
    owner: Seq<char>,
    name: Seq<char>,
    rest: Seq<char>,
)
    requires
        url.host == Some(HostView::Domain(GITLAB_DOMAIN@)),
        owner.len() > 0,
        is_plain(owner),
        name.len() > 0,
        is_plain(name),
        rest.len() == 0 || rest[0] == SEPARATOR,
        url.path == seq![SEPARATOR] + owner + seq![SEPARATOR] + name + rest,
    ensures
        classify(url, branch) == Ok::<RepoView, RepoError>(
            RepoView {
                url,
                user_info: UserInfoView { user_name: owner, repo_name: name },
                repo_type: RepoType::GitLab,
                branch,
            },
        ),
{
    lemma_domains_differ();
    lemma_segments_of_repo_path(owner, name, rest);
}

/// A URL whose host is neither of the two supported domains is refused as
/// such, whatever its path.
pub proof fn lemma_other_host_refused(url: UrlView, branch: Seq<char>)
    requires
        url.host matches Some(host) && host != HostView::Domain(GITHUB_DOMAIN@) && host
            != HostView::Domain(GITLAB_DOMAIN@),
    ensures
        classify(url, branch) == Err::<RepoView, RepoError>(RepoError::NonGitURLError),
{
}

/// A URL on a supported host whose path has fewer than two segments is
/// refused as no repository URL.
pub proof fn lemma_short_path_refused(url: UrlView, branch: Seq<char>)
    requires
        url.host matches Some(host) && repo_type_of(host) is Some,
        segments(url.path).len() < 2,
    ensures
        classify(url, branch) == Err::<RepoView, RepoError>(RepoError::InvalidRepoURLError),
{
}

} // verus!
