//! From the text of a repository URL to the address of a branch archive.

use crate::classify::{
    archive_url, classify, classify_text, repo_type_of, trim_separator, user_info_of,
    GITHUB_DOMAIN, GITLAB_DOMAIN,
};
use crate::error::RepoError;
use crate::path::{path_segments, SEPARATOR};
use crate::repo::{Cli, Repo, RepoType, RepoView, UserInfo, UserInfoView};
use crate::repo_url::{RepoUrl, UrlHost};
use vstd::prelude::*;
use vstd::string::*;

verus! {

/// What the outcome of a classification stands for.
pub open spec fn outcome(res: Result<Repo, RepoError>) -> Result<RepoView, RepoError> {
    match res {
        Ok(repo) => Ok(repo@),
        Err(e) => Err(e),
    }
}

/// Drops the last character of `raw` where it is a separator.
pub fn trim_trailing_separator<'a>(raw: &'a str) -> (trimmed: &'a str)
    ensures
        trimmed@ == trim_separator(raw@),
{
    let total: usize = raw.unicode_len();
    if total > 0 && raw.get_char(total - 1) == SEPARATOR {
        raw.substring_char(0, total - 1)
    } else {
        raw
    }
}

/// Tells which service a host belongs to, if any.
pub fn supported_host(host: &UrlHost) -> (res: Option<RepoType>)
    ensures
        res == repo_type_of(host@),
{
    match host {
        UrlHost::Domain(name) => {
            if *name == String::from_str(GITHUB_DOMAIN) {
                Some(RepoType::GitHub)
            } else if *name == String::from_str(GITLAB_DOMAIN) {
                Some(RepoType::GitLab)
            } else {
                None
            }
        },
        _ => None,
    }
}

/// Classifies the URL that the user gave.
///
/// One trailing separator is dropped from the text before it is parsed. A
/// text that does not parse gives [`RepoError::URLParseError`]; what becomes
/// of a parsed URL is told by [`repo_from_url`].
pub fn extract_repo_from_cli(cli: &Cli) -> (res: Result<Repo, RepoError>)
    ensures
        outcome(res) == classify_text(cli.url@, cli.branch@),
        res matches Ok(repo) ==> repo@.wf(),
{
    let parsed_url = match RepoUrl::parse(trim_trailing_separator(cli.url.as_str())) {
        Ok(parsed_url) => parsed_url,
        Err(_) => {
            return Err(RepoError::URLParseError);
        },
    };
    repo_from_url(parsed_url, cli.branch.as_str())
}

/// Classifies a parsed URL.
///
/// A URL without a host gives [`RepoError::InvalidURLError`], one whose host
/// is not a supported domain [`RepoError::NonGitURLError`], and one on a
/// supported domain whose path has fewer than two segments
/// [`RepoError::InvalidRepoURLError`]. Every other URL gives the repository
/// named by the first two segments of its path, on the service of its host,
/// with the URL and the branch as they were handed in.
pub fn repo_from_url(parsed_url: RepoUrl, branch: &str) -> (res: Result<Repo, RepoError>)
    ensures
        outcome(res) == classify(parsed_url@, branch@),
        res matches Ok(repo) ==> repo@.wf(),
{
    let repo_type = match &parsed_url.host {
        None => {
            return Err(RepoError::InvalidURLError);
        },
        Some(host) => match supported_host(host) {
            None => {
                return Err(RepoError::NonGitURLError);
            },
            Some(repo_type) => repo_type,
        },
    };
    let user_info = match extract_repo_info(&parsed_url) {
        Ok(user_info) => user_info,
        Err(e) => {
            return Err(e);
        },
    };
    Ok(Repo { url: parsed_url, user_info, repo_type, branch: String::from_str(branch) })
}

/// Reads the owner and the name of a repository from the path of its URL:
/// they are the first two segments. With fewer segments there is no
/// repository, and the result is [`RepoError::InvalidRepoURLError`].
pub fn extract_repo_info(parsed_url: &RepoUrl) -> (res: Result<UserInfo, RepoError>)
    ensures
        match res {
            Ok(info) => user_info_of(parsed_url@.path) == Ok::<UserInfoView, RepoError>(info@),
            Err(e) => user_info_of(parsed_url@.path) == Err::<UserInfoView, RepoError>(e),
        },
{
    let url_path_segments = path_segments(parsed_url.path.as_str());
    if url_path_segments.len() < 2 {
        return Err(RepoError::InvalidRepoURLError);
    }
    Ok(
        UserInfo {
            user_name: String::from_str(url_path_segments[0]),
            repo_name: String::from_str(url_path_segments[1]),
        },
    )
}

/// Builds the address of the zip archive of the repository's branch.
pub fn create_download_url(repo: &Repo) -> (download_url: String)
    ensures
        download_url@ == archive_url(repo@),
{
    let mut download_url = repo.url.text.clone();
    match repo.repo_type {
        RepoType::GitHub => {
            download_url.append("/archive/");
            download_url.append(repo.branch.as_str());
            download_url.append(".zip");
        },
        RepoType::GitLab => {
            download_url.append("/-/archive/");
            download_url.append(repo.branch.as_str());
            download_url.append("/");
            download_url.append(repo.user_info.repo_name.as_str());
            download_url.append("-");
            download_url.append(repo.branch.as_str());
            download_url.append(".zip");
        },
    }
    download_url
}

/// Handling a request has one outcome: two runs on requests with the same
/// URL text and the same branch both fail, with the same error, or both
/// succeed, and then the archive addresses made from what they return are the
/// same text.
pub proof fn lemma_same_request_same_archive(
    first: Cli,
    second: Cli,
    first_res: Result<Repo, RepoError>,
    second_res: Result<Repo, RepoError>,
    first_url: String,
    second_url: String,
)
    requires
        first@ == second@,
        call_ensures(extract_repo_from_cli, (&first,), first_res),
        call_ensures(extract_repo_from_cli, (&second,), second_res),
        first_res matches Ok(repo) ==> call_ensures(create_download_url, (&repo,), first_url),
        second_res matches Ok(repo) ==> call_ensures(create_download_url, (&repo,), second_url),
    ensures
        match (first_res, second_res) {
            (Ok(_), Ok(_)) => first_url@ == second_url@,
            (Err(first_error), Err(second_error)) => first_error == second_error,
            _ => false,
        },
{
}

} // verus!
