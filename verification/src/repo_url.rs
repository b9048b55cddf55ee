//! A parsed URL, as far as repository handling reads it.
//!
//! Parsing itself is left to the `url` crate. What comes back is copied into
//! [`RepoUrl`], a plain record of the serialized URL, its host and its path.

use crate::error::RepoError;
use vstd::prelude::*;

verus! {

/// The host of a URL.
#[derive(Debug, PartialEq, Eq)]
pub enum UrlHost {
    /// A domain name.
    Domain(String),
    /// An IPv4 address, as its 32 bits.
    Ipv4(u32),
    /// An IPv6 address, as its 128 bits.
    Ipv6(u128),
}

/// A parsed URL.
#[derive(Debug, PartialEq, Eq)]
pub struct RepoUrl {
    /// The serialization of the whole URL.
    pub text: String,
    /// The host, where the URL has one.
    pub host: Option<UrlHost>,
    /// The path.
    pub path: String,
}

/// What a [`UrlHost`] stands for.
pub enum HostView {
    Domain(Seq<char>),
    Ipv4(u32),
    Ipv6(u128),
}

/// What a [`RepoUrl`] stands for.
pub struct UrlView {
    pub text: Seq<char>,
    pub host: Option<HostView>,
    pub path: Seq<char>,
}

impl View for UrlHost {
    type V = HostView;

    open spec fn view(&self) -> HostView {
        match *self {
            UrlHost::Domain(name) => HostView::Domain(name@),
            UrlHost::Ipv4(bits) => HostView::Ipv4(bits),
            UrlHost::Ipv6(bits) => HostView::Ipv6(bits),
        }
    }
}

impl View for RepoUrl {
    type V = UrlView;

    open spec fn view(&self) -> UrlView {
        UrlView {
            text: self.text@,
            host: match self.host {
                Some(host) => Some(host@),
                None => None,
            },
            path: self.path@,
        }
    }
}

/// The error type of `url::Url::parse`. Nothing is read from a value of it.
#[verifier::external_type_specification]
#[verifier::external_body]
pub struct ExParseError(url::ParseError);

/// What `url::Url::parse` makes of `raw`: `None` where it returns an error,
/// else the serialization (`Url::as_str`), the host (`Url::host`) and the path
/// (`Url::path`) of the URL it returns.
pub uninterp spec fn url_parse(raw: Seq<char>) -> Option<UrlView>;

/// Calls `url::Url::parse` on `raw` and copies the serialization, the host and
/// the path of the URL that comes back into a [`RepoUrl`].
///
/// Nothing here is proved. The contract only gives the outcome its name,
/// [`url_parse`]: parsing depends on nothing but the text handed in.
#[verifier::external_body]
fn parse_with_url_crate(raw: &str) -> (res: Result<RepoUrl, url::ParseError>)
    ensures
        match res {
            Ok(parsed) => url_parse(raw@) == Some(parsed@),
            Err(_) => url_parse(raw@) is None,
        },
{
    let parsed = url::Url::parse(raw)?;
    let host = match parsed.host() {
        None => None,
        Some(url::Host::Domain(name)) => Some(UrlHost::Domain(name.to_string())),
        Some(url::Host::Ipv4(address)) => Some(UrlHost::Ipv4(u32::from(address))),
        Some(url::Host::Ipv6(address)) => Some(UrlHost::Ipv6(u128::from(address))),
    };
    Ok(RepoUrl { path: parsed.path().to_string(), host, text: String::from(parsed) })
}

impl RepoUrl {
    /// Parses `input` as an absolute URL.
    ///
    /// Succeeds exactly where the `url` crate accepts `input`, and then holds
    /// what that crate read from it; every failure is reported as
    /// [`RepoError::URLParseError`].
    pub fn parse(input: &str) -> (res: Result<RepoUrl, RepoError>)
        ensures
            match res {
                Ok(parsed) => url_parse(input@) == Some(parsed@),
                Err(e) => url_parse(input@) is None && e == RepoError::URLParseError,
            },
    {
        match parse_with_url_crate(input) {
            Ok(parsed) => Ok(parsed),
            Err(_) => Err(RepoError::URLParseError),
        }
    }
}

} // verus!
