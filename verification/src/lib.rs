//! Turns the address of a GitHub or GitLab repository into the address of the
//! zip archive of one of its branches.

pub mod classify;
pub mod error;
pub mod filehandle;
pub mod path;
pub mod repo;
pub mod repo_url;

pub use crate::error::RepoError;
pub use crate::repo::{Cli, Repo, RepoType, UserInfo};
