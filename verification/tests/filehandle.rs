use repossess::filehandle::{create_download_url, extract_repo_from_cli, extract_repo_info};
use repossess::repo_url::{RepoUrl, UrlHost};
use repossess::{Cli, RepoType};

#[test]
fn simple_test_fn() {
    println!("Henlo frens");
}

#[test]
fn url_parse_test() {
    let git_url = RepoUrl::parse("https://github.com/rust-lang/rust").unwrap();
    assert!(git_url.host == Some(UrlHost::Domain(String::from("github.com"))));
}

#[test]
fn url_download_test() {
    let cli = Cli {
        url: String::from("https://github.com/rust-lang/rust"),
        branch: String::from("master"),
    };
    let git_repo = extract_repo_from_cli(&cli).unwrap();
    println!("{:#?}", git_repo);
    assert_eq!(git_repo.repo_type, RepoType::GitHub);
}

#[test]
fn url_malformed_git_url() {
    let git_url = "https://github.com/rust-lang/";
    let parsed_url: RepoUrl = RepoUrl::parse(git_url).unwrap();
    println!("{:#?}", extract_repo_info(&parsed_url));
}

#[test]
fn download_url_github_test() {
    let cli = Cli {
        url: String::from("https://github.com/rust-lang/rust"),
        branch: String::from("master"),
    };
    let git_repo = extract_repo_from_cli(&cli).unwrap();
    let download_url = create_download_url(&git_repo);

    assert_eq!(
        download_url,
        String::from("https://github.com/rust-lang/rust/archive/master.zip")
    )
}

#[test]
fn download_url_gitlab_test() {
    let cli = Cli {
        url: String::from("https://gitlab.com/rust-lang/rust"),
        branch: String::from("master"),
    };
    let git_repo = extract_repo_from_cli(&cli).unwrap();
    let download_url = create_download_url(&git_repo);

    assert_eq!(
        download_url,
        String::from("https://gitlab.com/rust-lang/rust/-/archive/master/rust-master.zip")
    )
}
