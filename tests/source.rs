use eva_launcher::outcome::ErrorKind;
use eva_launcher::source::{bundle_download_url, parse_github_url};

fn pair(a: &str, b: &str) -> (String, String) {
    (a.to_string(), b.to_string())
}

#[test]
fn parse_https_form() {
    assert_eq!(parse_github_url("https://github.com/acme/widget").unwrap(), pair("acme", "widget"));
}

#[test]
fn parse_https_git_form() {
    assert_eq!(
        parse_github_url("https://github.com/acme/widget.git").unwrap(),
        pair("acme", "widget")
    );
}

#[test]
fn parse_ssh_form() {
    assert_eq!(parse_github_url("git@github.com:acme/widget.git").unwrap(), pair("acme", "widget"));
}

#[test]
fn parse_rejects_malformed() {
    let e = parse_github_url("not-a-url").unwrap_err();
    assert_eq!(e.kind, ErrorKind::Parse);
}

#[test]
fn parse_rejects_single_field() {
    let e = parse_github_url("https://github.com/acme").unwrap_err();
    assert_eq!(e.kind, ErrorKind::Parse);
}

#[test]
fn parse_ignores_surrounding_space_and_extra_fields() {
    assert_eq!(
        parse_github_url("  https://github.com/acme/widget/tree/main\n").unwrap(),
        pair("acme", "widget")
    );
}

#[test]
fn parse_strips_repeated_suffix() {
    assert_eq!(
        parse_github_url("git@github.com:acme/widget.git.git").unwrap(),
        pair("acme", "widget")
    );
}

#[test]
fn download_url_for_branch_archive() {
    assert_eq!(
        bundle_download_url(" https://github.com/acme/widget.git ").unwrap(),
        "https://github.com/acme/widget/archive/refs/heads/main.zip"
    );
}

#[test]
fn download_url_keeps_release_link() {
    let url = "https://github.com/acme/widget/releases/download/v1/pack.zip";
    assert_eq!(bundle_download_url(url).unwrap(), url);
}

#[test]
fn download_url_rejects_malformed() {
    assert_eq!(bundle_download_url("ftp://x/y").unwrap_err().kind, ErrorKind::Parse);
}

#[test]
fn parse_rejects_empty_fields() {
    assert_eq!(parse_github_url("https://github.com/acme/").unwrap_err().kind, ErrorKind::Parse);
    assert_eq!(parse_github_url("https://github.com//").unwrap_err().kind, ErrorKind::Parse);
    assert_eq!(parse_github_url("git@github.com:/widget.git").unwrap_err().kind, ErrorKind::Parse);
    assert_eq!(bundle_download_url("https://github.com/acme/").unwrap_err().kind, ErrorKind::Parse);
}
