//! Tests of remote-shorthand resolution and clone-target lookup.
use bleur::error::BleurError;
use bleur::provider::parse_remote;
use bleur::provider::provider_link;
use bleur::provider::ParsedUrl;
use bleur::provider::Provider;

fn resolve(input: &str) -> Result<Provider, BleurError> {
    Provider::from_url(parse_remote(input)?)
}

#[test]
fn github_shorthand_without_branch() {
    let got = resolve("github:acme/widgets").unwrap();
    assert_eq!(
        got,
        Provider::Branchless {
            provider: "github".to_string(),
            owner: "acme".to_string(),
            repo: "widgets".to_string(),
        }
    );
}

#[test]
fn github_shorthand_with_branch() {
    let got = resolve("github:acme/widgets/dev").unwrap();
    assert_eq!(
        got,
        Provider::Branch {
            provider: "github".to_string(),
            owner: "acme".to_string(),
            repo: "widgets".to_string(),
            branch: "dev".to_string(),
        }
    );
}

#[test]
fn literal_https_url_stays_verbatim() {
    let got = resolve("https://example.com/x.zip").unwrap();
    assert_eq!(got, Provider::Other { url: "https://example.com/x.zip".to_string() });
}

#[test]
fn literal_http_url_stays_verbatim() {
    let got = resolve("http://example.com/t.zip").unwrap();
    assert_eq!(got, Provider::Other { url: "http://example.com/t.zip".to_string() });
}

#[test]
fn unknown_provider_resolves_structurally_but_has_no_clone_url() {
    let got = resolve("gitlab:acme/widgets").unwrap();
    assert_eq!(
        got,
        Provider::Branchless {
            provider: "gitlab".to_string(),
            owner: "acme".to_string(),
            repo: "widgets".to_string(),
        }
    );
    assert_eq!(
        got.clone_target(),
        Err(BleurError::UnknownGitProvider("gitlab".to_string()))
    );
}

#[test]
fn github_shorthand_clone_target() {
    let target = resolve("github:acme/widgets").unwrap().clone_target().unwrap();
    assert_eq!(target.0, "https://github.com/acme/widgets");
    assert_eq!(target.1, None);
    let with_branch = resolve("github:acme/widgets/dev").unwrap().clone_target().unwrap();
    assert_eq!(with_branch.0, "https://github.com/acme/widgets");
    assert_eq!(with_branch.1, Some("dev".to_string()));
}

#[test]
fn literal_url_clone_target_is_itself() {
    let target = resolve("https://example.com/x.zip").unwrap().clone_target().unwrap();
    assert_eq!(target.0, "https://example.com/x.zip");
    assert_eq!(target.1, None);
}

#[test]
fn provider_link_knows_only_github() {
    assert_eq!(
        provider_link("github".to_string(), "acme".to_string(), "widgets".to_string()),
        Ok("https://github.com/acme/widgets".to_string())
    );
    assert_eq!(
        provider_link("sourcehut".to_string(), "acme".to_string(), "widgets".to_string()),
        Err(BleurError::UnknownGitProvider("sourcehut".to_string()))
    );
}

#[test]
fn malformed_url_is_a_parse_error() {
    match parse_remote("not a url at all") {
        Err(BleurError::CantParseUrl(_)) => {},
        other => panic!("expected a parse failure, got {:?}", other),
    }
}

#[test]
fn empty_owner_segment_is_rejected() {
    let url = ParsedUrl {
        scheme: "github".to_string(),
        path: "/acme/widgets".to_string(),
        full: "github:/acme/widgets".to_string(),
    };
    assert_eq!(
        Provider::from_url(url),
        Err(BleurError::InvalidRepositoryOwner("github:/acme/widgets".to_string()))
    );
}

#[test]
fn missing_repository_segment_is_rejected() {
    let got = resolve("github:acme");
    assert_eq!(
        got,
        Err(BleurError::InvalidRepositoryName("github:acme".to_string()))
    );
}

#[test]
fn empty_repository_segment_is_rejected() {
    let url = ParsedUrl {
        scheme: "github".to_string(),
        path: "acme/".to_string(),
        full: "github:acme/".to_string(),
    };
    assert_eq!(
        Provider::from_url(url),
        Err(BleurError::InvalidRepositoryName("github:acme/".to_string()))
    );
}
