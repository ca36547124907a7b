//! The remote-source resolver.
//!
//! A remote source is classified from its URL: an `http` or `https` scheme
//! makes a literal target used verbatim; any other scheme is provider
//! shorthand `provider:owner/repo[/branch]`, whose path must name an owner
//! and a repository. Resolving the shorthand to a concrete clone URL is
//! deferred to fetch time through a lookup table that currently knows only
//! `github`; any other provider fails at the point a concrete clone URL is
//! needed.
use crate::error::BleurError;
use crate::text::lemma_split_nonempty;
use crate::text::split_char;
use crate::text::split_from;
use crate::text::str_eq;
use vstd::prelude::*;
use vstd::string::StringExecFns;

verus! {

/// A URL reduced to what the resolver reads: its scheme, its path component
/// and its serialization.
#[derive(Debug, Clone, PartialEq, Eq)]
pub struct ParsedUrl {
    /// The URL's scheme, in ASCII lower case.
    pub scheme: String,
    /// The URL's path component.
    pub path: String,
    /// The whole URL, serialized back to text.
    pub full: String,
}

/// The mathematical content of a parsed URL.
pub struct ParsedUrlV {
    pub scheme: Seq<char>,
    pub path: Seq<char>,
    pub full: Seq<char>,
}

impl View for ParsedUrl {
    type V = ParsedUrlV;

    open spec fn view(&self) -> ParsedUrlV {
        ParsedUrlV { scheme: self.scheme@, path: self.path@, full: self.full@ }
    }
}

/// Relies on `url::Url::parse` for deciding well-formedness, and on
/// `Url::scheme`, `Url::path` and the `Display` serialization for the three
/// components the resolver reads; malformed input is the only failure.
#[verifier::external_body]
pub fn parse_remote(input: &str) -> (r: Result<ParsedUrl, BleurError>)
    ensures
        r matches Err(e) ==> e matches BleurError::CantParseUrl(_),
{
    match url::Url::parse(input) {
        Ok(u) => Ok(
            ParsedUrl {
                scheme: u.scheme().to_string(),
                path: u.path().to_string(),
                full: u.to_string(),
            },
        ),
        Err(e) => Err(BleurError::CantParseUrl(e.to_string())),
    }
}

/// A classified remote source: provider shorthand with or without a branch,
/// or a literal URL.
#[derive(Debug, Clone, PartialEq, Eq)]
pub enum Provider {
    /// `provider:owner/repo/branch` shorthand.
    Branch { provider: String, owner: String, repo: String, branch: String },
    /// `provider:owner/repo` shorthand; the default branch is meant.
    Branchless { provider: String, owner: String, repo: String },
    /// A literal URL, used verbatim as the fetch target.
    Other { url: String },
}

/// The mathematical content of a classified remote source.
pub enum ProviderV {
    Branch { provider: Seq<char>, owner: Seq<char>, repo: Seq<char>, branch: Seq<char> },
    Branchless { provider: Seq<char>, owner: Seq<char>, repo: Seq<char> },
    Other { url: Seq<char> },
}

impl View for Provider {
    type V = ProviderV;

    open spec fn view(&self) -> ProviderV {
        match self {
            Provider::Branch { provider, owner, repo, branch } => ProviderV::Branch {
                provider: provider@,
                owner: owner@,
                repo: repo@,
                branch: branch@,
            },
            Provider::Branchless { provider, owner, repo } => ProviderV::Branchless {
                provider: provider@,
                owner: owner@,
                repo: repo@,
            },
            Provider::Other { url } => ProviderV::Other { url: url@ },
        }
    }
}

/// The classification `from_url` must yield: a literal target for HTTP(S),
/// an owner/repo[/branch] decomposition of the path otherwise, and the
/// typed error naming the serialized URL when the owner or the repository
/// segment is absent or empty.
pub open spec fn from_url_post(u: ParsedUrlV, r: Result<Provider, BleurError>) -> bool {
    let segs = split_from(u.path, 0, '/');
    if u.scheme == "https"@ || u.scheme == "http"@ {
        match r {
            Ok(p) => p@ == (ProviderV::Other { url: u.full }),
            Err(_) => false,
        }
    } else if segs[0].len() == 0 {
        match r {
            Err(e) => match e {
                BleurError::InvalidRepositoryOwner(t) => t@ == u.full,
                _ => false,
            },
            Ok(_) => false,
        }
    } else if segs.len() < 2 || segs[1].len() == 0 {
        match r {
            Err(e) => match e {
                BleurError::InvalidRepositoryName(t) => t@ == u.full,
                _ => false,
            },
            Ok(_) => false,
        }
    } else if segs.len() >= 3 {
        match r {
            Ok(p) => p@ == (ProviderV::Branch {
                provider: u.scheme,
                owner: segs[0],
                repo: segs[1],
                branch: segs[2],
            }),
            Err(_) => false,
        }
    } else {
        match r {
            Ok(p) => p@ == (ProviderV::Branchless {
                provider: u.scheme,
                owner: segs[0],
                repo: segs[1],
            }),
            Err(_) => false,
        }
    }
}

impl Provider {
    /// Classifies a parsed URL. A literal HTTP(S) target stands as it is;
    /// anything else is provider shorthand whose path must name a non-empty
    /// owner and repository, with an optional branch as the third segment.
    pub fn from_url(url: ParsedUrl) -> (r: Result<Provider, BleurError>)
        ensures
            from_url_post(url@, r),
    {
        if str_eq(url.scheme.as_str(), "https") || str_eq(url.scheme.as_str(), "http") {
            return Ok(Provider::Other { url: url.full });
        }
        let segs = split_char(url.path.as_str(), '/');
        proof {
            lemma_split_nonempty(url.path@, 0, '/');
            assert(segs@[0]@ == split_from(url.path@, 0, '/')[0]);
        }
        let owner = segs[0].clone();
        if owner.as_str().is_empty() {
            return Err(BleurError::InvalidRepositoryOwner(url.full));
        }
        if segs.len() < 2 {
            return Err(BleurError::InvalidRepositoryName(url.full));
        }
        proof {
            assert(segs@[1]@ == split_from(url.path@, 0, '/')[1]);
        }
        let repo = segs[1].clone();
        if repo.as_str().is_empty() {
            return Err(BleurError::InvalidRepositoryName(url.full));
        }
        if segs.len() >= 3 {
            proof {
                assert(segs@[2]@ == split_from(url.path@, 0, '/')[2]);
            }
            let branch = segs[2].clone();
            Ok(Provider::Branch { provider: url.scheme, owner, repo, branch })
        } else {
            Ok(Provider::Branchless { provider: url.scheme, owner, repo })
        }
    }
}

/// The concrete clone URL a provider shorthand resolves to; only `github`
/// is known, and anything else is the typed unknown-provider failure.
pub fn provider_link(scheme: String, owner: String, repo: String) -> (r: Result<
    String,
    BleurError,
>)
    ensures
        match r {
            Ok(l) => scheme@ == "github"@ && l@ == "https://github.com/"@ + owner@ + "/"@ + repo@,
            Err(e) => scheme@ != "github"@ && match e {
                BleurError::UnknownGitProvider(s) => s@ == scheme@,
                _ => false,
            },
        },
{
    if str_eq(scheme.as_str(), "github") {
        let mut l = String::from_str("https://github.com/");
        l.append(owner.as_str());
        l.append("/");
        l.append(repo.as_str());
        Ok(l)
    } else {
        Err(BleurError::UnknownGitProvider(scheme))
    }
}

/// What resolving the fetch target must yield: the provider table applied
/// to shorthand, the literal URL untouched, and the shorthand's branch
/// selection carried through.
pub open spec fn clone_target_post(
    p: ProviderV,
    r: Result<(String, Option<String>), BleurError>,
) -> bool {
    match p {
        ProviderV::Branch { provider, owner, repo, branch } => match r {
            Ok(t) => {
                &&& provider == "github"@
                &&& t.0@ == "https://github.com/"@ + owner + "/"@ + repo
                &&& match t.1 {
                    Some(b) => b@ == branch,
                    None => false,
                }
            },
            Err(e) => provider != "github"@ && match e {
                BleurError::UnknownGitProvider(s) => s@ == provider,
                _ => false,
            },
        },
        ProviderV::Branchless { provider, owner, repo } => match r {
            Ok(t) => {
                &&& provider == "github"@
                &&& t.0@ == "https://github.com/"@ + owner + "/"@ + repo
                &&& t.1 is None
            },
            Err(e) => provider != "github"@ && match e {
                BleurError::UnknownGitProvider(s) => s@ == provider,
                _ => false,
            },
        },
        ProviderV::Other { url } => match r {
            Ok(t) => t.0@ == url && t.1 is None,
            Err(_) => false,
        },
    }
}

impl Provider {
    /// Resolves the concrete clone URL and branch selection for this source:
    /// shorthand goes through the provider table, a literal URL stands as it
    /// is. The transfer itself is the caller's.
    pub fn clone_target(self) -> (r: Result<(String, Option<String>), BleurError>)
        ensures
            clone_target_post(self@, r),
    {
        match self {
            Provider::Branch { provider, owner, repo, branch } => match provider_link(
                provider,
                owner,
                repo,
            ) {
                Ok(l) => Ok((l, Some(branch))),
                Err(e) => Err(e),
            },
            Provider::Branchless { provider, owner, repo } => match provider_link(
                provider,
                owner,
                repo,
            ) {
                Ok(l) => Ok((l, None)),
                Err(e) => Err(e),
            },
            Provider::Other { url } => Ok((url, None)),
        }
    }
}

} // verus!
