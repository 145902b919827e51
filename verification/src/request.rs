//! The requests that the client makes: which path, which page, and the URL
//! that both give.

use crate::numeral::{append_decimal, decimal_digits};
use vstd::prelude::*;
use vstd::string::StringExecFns;

verus! {

/// Where every request goes.
pub const API_BASE: &'static str = "https://api.github.com/";

/// The media type that every request asks for.
pub const ACCEPT: &'static str = "application/vnd.github.v3+json";

/// How many items a full page holds.
pub const FULL_PAGE: u64 = 100;

/// One GET request: the path below the API's root, the page, and how many
/// items the page may hold.
#[derive(Debug)]
pub struct PageRequest {
    pub method: String,
    pub page: u64,
    pub per_page: u64,
}

/// Everything that goes into one authenticated GET: where it goes, which
/// media type it asks for, and the credentials for HTTP Basic
/// authentication.
#[derive(Debug)]
pub struct HttpGet {
    pub url: String,
    pub accept: &'static str,
    pub username: String,
    pub password: String,
}

/// The path of a resource of a repository.
pub open spec fn repository_path(
    owner: Seq<char>,
    repository: Seq<char>,
    endpoint: Seq<char>,
) -> Seq<char> {
    "repos/"@ + owner + "/"@ + repository + "/"@ + endpoint
}

/// The URL of a request.
pub open spec fn url_of(method: Seq<char>, page: u64, per_page: u64) -> Seq<char> {
    API_BASE@ + method + "?per_page="@ + decimal_digits(per_page as nat) + "&page="@
        + decimal_digits(page as nat)
}

/// Builds the path `repos/{owner}/{repository}/{endpoint}`.
pub fn repository_method(owner: &str, repository: &str, endpoint: &str) -> (r: String)
    ensures
        r@ == repository_path(owner@, repository@, endpoint@),
{
    let mut path = String::from_str("repos/");
    path.append(owner);
    path.append("/");
    path.append(repository);
    path.append("/");
    path.append(endpoint);
    path
}

impl PageRequest {
    /// The request for the rate-limit counters.
    pub fn rate_limit() -> (r: PageRequest)
        ensures
            r.method@ == "rate_limit"@,
            r.page == 1,
            r.per_page == FULL_PAGE,
    {
        PageRequest { method: String::from_str("rate_limit"), page: 1, per_page: FULL_PAGE }
    }

    /// The request for one full page of a resource of a repository.
    pub fn repository_page(owner: &str, repository: &str, endpoint: &str, page: u64) -> (r:
        PageRequest)
        ensures
            r.method@ == repository_path(owner@, repository@, endpoint@),
            r.page == page,
            r.per_page == FULL_PAGE,
    {
        PageRequest {
            method: repository_method(owner, repository, endpoint),
            page,
            per_page: FULL_PAGE,
        }
    }

    /// The request that finds out whether a resource of a repository has any
    /// item at all: the first page, cut down to one item.
    pub fn probe(owner: &str, repository: &str, endpoint: &str) -> (r: PageRequest)
        ensures
            r.method@ == repository_path(owner@, repository@, endpoint@),
            r.page == 1,
            r.per_page == 1,
    {
        PageRequest { method: repository_method(owner, repository, endpoint), page: 1, per_page: 1 }
    }

    /// The URL to send the request to.
    pub fn url(&self) -> (r: String)
        ensures
            r@ == url_of(self.method@, self.page, self.per_page),
    {
        let mut url = String::from_str(API_BASE);
        url.append(self.method.as_str());
        url.append("?per_page=");
        append_decimal(&mut url, self.per_page);
        url.append("&page=");
        append_decimal(&mut url, self.page);
        url
    }
}

} // verus!
