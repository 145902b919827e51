//! Core of a read-only GitHub REST client: reading rate limits and page
//! cursors out of response headers, building request URLs, assembling typed
//! results, and the page-by-page cursor of a paginated collection.
//!
//! Nothing in this crate touches the network or decodes a payload. A caller
//! sends the request that a [`PageRequest`] describes, decodes the body, and
//! hands both outcomes back.

use vstd::prelude::*;

pub mod helpers;
pub mod link;
pub mod numeral;
pub mod paginator;
pub mod request;
pub mod types;
pub mod words;

pub use helpers::{parse_json, HeaderMapExtensions};
pub use paginator::Paginator;
pub use request::PageRequest;
pub use types::{
    GitHubApiError, GitHubApiResult, LimitRemainingReset, OpenClosed, Pagination,
    RateLimitResponse, RateLimitResources, Response,
};

use helpers::{link_is_readable, next_page_in, pagination_defined, rate_limits_of, MalformedLink};
use request::{url_of, HttpGet, ACCEPT};
use reqwest::header::{HeaderMap, HeaderValue};

verus! {

/// What one successful round trip brings back: the body text, the rate-limit
/// counters and the page to ask for next.
pub type Fetched = (String, Option<LimitRemainingReset>, Option<u64>);

/// What arrives when a request has been answered: the headers of the response
/// and the outcome of reading its body as text.
pub type Received = (HeaderMap<HeaderValue>, Result<String, reqwest::Error>);

/// What a sent request comes to. A transport error, before or while the body
/// is read, is handed on as such; otherwise the body text goes with the rate
/// limits and the next page that the headers carry.
pub open spec fn fetched_of(sent: Result<Received, reqwest::Error>) -> Result<
    Fetched,
    GitHubApiError,
> {
    match sent {
        Ok((headers, Ok(text))) => Ok(
            (text, rate_limits_of(headers.texts()), next_page_in(headers.texts())),
        ),
        Ok((_, Err(error))) => Err(GitHubApiError::ReqwestError(error)),
        Err(error) => Err(GitHubApiError::ReqwestError(error)),
    }
}

/// The credentials that every request is made with.
pub struct GitHubApi {
    username: String,
    password: String,
}

impl GitHubApi {
    /// The user name that requests are made under.
    pub closed spec fn username_text(&self) -> Seq<char> {
        self.username@
    }

    /// The password or token that requests are made with.
    pub closed spec fn password_text(&self) -> Seq<char> {
        self.password@
    }

    /// A client for the given credentials.
    pub fn new(username: &str, password: &str) -> (r: Self)
        ensures
            r.username_text() == username@,
            r.password_text() == password@,
    {
        Self { username: username.to_owned(), password: password.to_owned() }
    }

    /// The user name for HTTP Basic authentication.
    pub fn username(&self) -> (r: &str)
        ensures
            r@ == self.username_text(),
    {
        self.username.as_str()
    }

    /// The password for HTTP Basic authentication.
    pub fn password(&self) -> (r: &str)
        ensures
            r@ == self.password_text(),
    {
        self.password.as_str()
    }

    /// The GET that makes `request` with these credentials.
    pub fn prepare(&self, request: &PageRequest) -> (r: HttpGet)
        ensures
            r.url@ == url_of(request.method@, request.page, request.per_page),
            r.accept@ == ACCEPT@,
            r.username@ == self.username_text(),
            r.password@ == self.password_text(),
    {
        HttpGet {
            url: request.url(),
            accept: ACCEPT,
            username: self.username.clone(),
            password: self.password.clone(),
        }
    }

    /// What a GET yields once it has been sent: the body text with the rate
    /// limits and the next page that the headers carry, or the transport
    /// error that kept the response or its body from arriving. `sent` holds
    /// the response's headers and the outcome of reading its body. The status
    /// code plays no part.
    pub fn api_get_call(&self, sent: Result<Received, reqwest::Error>) -> (r: Result<
        Fetched,
        GitHubApiError,
    >)
        requires
            sent matches Ok(received) ==> pagination_defined(received.0.texts()),
        ensures
            r == fetched_of(sent),
    {
        match sent {
            Ok((headers, body)) => {
                let limits = headers.get_rate_limits();
                let next_page = headers.get_next_page();
                match body {
                    Ok(text) => Ok((text, limits, next_page)),
                    Err(error) => Err(GitHubApiError::ReqwestError(error)),
                }
            },
            Err(error) => Err(GitHubApiError::ReqwestError(error)),
        }
    }

    /// [`GitHubApi::api_get_call`] for any response: an error of its own
    /// where the `Link` header cannot be turned into links.
    pub fn try_api_get_call(&self, sent: Result<Received, reqwest::Error>) -> (r: Result<
        Result<Fetched, GitHubApiError>,
        MalformedLink,
    >)
        ensures
            r is Ok <==> (sent matches Ok(received) ==> pagination_defined(received.0.texts())),
            r matches Ok(fetched) ==> fetched == fetched_of(sent),
    {
        let readable = match &sent {
            Ok(received) => link_is_readable(&received.0),
            Err(_) => true,
        };
        if readable {
            Ok(self.api_get_call(sent))
        } else {
            Err(MalformedLink)
        }
    }

    /// The result of the rate-limit endpoint: the decoded counters in an
    /// envelope that names no repository and no next page, or the decoder's
    /// error together with the body text.
    pub fn get_rate_limit(
        &self,
        fetched: Fetched,
        decoded: Result<RateLimitResponse, serde_json::Error>,
    ) -> (r: Response<RateLimitResponse>)
        ensures
            match decoded {
                Ok(payload) => r == Ok::<GitHubApiResult<RateLimitResponse>, GitHubApiError>(
                    GitHubApiResult {
                        result: payload,
                        raw_result: fetched.0,
                        limits: fetched.1,
                        owner: None,
                        repository: None,
                        next_page: None,
                    },
                ),
                Err(error) => r == Err::<GitHubApiResult<RateLimitResponse>, GitHubApiError>(
                    GitHubApiError::JsonError((error, fetched.0)),
                ),
            },
    {
        let (text, limits, _) = fetched;
        match decoded {
            Ok(payload) => Ok(
                GitHubApiResult {
                    result: payload,
                    raw_result: text,
                    limits,
                    owner: None,
                    repository: None,
                    next_page: None,
                },
            ),
            Err(error) => Err(GitHubApiError::JsonError((error, text))),
        }
    }

    /// The result of one page of a resource of a repository: the decoded
    /// payload in an envelope that names the repository and carries the rate
    /// limits and the next page, or the decoder's error together with the
    /// body text.
    pub fn get_page<T>(
        &self,
        owner: &str,
        repository: &str,
        fetched: Fetched,
        decoded: Result<T, serde_json::Error>,
    ) -> (r: Response<T>)
        ensures
            match decoded {
                Ok(payload) => {
                    &&& r matches Ok(page)
                    &&& page.result == payload
                    &&& page.raw_result == fetched.0
                    &&& page.limits == fetched.1
                    &&& page.owner matches Some(name)
                    &&& name@ == owner@
                    &&& page.repository matches Some(name)
                    &&& name@ == repository@
                    &&& page.next_page == fetched.2
                },
                Err(error) => r == Err::<GitHubApiResult<T>, GitHubApiError>(
                    GitHubApiError::JsonError((error, fetched.0)),
                ),
            },
    {
        let (text, limits, next_page) = fetched;
        match decoded {
            Ok(payload) => Ok(
                GitHubApiResult {
                    result: payload,
                    raw_result: text,
                    limits,
                    owner: Some(owner.to_owned()),
                    repository: Some(repository.to_owned()),
                    next_page,
                },
            ),
            Err(error) => Err(GitHubApiError::JsonError((error, text))),
        }
    }

    /// The cursor over the pages of a resource of a repository.
    pub fn paginate(&self, owner: &str, repository: &str, endpoint: &str) -> (r: Paginator)
        ensures
            r@.owner == owner@,
            r@.repository == repository@,
            r@.endpoint == endpoint@,
            r@.next_page == Some(1u64),
    {
        Paginator::new(endpoint, owner, repository)
    }
}

} // verus!
