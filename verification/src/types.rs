//! The values that the client hands to its callers: the result envelope, the
//! error taxonomy, rate-limit counters and pagination links.

use vstd::prelude::*;

verus! {

/// `serde_json::Error`, carried inside [`GitHubApiError::JsonError`] and never
/// looked into.
#[verifier::external_type_specification]
#[verifier::external_body]
pub struct ExJsonError(serde_json::Error);

/// `reqwest::Error`, carried inside [`GitHubApiError::ReqwestError`] and never
/// looked into.
#[verifier::external_type_specification]
#[verifier::external_body]
pub struct ExReqwestError(reqwest::Error);

/// A decoded payload together with what the response said about the request
/// that produced it.
#[derive(Debug)]
pub struct GitHubApiResult<T> {
    /// The decoded payload.
    pub result: T,
    /// The body text that `result` was decoded from.
    pub raw_result: String,
    /// The rate-limit counters of the response, if it carried all three.
    pub limits: Option<LimitRemainingReset>,
    /// The owner of the repository that was asked about, if any.
    pub owner: Option<String>,
    /// The repository that was asked about, if any.
    pub repository: Option<String>,
    /// The page to ask for next, if the response named one.
    pub next_page: Option<u64>,
}

/// What a call hands back: the envelope, or the reason there is none.
pub type Response<T> = Result<GitHubApiResult<T>, GitHubApiError>;

/// Why a call produced no result.
#[derive(Debug)]
pub enum GitHubApiError {
    /// The endpoint is not wired up.
    NotImplemented,
    /// The body did not decode into the expected shape. Carries the decoder's
    /// error and the body text it was given.
    JsonError((serde_json::Error, String)),
    /// The server answered with an error status. Carries the status line and
    /// the body text.
    GitHubError((String, String)),
    /// The request failed before a body could be read.
    ReqwestError(reqwest::Error),
}

/// State of an issue or pull request.
#[derive(Debug, Clone, Copy, PartialEq, Eq, Structural)]
pub enum OpenClosed {
    Open,
    Closed,
}

/// One entry of a `Link` header: a relation and the page it points to.
#[derive(Debug, PartialEq, Eq)]
pub enum Pagination {
    First(u64),
    Previous(u64),
    Next(u64),
    Last(u64),
    /// A relation other than the four above, kept under its own name.
    Undefined(String, u64),
}

/// The mathematical value of a [`Pagination`].
pub ghost enum PaginationView {
    First(u64),
    Previous(u64),
    Next(u64),
    Last(u64),
    Undefined(Seq<char>, u64),
}

impl View for Pagination {
    type V = PaginationView;

    open spec fn view(&self) -> PaginationView {
        match self {
            Pagination::First(page) => PaginationView::First(*page),
            Pagination::Previous(page) => PaginationView::Previous(*page),
            Pagination::Next(page) => PaginationView::Next(*page),
            Pagination::Last(page) => PaginationView::Last(*page),
            Pagination::Undefined(name, page) => PaginationView::Undefined(name@, *page),
        }
    }
}

impl DeepView for Pagination {
    type V = PaginationView;

    open spec fn deep_view(&self) -> PaginationView {
        self@
    }
}

impl PaginationView {
    /// The page that the entry points to.
    pub open spec fn page(self) -> u64 {
        match self {
            PaginationView::First(page) => page,
            PaginationView::Previous(page) => page,
            PaginationView::Next(page) => page,
            PaginationView::Last(page) => page,
            PaginationView::Undefined(_, page) => page,
        }
    }

    /// The relation name that the entry was read from.
    pub open spec fn rel(self) -> Seq<char> {
        match self {
            PaginationView::First(_) => "first"@,
            PaginationView::Previous(_) => "prev"@,
            PaginationView::Next(_) => "next"@,
            PaginationView::Last(_) => "last"@,
            PaginationView::Undefined(name, _) => name,
        }
    }
}

/// The payload of the rate-limit endpoint.
#[derive(Debug, Clone, Copy, PartialEq, Eq, Structural)]
pub struct RateLimitResponse {
    pub resources: RateLimitResources,
    /// Deprecated upstream in favour of `resources.core`.
    pub rate: Option<LimitRemainingReset>,
}

/// Rate-limit counters by resource class.
#[derive(Debug, Clone, Copy, PartialEq, Eq, Structural)]
pub struct RateLimitResources {
    pub core: LimitRemainingReset,
    pub search: LimitRemainingReset,
    pub graphql: LimitRemainingReset,
    pub integration_manifest: LimitRemainingReset,
}

/// Quota accounting as the server reports it: the ceiling, what is left of
/// it, and the Unix time at which it is refilled.
#[derive(Debug, Clone, Copy, PartialEq, Eq, Structural)]
pub struct LimitRemainingReset {
    pub limit: u64,
    pub remaining: u64,
    pub reset: u64,
}

impl LimitRemainingReset {
    /// No more is left than the ceiling allows.
    pub open spec fn consistent(self) -> bool {
        self.remaining <= self.limit
    }

    /// Tells whether the counters agree with each other. The server is
    /// trusted to send such counters; nothing here rejects others.
    pub fn is_consistent(&self) -> (r: bool)
        ensures
            r == self.consistent(),
    {
        self.remaining <= self.limit
    }
}

} // verus!
