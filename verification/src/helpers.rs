//! Reading rate limits, pagination links and the status out of response
//! headers.

use crate::link::{
    capture_readable, captures_readable, first_next, lemma_next_page_round_trip, link_entries,
    next_page_of, pagination_from_captures, readable_captures, regex_captures, regex_groups,
    LINK_PATTERN,
};
use crate::numeral::{parse_u64, parsed_u64};
use crate::types::{GitHubApiError, LimitRemainingReset, Pagination, PaginationView};
use crate::words::{first_word, first_word_of, same_text};
use reqwest::header::{HeaderMap, HeaderValue};
use vstd::prelude::*;

verus! {

/// `http::HeaderMap`, which `reqwest` hands out with every response.
#[verifier::external_type_specification]
#[verifier::external_body]
#[verifier::reject_recursive_types(T)]
pub struct ExHeaderMap<T>(HeaderMap<T>);

/// `http::HeaderValue`, the value type of a response's header map.
#[verifier::external_type_specification]
#[verifier::external_body]
pub struct ExHeaderValue(HeaderValue);

/// What a header map holds, as far as this crate reads it: for each name it
/// can be asked for, the text of the first value stored under that name, if
/// that value is made of visible ASCII only.
pub uninterp spec fn header_texts(headers: HeaderMap<HeaderValue>) -> Map<Seq<char>, Seq<char>>;

/// Looks one header up by name and reads its value as text.
///
/// Calls `HeaderMap::get` and then `HeaderValue::to_str` on what it found.
/// Trusted: the answer depends on the map and the name alone, and it is
/// `None` both when no value is stored under the name and when the first such
/// value holds a byte outside visible ASCII.
#[verifier::external_body]
fn header_text(headers: &HeaderMap<HeaderValue>, key: &str) -> (r: Option<String>)
    ensures
        r is Some <==> header_texts(*headers).contains_key(key@),
        r matches Some(text) ==> text@ == header_texts(*headers)[key@],
{
    match headers.get(key) {
        Some(value) => match value.to_str() {
            Ok(text) => Some(text.to_string()),
            Err(_) => None,
        },
        None => None,
    }
}

/// The number under `key`, if a text is stored there and denotes a `u64`.
pub open spec fn u64_header(texts: Map<Seq<char>, Seq<char>>, key: Seq<char>) -> Option<u64> {
    if texts.contains_key(key) {
        parsed_u64(texts[key])
    } else {
        None
    }
}

/// The rate-limit counters that a set of header texts carries: all three of
/// them, or nothing.
pub open spec fn rate_limits_of(texts: Map<Seq<char>, Seq<char>>) -> Option<LimitRemainingReset> {
    let limit = u64_header(texts, "x-ratelimit-limit"@);
    let remaining = u64_header(texts, "x-ratelimit-remaining"@);
    let reset = u64_header(texts, "x-ratelimit-reset"@);
    if limit is Some && remaining is Some && reset is Some {
        Some(LimitRemainingReset { limit: limit->0, remaining: remaining->0, reset: reset->0 })
    } else {
        None
    }
}

/// The matches of [`LINK_PATTERN`] in the text stored under `Link`.
pub open spec fn link_captures(texts: Map<Seq<char>, Seq<char>>) -> Option<
    Seq<Seq<Option<Seq<char>>>>,
> {
    regex_captures(LINK_PATTERN@, texts["Link"@])
}

/// The `Link` text, where there is one, can be turned into links: the pattern
/// was accepted and every match is readable. A page number too large for a
/// `u64` is what makes this false in practice.
pub open spec fn pagination_defined(texts: Map<Seq<char>, Seq<char>>) -> bool {
    texts.contains_key("Link"@) ==> {
        &&& link_captures(texts) is Some
        &&& captures_readable(link_captures(texts)->0)
    }
}

/// The links that a set of header texts carries: nothing without a `Link`
/// text, else one link per match, which may be none at all.
pub open spec fn pagination_of(texts: Map<Seq<char>, Seq<char>>) -> Option<Seq<PaginationView>> {
    if texts.contains_key("Link"@) {
        Some(link_entries(link_captures(texts)->0))
    } else {
        None
    }
}

/// The page that a set of header texts names as the next one.
pub open spec fn next_page_in(texts: Map<Seq<char>, Seq<char>>) -> Option<u64> {
    match pagination_of(texts) {
        Some(links) => first_next(links),
        None => None,
    }
}

/// The text under `status` starts, after any white space, with the word
/// `200`.
pub open spec fn status_is_ok(texts: Map<Seq<char>, Seq<char>>) -> bool {
    texts.contains_key("status"@) && first_word_of(texts["status"@]) == Some("200"@)
}

/// What this crate reads out of a set of response headers.
pub trait HeaderMapExtensions {
    /// The header texts by name, as far as they can be read as text.
    spec fn texts(&self) -> Map<Seq<char>, Seq<char>>;

    /// The header under `key` as a number.
    fn get_as_u64(&self, key: &str) -> (r: Option<u64>)
        ensures
            r == u64_header(self.texts(), key@),
    ;

    /// The rate-limit counters, if all three headers are there and each is a
    /// number.
    fn get_rate_limits(&self) -> (r: Option<LimitRemainingReset>)
        ensures
            r == rate_limits_of(self.texts()),
    ;

    /// The entries of the `Link` header, in the order in which they stand.
    fn get_pagination(&self) -> (r: Option<Vec<Pagination>>)
        requires
            pagination_defined(self.texts()),
        ensures
            r.deep_view() == pagination_of(self.texts()),
    ;

    /// The page that the `Link` header names as the next one.
    fn get_next_page(&self) -> (r: Option<u64>)
        requires
            pagination_defined(self.texts()),
        ensures
            r == next_page_in(self.texts()),
    ;

    /// Whether the `status` header starts with the word `200`.
    fn is_ok(&self) -> (r: bool)
        ensures
            r == status_is_ok(self.texts()),
    ;
}

impl HeaderMapExtensions for HeaderMap<HeaderValue> {
    open spec fn texts(&self) -> Map<Seq<char>, Seq<char>> {
        header_texts(*self)
    }

    fn get_as_u64(&self, key: &str) -> (r: Option<u64>) {
        match header_text(self, key) {
            Some(text) => parse_u64(text.as_str()),
            None => None,
        }
    }

    fn get_rate_limits(&self) -> (r: Option<LimitRemainingReset>) {
        let limit = self.get_as_u64("x-ratelimit-limit");
        let remaining = self.get_as_u64("x-ratelimit-remaining");
        let reset = self.get_as_u64("x-ratelimit-reset");
        match (limit, remaining, reset) {
            (Some(limit), Some(remaining), Some(reset)) => Some(
                LimitRemainingReset { limit, remaining, reset },
            ),
            _ => None,
        }
    }

    fn get_pagination(&self) -> (r: Option<Vec<Pagination>>) {
        match header_text(self, "Link") {
            None => None,
            Some(text) => match regex_groups(LINK_PATTERN, text.as_str()) {
                Some(captures) => Some(pagination_from_captures(&captures)),
                None => None,
            },
        }
    }

    fn get_next_page(&self) -> (r: Option<u64>) {
        match self.get_pagination() {
            Some(links) => next_page_of(&links),
            None => None,
        }
    }

    fn is_ok(&self) -> (r: bool) {
        match header_text(self, "status") {
            Some(text) => match first_word(text.as_str()) {
                Some(word) => same_text(word, "200"),
                None => false,
            },
            None => false,
        }
    }
}

/// A `Link` header that cannot be turned into links.
#[derive(Debug, Clone, Copy, PartialEq, Eq, Structural)]
pub struct MalformedLink;

/// Tells whether the `Link` header, if there is one, can be turned into
/// links.
pub fn link_is_readable(headers: &HeaderMap<HeaderValue>) -> (r: bool)
    ensures
        r == pagination_defined(headers.texts()),
{
    match header_text(headers, "Link") {
        None => true,
        Some(text) => match regex_groups(LINK_PATTERN, text.as_str()) {
            Some(captures) => readable_captures(&captures),
            None => false,
        },
    }
}

/// The entries of the `Link` header, or an error where the header cannot be
/// turned into links.
pub fn try_get_pagination(headers: &HeaderMap<HeaderValue>) -> (r: Result<
    Option<Vec<Pagination>>,
    MalformedLink,
>)
    ensures
        r is Ok <==> pagination_defined(headers.texts()),
        r matches Ok(links) ==> links.deep_view() == pagination_of(headers.texts()),
{
    if link_is_readable(headers) {
        Ok(headers.get_pagination())
    } else {
        Err(MalformedLink)
    }
}

/// The page that the `Link` header names as the next one, or an error where
/// the header cannot be turned into links.
pub fn try_get_next_page(headers: &HeaderMap<HeaderValue>) -> (r: Result<Option<u64>, MalformedLink>)
    ensures
        r is Ok <==> pagination_defined(headers.texts()),
        r matches Ok(page) ==> page == next_page_in(headers.texts()),
{
    if link_is_readable(headers) {
        Ok(headers.get_next_page())
    } else {
        Err(MalformedLink)
    }
}

/// What a decoder's outcome means to the caller: the decoded value, or the
/// decoder's error together with the text it was given, so that the failure
/// can be looked into without asking the server again.
pub fn parse_json<T>(decoded: Result<T, serde_json::Error>, text: &str) -> (r: Result<
    T,
    GitHubApiError,
>)
    ensures
        match decoded {
            Ok(value) => r == Ok::<T, GitHubApiError>(value),
            Err(error) => {
                &&& r matches Err(GitHubApiError::JsonError(reported))
                &&& reported.0 == error
                &&& reported.1@ == text@
            },
        },
{
    match decoded {
        Ok(value) => Ok(value),
        Err(error) => Err(GitHubApiError::JsonError((error, text.to_owned()))),
    }
}

/// Rate limits are all or nothing: where any one of the three headers is
/// missing, or is not a number, no counters are read at all.
pub proof fn lemma_rate_limits_all_or_nothing(texts: Map<Seq<char>, Seq<char>>, key: Seq<char>)
    requires
        key == "x-ratelimit-limit"@ || key == "x-ratelimit-remaining"@ || key
            == "x-ratelimit-reset"@,
        u64_header(texts, key) is None,
    ensures
        rate_limits_of(texts) is None,
{
}

/// Where counters are read, each is the number that its own header holds.
pub proof fn lemma_rate_limits_from_headers(texts: Map<Seq<char>, Seq<char>>)
    requires
        rate_limits_of(texts) is Some,
    ensures
        u64_header(texts, "x-ratelimit-limit"@) == Some(rate_limits_of(texts)->0.limit),
        u64_header(texts, "x-ratelimit-remaining"@) == Some(rate_limits_of(texts)->0.remaining),
        u64_header(texts, "x-ratelimit-reset"@) == Some(rate_limits_of(texts)->0.reset),
{
}

/// For every set of headers whose `Link` text can be turned into links: the
/// links are as many as the entries that were found, and the next page is the
/// page number of the first entry named `next`.
pub proof fn lemma_next_page_of_headers(texts: Map<Seq<char>, Seq<char>>, i: int)
    requires
        texts.contains_key("Link"@),
        pagination_defined(texts),
        0 <= i < link_captures(texts)->0.len(),
        (link_captures(texts)->0)[i][2] == Some("next"@),
        forall|j: int| 0 <= j < i ==> (#[trigger] (link_captures(texts)->0)[j])[2] != Some("next"@),
    ensures
        pagination_of(texts) matches Some(links) && links.len() == link_captures(texts)->0.len(),
        next_page_in(texts) == parsed_u64((link_captures(texts)->0)[i][1]->0),
        next_page_in(texts) is Some,
{
    let captures = link_captures(texts)->0;
    lemma_next_page_round_trip(captures, i);
}

} // verus!
