//! The entries of a `Link` header: finding them with a regular expression
//! and turning what was found into links.

use crate::numeral::{parse_u64, parsed_u64};
use crate::types::{Pagination, PaginationView};
use crate::words::same_text;
use vstd::prelude::*;

verus! {

/// The groups of every non-overlapping match of a regular expression in a
/// text, in the order of the matches: group 0 is the whole match, and a group
/// that took no part in a match is `None`. `None` as a whole when the pattern
/// is not a regular expression.
pub uninterp spec fn regex_captures(pattern: Seq<char>, text: Seq<char>) -> Option<
    Seq<Seq<Option<Seq<char>>>>,
>;

/// Runs a regular expression over a text and copies out every group of every
/// match.
///
/// Calls `Regex::new`, `Regex::captures_iter` and, per match,
/// `Captures::iter` with `Match::as_str`. Trusted: the answer depends on the
/// pattern and the text alone.
#[verifier::external_body]
pub(crate) fn regex_groups(pattern: &str, text: &str) -> (r: Option<Vec<Vec<Option<String>>>>)
    ensures
        r.deep_view() == regex_captures(pattern@, text@),
{
    match regex::Regex::new(pattern) {
        Ok(re) => Some(
            re.captures_iter(text).map(
                |found| found.iter().map(|group| group.map(|m| m.as_str().to_string())).collect(),
            ).collect(),
        ),
        Err(_) => None,
    }
}

/// The shape of one entry of a `Link` header: a URL in angle brackets with a
/// `page` query parameter, whose digits are group 1, and a quoted relation
/// name, which is group 2.
pub const LINK_PATTERN: &'static str = r#"<.*?[\?&]page=(\d+).*?>; rel="(.*?)""#;

/// A match carries both a relation name and a page number that fits a `u64`.
pub open spec fn capture_readable(groups: Seq<Option<Seq<char>>>) -> bool {
    &&& groups.len() > 2
    &&& groups[1] is Some
    &&& groups[2] is Some
    &&& parsed_u64(groups[1]->0) is Some
}

/// Every match is readable.
pub open spec fn captures_readable(captures: Seq<Seq<Option<Seq<char>>>>) -> bool {
    forall|i: int| 0 <= i < captures.len() ==> capture_readable(#[trigger] captures[i])
}

/// The link that a relation name and a page number make. The four names
/// `first`, `prev`, `next` and `last` have a variant each; any other name is
/// kept as it is.
pub open spec fn link_of(rel: Seq<char>, page: u64) -> PaginationView {
    if rel == "first"@ {
        PaginationView::First(page)
    } else if rel == "prev"@ {
        PaginationView::Previous(page)
    } else if rel == "next"@ {
        PaginationView::Next(page)
    } else if rel == "last"@ {
        PaginationView::Last(page)
    } else {
        PaginationView::Undefined(rel, page)
    }
}

/// The link that one readable match stands for.
pub open spec fn link_entry(groups: Seq<Option<Seq<char>>>) -> PaginationView {
    link_of(groups[2]->0, parsed_u64(groups[1]->0)->0)
}

/// The links that a run of matches stands for: one per match, in order.
pub open spec fn link_entries(captures: Seq<Seq<Option<Seq<char>>>>) -> Seq<PaginationView> {
    Seq::new(captures.len(), |i: int| link_entry(captures[i]))
}

/// The page of the first `Next` link, if there is one.
pub open spec fn first_next(links: Seq<PaginationView>) -> Option<u64>
    decreases links.len(),
{
    if links.len() == 0 {
        None
    } else if let PaginationView::Next(page) = links[0] {
        Some(page)
    } else {
        first_next(links.drop_first())
    }
}

/// Makes the link for a relation name and a page number.
pub fn link(rel: &str, page: u64) -> (r: Pagination)
    ensures
        r@ == link_of(rel@, page),
{
    if same_text(rel, "first") {
        Pagination::First(page)
    } else if same_text(rel, "prev") {
        Pagination::Previous(page)
    } else if same_text(rel, "next") {
        Pagination::Next(page)
    } else if same_text(rel, "last") {
        Pagination::Last(page)
    } else {
        Pagination::Undefined(rel.to_owned(), page)
    }
}

/// Tells whether one match is readable.
fn readable_capture(groups: &Vec<Option<String>>) -> (r: bool)
    ensures
        r == capture_readable(groups.deep_view()),
{
    if groups.len() <= 2 {
        return false;
    }
    match (&groups[1], &groups[2]) {
        (Some(page), Some(_)) => parse_u64(page.as_str()).is_some(),
        _ => false,
    }
}

/// Tells whether every match carries a relation name and a page number that
/// fits a `u64`.
pub fn readable_captures(captures: &Vec<Vec<Option<String>>>) -> (r: bool)
    ensures
        r == captures_readable(captures.deep_view()),
{
    let mut i: usize = 0;
    while i < captures.len()
        invariant
            i <= captures.len(),
            forall|j: int| 0 <= j < i ==> capture_readable(#[trigger] captures.deep_view()[j]),
        decreases captures.len() - i,
    {
        assert(captures.deep_view()[i as int] == captures@[i as int].deep_view());
        if !readable_capture(&captures[i]) {
            return false;
        }
        i = i + 1;
    }
    true
}

/// Turns the matches of [`LINK_PATTERN`] into links, one per match and in the
/// same order.
pub fn pagination_from_captures(captures: &Vec<Vec<Option<String>>>) -> (r: Vec<Pagination>)
    requires
        captures_readable(captures.deep_view()),
    ensures
        r.deep_view() == link_entries(captures.deep_view()),
{
    let mut links: Vec<Pagination> = Vec::new();
    let mut i: usize = 0;
    while i < captures.len()
        invariant
            i <= captures.len(),
            captures_readable(captures.deep_view()),
            links@.len() == i,
            forall|j: int| 0 <= j < i ==> (#[trigger] links@[j])@ == link_entry(captures.deep_view()[j]),
        decreases captures.len() - i,
    {
        let groups = &captures[i];
        assert(capture_readable(captures.deep_view()[i as int]));
        match (&groups[1], &groups[2]) {
            (Some(page), Some(rel)) => {
                match parse_u64(page.as_str()) {
                    Some(number) => {
                        links.push(link(rel.as_str(), number));
                    },
                    None => {
                        assert(false);
                    },
                }
            },
            _ => {
                assert(false);
            },
        }
        i = i + 1;
    }
    links
}

/// Finds the page that the first `Next` link points to.
pub fn next_page_of(links: &Vec<Pagination>) -> (r: Option<u64>)
    ensures
        r == first_next(links.deep_view()),
{
    let ghost all = links.deep_view();
    let mut i: usize = 0;
    assert(all.subrange(0, all.len() as int) =~= all);
    while i < links.len()
        invariant
            i <= links.len(),
            all == links.deep_view(),
            first_next(all) == first_next(all.subrange(i as int, all.len() as int)),
        decreases links.len() - i,
    {
        let ghost rest = all.subrange(i as int, all.len() as int);
        assert(rest.drop_first() =~= all.subrange(i + 1, all.len() as int));
        if let Pagination::Next(page) = &links[i] {
            return Some(*page);
        }
        i = i + 1;
    }
    None
}

/// A link is a `Next` link exactly when its relation name is `next`.
pub proof fn lemma_next_link(rel: Seq<char>, page: u64)
    ensures
        link_of(rel, page) is Next <==> rel == "next"@,
        link_of(rel, page).rel() == rel,
        link_of(rel, page).page() == page,
{
    reveal_strlit("first");
    reveal_strlit("prev");
    reveal_strlit("next");
    reveal_strlit("last");
    assert("next"@[0] == 'n' && "prev"@[0] == 'p' && "last"@[0] == 'l');
}

/// Every entry of a `Link` header is kept: there is one link per match, in
/// the order of the matches, and each link holds the relation name and the
/// page number of its match.
pub proof fn lemma_links_keep_entries(captures: Seq<Seq<Option<Seq<char>>>>, i: int)
    requires
        captures_readable(captures),
        0 <= i < captures.len(),
    ensures
        link_entries(captures).len() == captures.len(),
        Some(link_entries(captures)[i].rel()) == captures[i][2],
        Some(link_entries(captures)[i].page()) == parsed_u64(captures[i][1]->0),
{
    lemma_next_link(captures[i][2]->0, parsed_u64(captures[i][1]->0)->0);
}

/// The next page is the page of the first `Next` link.
pub proof fn lemma_first_next(links: Seq<PaginationView>, i: int)
    requires
        0 <= i < links.len(),
        links[i] is Next,
        forall|j: int| 0 <= j < i ==> !(#[trigger] links[j] is Next),
    ensures
        first_next(links) == Some(links[i].page()),
    decreases i,
{
    if i > 0 {
        let rest = links.drop_first();
        assert forall|j: int| 0 <= j < i - 1 implies !(#[trigger] rest[j] is Next) by {}
        lemma_first_next(rest, i - 1);
    }
}

/// Without a `Next` link there is no next page.
pub proof fn lemma_no_next(links: Seq<PaginationView>)
    requires
        forall|j: int| 0 <= j < links.len() ==> !(#[trigger] links[j] is Next),
    ensures
        first_next(links) is None,
    decreases links.len(),
{
    if links.len() > 0 {
        let rest = links.drop_first();
        assert forall|j: int| 0 <= j < rest.len() implies !(#[trigger] rest[j] is Next) by {}
        lemma_no_next(rest);
    }
}

/// Reading a `Link` header and looking up the next page gives back the page
/// number that the first entry named `next` was written with.
pub proof fn lemma_next_page_round_trip(captures: Seq<Seq<Option<Seq<char>>>>, i: int)
    requires
        captures_readable(captures),
        0 <= i < captures.len(),
        captures[i][2] == Some("next"@),
        forall|j: int| 0 <= j < i ==> (#[trigger] captures[j])[2] != Some("next"@),
    ensures
        first_next(link_entries(captures)) == parsed_u64(captures[i][1]->0),
{
    let links = link_entries(captures);
    assert forall|j: int| 0 <= j <= i implies (#[trigger] links[j] is Next) == (j == i) by {
        lemma_next_link(captures[j][2]->0, parsed_u64(captures[j][1]->0)->0);
    }
    lemma_links_keep_entries(captures, i);
    lemma_first_next(links, i);
}

/// A `Link` header without an entry named `next` names no next page.
pub proof fn lemma_no_next_entry(captures: Seq<Seq<Option<Seq<char>>>>)
    requires
        captures_readable(captures),
        forall|j: int| 0 <= j < captures.len() ==> (#[trigger] captures[j])[2] != Some("next"@),
    ensures
        first_next(link_entries(captures)) is None,
{
    let links = link_entries(captures);
    assert forall|j: int| 0 <= j < links.len() implies !(#[trigger] links[j] is Next) by {
        lemma_next_link(captures[j][2]->0, parsed_u64(captures[j][1]->0)->0);
    }
    lemma_no_next(links);
}

} // verus!
