//! The cursor over the pages of one collection.
//!
//! A [`Paginator`] decides which page to ask for and when to stop. The
//! caller makes each request and hands the outcome back.

use crate::request::{repository_path, PageRequest, FULL_PAGE};
use crate::types::{GitHubApiError, GitHubApiResult, Response};
use vstd::prelude::*;

verus! {

/// The cursor over the pages of one resource of a repository.
pub struct Paginator {
    endpoint: String,
    owner: String,
    repository: String,
    next_page: Option<u64>,
}

/// The mathematical value of a [`Paginator`].
pub ghost struct PaginatorView {
    pub endpoint: Seq<char>,
    pub owner: Seq<char>,
    pub repository: Seq<char>,
    /// The page that the next pull asks for; `None` once the last page has
    /// been pulled.
    pub next_page: Option<u64>,
}

impl View for Paginator {
    type V = PaginatorView;

    closed spec fn view(&self) -> PaginatorView {
        PaginatorView {
            endpoint: self.endpoint@,
            owner: self.owner@,
            repository: self.repository@,
            next_page: self.next_page,
        }
    }
}

/// What the caller reports back once it has made a request.
#[derive(Debug)]
pub enum Event<T> {
    /// The outcome of the request of [`Paginator::next_request`].
    Pulled(Response<Vec<T>>),
    /// The outcome of the request of [`Paginator::probe_request`].
    Probed(Result<Vec<T>, GitHubApiError>),
}

/// What the paginator makes of an [`Event`].
#[derive(Debug)]
pub enum Effect<T> {
    /// After a pull: the page to hand on, if there is one.
    Yielded(Option<GitHubApiResult<Vec<T>>>),
    /// After a probe: whether the collection has any item.
    Answered(Result<bool, GitHubApiError>),
}

/// The cursor after a pull. `pulled` is what the pulled page named as its
/// successor, or `None` where the pull failed. A cursor that is gone stays
/// gone; a failed pull leaves the cursor where it was; a page moves it to
/// the successor it names.
pub open spec fn cursor_after(cursor: Option<u64>, pulled: Option<Option<u64>>) -> Option<u64> {
    match (cursor, pulled) {
        (None, _) => None,
        (Some(_), None) => cursor,
        (Some(_), Some(next_page)) => next_page,
    }
}

/// What the outcome of a pull says about the next page: the successor that
/// the page names, or `None` where there is no page.
pub open spec fn successor_in<T>(pulled: Response<Vec<T>>) -> Option<Option<u64>> {
    match pulled {
        Ok(page) => Some(page.next_page),
        Err(_) => None,
    }
}

impl Paginator {
    /// A cursor that stands before the first page.
    pub fn new(endpoint: &str, owner: &str, repository: &str) -> (r: Self)
        ensures
            r@ == (PaginatorView {
                endpoint: endpoint@,
                owner: owner@,
                repository: repository@,
                next_page: Some(1u64),
            }),
    {
        Self {
            endpoint: endpoint.to_owned(),
            owner: owner.to_owned(),
            repository: repository.to_owned(),
            next_page: Some(1),
        }
    }

    /// The owner of the repository.
    pub fn owner(&self) -> (r: &str)
        ensures
            r@ == self@.owner,
    {
        self.owner.as_str()
    }

    /// The repository.
    pub fn repository(&self) -> (r: &str)
        ensures
            r@ == self@.repository,
    {
        self.repository.as_str()
    }

    /// The page that the next pull asks for.
    pub fn next_page(&self) -> (r: Option<u64>)
        ensures
            r == self@.next_page,
    {
        self.next_page
    }

    /// The request of the next pull: a full page at the cursor, or nothing
    /// once the cursor is gone.
    pub fn next_request(&self) -> (r: Option<PageRequest>)
        ensures
            r is Some <==> self@.next_page is Some,
            r matches Some(request) ==> {
                &&& request.method@ == repository_path(
                    self@.owner,
                    self@.repository,
                    self@.endpoint,
                )
                &&& Some(request.page) == self@.next_page
                &&& request.per_page == FULL_PAGE
            },
    {
        match self.next_page {
            Some(page) => Some(
                PageRequest::repository_page(
                    self.owner.as_str(),
                    self.repository.as_str(),
                    self.endpoint.as_str(),
                    page,
                ),
            ),
            None => None,
        }
    }

    /// Takes the outcome of the pull that [`Paginator::next_request`] asked
    /// for. A page is handed on, and the cursor moves to the page it names as
    /// next, or goes away if it names none. A failure yields nothing and
    /// leaves the cursor where it was. Once the cursor is gone nothing is
    /// handed on any more, whatever comes in.
    pub fn advance<T>(&mut self, pulled: Response<Vec<T>>) -> (r: Option<GitHubApiResult<Vec<T>>>)
        ensures
            final(self)@.endpoint == old(self)@.endpoint,
            final(self)@.owner == old(self)@.owner,
            final(self)@.repository == old(self)@.repository,
            final(self)@.next_page == cursor_after(old(self)@.next_page, successor_in(pulled)),
            r == if old(self)@.next_page is Some {
                pulled.ok()
            } else {
                None
            },
    {
        if self.next_page.is_none() {
            return None;
        }
        match pulled {
            Ok(page) => {
                self.next_page = page.next_page;
                Some(page)
            },
            Err(_) => None,
        }
    }

    /// The request that finds out whether the collection has any item: its
    /// first page, cut down to one item, wherever the cursor stands.
    pub fn probe_request(&self) -> (r: PageRequest)
        ensures
            r.method@ == repository_path(self@.owner, self@.repository, self@.endpoint),
            r.page == 1,
            r.per_page == 1,
    {
        PageRequest::probe(self.owner.as_str(), self.repository.as_str(), self.endpoint.as_str())
    }

    /// Takes the outcome of the probe that [`Paginator::probe_request`] asked
    /// for, and tells whether the collection has any item. A failure is
    /// handed on as it is. The cursor is not touched.
    pub fn has_items<T>(&self, probed: Result<Vec<T>, GitHubApiError>) -> (r: Result<
        bool,
        GitHubApiError,
    >)
        ensures
            match probed {
                Ok(items) => r == Ok::<bool, GitHubApiError>(items@.len() > 0),
                Err(error) => r == Err::<bool, GitHubApiError>(error),
            },
    {
        match probed {
            Ok(items) => Ok(items.len() > 0),
            Err(error) => Err(error),
        }
    }

    /// Takes whatever the caller reports: a pull goes to
    /// [`Paginator::advance`], a probe to [`Paginator::has_items`]. A probe
    /// changes nothing, so the pulls that follow it ask for the pages they
    /// would have asked for without it.
    pub fn handle<T>(&mut self, event: Event<T>) -> (r: Effect<T>)
        ensures
            match event {
                Event::Pulled(pulled) => {
                    &&& r == Effect::Yielded(
                        if old(self)@.next_page is Some {
                            pulled.ok()
                        } else {
                            None
                        },
                    )
                    &&& final(self)@ == (PaginatorView {
                        next_page: cursor_after(old(self)@.next_page, successor_in(pulled)),
                        ..old(self)@
                    })
                },
                Event::Probed(Ok(items)) => {
                    &&& r == Effect::<T>::Answered(Ok(items@.len() > 0))
                    &&& final(self)@ == old(self)@
                },
                Event::Probed(Err(error)) => {
                    &&& r == Effect::<T>::Answered(Err(error))
                    &&& final(self)@ == old(self)@
                },
            },
    {
        match event {
            Event::Pulled(pulled) => Effect::Yielded(self.advance(pulled)),
            Event::Probed(probed) => Effect::Answered(self.has_items(probed)),
        }
    }
}

/// What page `page` of a collection of `pages` pages names as its successor:
/// the page after it, and nothing on the last page.
pub open spec fn upstream_cursor(pages: u64, page: u64) -> Option<u64> {
    if page < pages {
        Some((page + 1) as u64)
    } else {
        None
    }
}

/// The cursor after `pulls` pulls on a collection of `pages` pages, each of
/// which succeeds or finds the cursor gone.
pub open spec fn cursor_after_pulls(cursor: Option<u64>, pages: u64, pulls: nat) -> Option<u64>
    decreases pulls,
{
    if pulls == 0 {
        cursor
    } else {
        match cursor {
            Some(page) => cursor_after_pulls(
                cursor_after(cursor, Some(upstream_cursor(pages, page))),
                pages,
                (pulls - 1) as nat,
            ),
            None => None,
        }
    }
}

/// The pages that `pulls` pulls ask for on a collection of `pages` pages,
/// in the order in which they are asked for. A pull that finds the cursor
/// gone asks for nothing.
pub open spec fn requested_pages(cursor: Option<u64>, pages: u64, pulls: nat) -> Seq<u64>
    decreases pulls,
{
    if pulls == 0 {
        Seq::empty()
    } else {
        match cursor {
            Some(page) => seq![page] + requested_pages(
                cursor_after(cursor, Some(upstream_cursor(pages, page))),
                pages,
                (pulls - 1) as nat,
            ),
            None => Seq::empty(),
        }
    }
}

/// A cursor that is gone stays gone: no pull asks for a page any more.
pub proof fn lemma_gone_stays_gone(pages: u64, pulls: nat)
    ensures
        cursor_after_pulls(None, pages, pulls) is None,
        requested_pages(None, pages, pulls) == Seq::<u64>::empty(),
        forall|pulled: Option<Option<u64>>| cursor_after(None, pulled) is None,
{
}

/// From page `page` on, the pages of a collection are asked for one after
/// the other, each once, and no page beyond the last.
pub proof fn lemma_pages_from(page: u64, pages: u64, pulls: nat)
    requires
        1 <= page <= pages,
    ensures
        requested_pages(Some(page), pages, pulls).len() == if pulls <= pages - page + 1 {
            pulls as int
        } else {
            pages - page + 1
        },
        forall|i: int|
            0 <= i < requested_pages(Some(page), pages, pulls).len() ==> #[trigger] requested_pages(
                Some(page),
                pages,
                pulls,
            )[i] == page + i,
        pulls > pages - page ==> cursor_after_pulls(Some(page), pages, pulls) is None,
        pulls <= pages - page ==> cursor_after_pulls(Some(page), pages, pulls) == Some(
            (page + pulls) as u64,
        ),
    decreases pulls,
{
    if pulls > 0 {
        let rest = (pulls - 1) as nat;
        let next = upstream_cursor(pages, page);
        if page < pages {
            lemma_pages_from((page + 1) as u64, pages, rest);
            let tail = requested_pages(next, pages, rest);
            let all = requested_pages(Some(page), pages, pulls);
            assert(all =~= seq![page] + tail);
            assert forall|i: int| 0 <= i < all.len() implies #[trigger] all[i] == page + i by {
                if i > 0 {
                    assert(all[i] == tail[i - 1]);
                }
            }
        } else {
            assert(requested_pages(next, pages, rest) =~= Seq::<u64>::empty()) by {
                reveal_with_fuel(requested_pages, 2);
            }
            assert(cursor_after_pulls(next, pages, rest) is None) by {
                reveal_with_fuel(cursor_after_pulls, 2);
            }
        }
    }
}

/// A fresh cursor over a collection of `pages` pages asks for page 1, then
/// for each following page in turn, never for a page twice and never for
/// more pages than there are; after the last page the cursor is gone, and
/// further pulls ask for nothing.
pub proof fn lemma_pages_in_order(pages: u64, pulls: nat)
    requires
        pages >= 1,
    ensures
        requested_pages(Some(1), pages, pulls).len() == if pulls <= pages {
            pulls
        } else {
            pages as nat
        },
        forall|i: int|
            0 <= i < requested_pages(Some(1), pages, pulls).len() ==> #[trigger] requested_pages(
                Some(1),
                pages,
                pulls,
            )[i] == i + 1,
        pulls >= pages ==> cursor_after_pulls(Some(1), pages, pulls) is None,
{
    lemma_pages_from(1, pages, pulls);
}

} // verus!
