use githubapi::paginator::{Effect, Event};
use githubapi::{GitHubApi, GitHubApiError, GitHubApiResult, Paginator, Response};
use reqwest::header::{HeaderMap, HeaderValue};

/// A server that holds `bodies.len()` pages and names each page's successor.
fn serve(api: &GitHubApi, bodies: &[&str], page: u64) -> Response<Vec<u64>> {
    let mut headers = HeaderMap::new();
    if (page as usize) < bodies.len() {
        let link = format!("<https://api/x?per_page=100&page={}>; rel=\"next\"", page + 1);
        headers.insert("link", HeaderValue::from_str(&link).unwrap());
    }
    let text = bodies[page as usize - 1];
    let fetched = api.try_api_get_call(Ok((headers, Ok(text.to_string())))).unwrap()?;
    api.get_page("o", "r", fetched, serde_json::from_str(text))
}

fn drain(api: &GitHubApi, pages: &mut Paginator, bodies: &[&str]) -> (Vec<u64>, Vec<GitHubApiResult<Vec<u64>>>) {
    let mut asked = Vec::new();
    let mut yielded = Vec::new();
    while let Some(request) = pages.next_request() {
        asked.push(request.page);
        match pages.advance(serve(api, bodies, request.page)) {
            Some(page) => yielded.push(page),
            None => break,
        }
    }
    (asked, yielded)
}

#[test]
fn fresh_paginator_stands_before_page_one() {
    let api = GitHubApi::new("u", "p");
    let pages = api.paginate("owner", "repo", "tags");
    assert_eq!(pages.owner(), "owner");
    assert_eq!(pages.repository(), "repo");
    assert_eq!(pages.next_page(), Some(1));
    let request = pages.next_request().unwrap();
    assert_eq!(request.method, "repos/owner/repo/tags");
    assert_eq!(request.page, 1);
    assert_eq!(request.per_page, 100);
    assert_eq!(Paginator::new("tags", "owner", "repo").next_page(), Some(1));
}

#[test]
fn three_pages_yield_three_envelopes() {
    let api = GitHubApi::new("u", "p");
    let mut pages = api.paginate("o", "r", "tags");
    let (asked, yielded) = drain(&api, &mut pages, &["[1, 2]", "[3, 4]", "[5]"]);
    assert_eq!(asked, vec![1, 2, 3]);
    assert_eq!(yielded.len(), 3);
    assert_eq!(yielded[0].result, vec![1, 2]);
    assert_eq!(yielded[0].next_page, Some(2));
    assert_eq!(yielded[1].result, vec![3, 4]);
    assert_eq!(yielded[1].next_page, Some(3));
    assert_eq!(yielded[2].result, vec![5]);
    assert_eq!(yielded[2].next_page, None);
    assert_eq!(pages.next_page(), None);
    assert!(pages.next_request().is_none());
    assert!(pages.next_request().is_none());
}

#[test]
fn pages_are_asked_for_in_order() {
    let api = GitHubApi::new("u", "p");
    let bodies = ["[]"; 12];
    let mut pages = api.paginate("o", "r", "tags");
    let (asked, yielded) = drain(&api, &mut pages, &bodies);
    assert_eq!(asked, (1..=12).collect::<Vec<u64>>());
    assert_eq!(yielded.len(), 12);
}

#[test]
fn single_page_collection() {
    let api = GitHubApi::new("u", "p");
    let mut pages = api.paginate("o", "r", "tags");
    let (asked, yielded) = drain(&api, &mut pages, &["[7]"]);
    assert_eq!(asked, vec![1]);
    assert_eq!(yielded.len(), 1);
    assert_eq!(pages.next_page(), None);
}

#[test]
fn malformed_first_page_yields_nothing() {
    let api = GitHubApi::new("u", "p");
    let mut pages = api.paginate("o", "r", "tags");
    let (asked, yielded) = drain(&api, &mut pages, &["{ not json", "[1]"]);
    assert_eq!(asked, vec![1]);
    assert!(yielded.is_empty());
    assert_eq!(pages.next_page(), Some(1));
}

#[test]
fn failure_in_the_middle_stops_the_sequence() {
    let api = GitHubApi::new("u", "p");
    let mut pages = api.paginate("o", "r", "tags");
    let (asked, yielded) = drain(&api, &mut pages, &["[1]", "oops", "[3]"]);
    assert_eq!(asked, vec![1, 2]);
    assert_eq!(yielded.len(), 1);
    assert_eq!(pages.next_page(), Some(2));
}

#[test]
fn not_implemented_pull_yields_nothing() {
    let mut pages = Paginator::new("tags", "o", "r");
    assert!(pages.advance::<u64>(Err(GitHubApiError::NotImplemented)).is_none());
    assert_eq!(pages.next_page(), Some(1));
}

#[test]
fn cursor_follows_the_page() {
    let mut pages = Paginator::new("tags", "o", "r");
    let page = GitHubApiResult {
        result: vec![1u64],
        raw_result: "[1]".to_string(),
        limits: None,
        owner: None,
        repository: None,
        next_page: Some(40),
    };
    let yielded = pages.advance(Ok(page)).unwrap();
    assert_eq!(yielded.result, vec![1]);
    assert_eq!(pages.next_page(), Some(40));
    assert_eq!(pages.next_request().unwrap().page, 40);
}

#[test]
fn spent_paginator_takes_no_page() {
    let api = GitHubApi::new("u", "p");
    let mut pages = api.paginate("o", "r", "tags");
    let (_, yielded) = drain(&api, &mut pages, &["[1]"]);
    assert_eq!(yielded.len(), 1);
    assert_eq!(pages.next_page(), None);
    let late = GitHubApiResult {
        result: vec![2u64],
        raw_result: "[2]".to_string(),
        limits: None,
        owner: None,
        repository: None,
        next_page: Some(2),
    };
    assert!(pages.advance(Ok(late)).is_none());
    assert_eq!(pages.next_page(), None);
    assert!(pages.next_request().is_none());
    assert!(pages.advance::<u64>(Err(GitHubApiError::NotImplemented)).is_none());
    assert_eq!(pages.next_page(), None);
}

#[test]
fn probe_of_an_empty_collection() {
    let pages = Paginator::new("releases", "o", "r");
    let text = "[]";
    let probed: Result<Vec<u64>, GitHubApiError> =
        githubapi::parse_json(serde_json::from_str(text), text);
    assert!(matches!(pages.has_items(probed), Ok(false)));
}

#[test]
fn probe_of_a_collection_with_items() {
    let pages = Paginator::new("releases", "o", "r");
    let text = "[{\"id\": 1}]";
    let probed: Result<Vec<serde_json::Value>, GitHubApiError> =
        githubapi::parse_json(serde_json::from_str(text), text);
    assert!(matches!(pages.has_items(probed), Ok(true)));
}

#[test]
fn probe_failure_is_handed_on() {
    let pages = Paginator::new("releases", "o", "r");
    let text = "nope";
    let probed: Result<Vec<u64>, GitHubApiError> =
        githubapi::parse_json(serde_json::from_str(text), text);
    match pages.has_items(probed) {
        Err(GitHubApiError::JsonError((_, raw))) => assert_eq!(raw, text),
        other => panic!("unexpected: {:?}", other),
    }
    assert!(matches!(
        pages.has_items::<u64>(Err(GitHubApiError::NotImplemented)),
        Err(GitHubApiError::NotImplemented)
    ));
}

#[test]
fn probe_request_ignores_the_cursor() {
    let api = GitHubApi::new("u", "p");
    let mut pages = api.paginate("o", "r", "tags");
    let (_, _) = drain(&api, &mut pages, &["[1]", "[2]"]);
    let request = pages.probe_request();
    assert_eq!(request.method, "repos/o/r/tags");
    assert_eq!(request.page, 1);
    assert_eq!(request.per_page, 1);
    assert_eq!(pages.next_page(), None);
}

#[test]
fn probing_leaves_the_cursor_alone() {
    let api = GitHubApi::new("u", "p");
    let bodies = ["[1]", "[2]", "[3]"];
    let mut pages = api.paginate("o", "r", "tags");
    assert!(matches!(pages.has_items(Ok(vec![1u64])), Ok(true)));
    assert_eq!(pages.next_page(), Some(1));
    let first = pages.advance(serve(&api, &bodies, 1)).unwrap();
    assert_eq!(first.next_page, Some(2));
    assert!(matches!(pages.handle(Event::Probed(Ok(Vec::<u64>::new()))), Effect::Answered(Ok(false))));
    assert!(matches!(
        pages.handle(Event::<u64>::Probed(Err(GitHubApiError::NotImplemented))),
        Effect::Answered(Err(GitHubApiError::NotImplemented))
    ));
    assert_eq!(pages.next_page(), Some(2));
    let (asked, yielded) = drain(&api, &mut pages, &bodies);
    assert_eq!(asked, vec![2, 3]);
    assert_eq!(yielded.len(), 2);
}

#[test]
fn events_are_dispatched() {
    let api = GitHubApi::new("u", "p");
    let bodies = ["[1]", "[2]"];
    let mut pages = api.paginate("o", "r", "tags");
    match pages.handle(Event::Pulled(serve(&api, &bodies, 1))) {
        Effect::Yielded(Some(page)) => assert_eq!(page.result, vec![1]),
        other => panic!("unexpected: {:?}", other),
    }
    assert_eq!(pages.next_page(), Some(2));
    assert!(matches!(
        pages.handle(Event::<u64>::Pulled(Err(GitHubApiError::NotImplemented))),
        Effect::Yielded(None)
    ));
    assert_eq!(pages.next_page(), Some(2));
    assert!(matches!(pages.handle(Event::Probed(Ok(vec![9u64]))), Effect::Answered(Ok(true))));
}
