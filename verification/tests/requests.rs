use githubapi::request::{repository_method, PageRequest, ACCEPT, API_BASE, FULL_PAGE};

#[test]
fn constants_of_the_api() {
    assert_eq!(API_BASE, "https://api.github.com/");
    assert_eq!(ACCEPT, "application/vnd.github.v3+json");
    assert_eq!(FULL_PAGE, 100);
}

#[test]
fn path_of_a_repository_resource() {
    assert_eq!(repository_method("rust-lang", "rust", "tags"), "repos/rust-lang/rust/tags");
    assert_eq!(repository_method("", "", ""), "repos///");
}

#[test]
fn rate_limit_request() {
    let request = PageRequest::rate_limit();
    assert_eq!(request.method, "rate_limit");
    assert_eq!(request.page, 1);
    assert_eq!(request.per_page, 100);
    assert_eq!(request.url(), "https://api.github.com/rate_limit?per_page=100&page=1");
}

#[test]
fn repository_page_request() {
    let request = PageRequest::repository_page("o", "r", "releases", 3);
    assert_eq!(request.method, "repos/o/r/releases");
    assert_eq!(request.page, 3);
    assert_eq!(request.per_page, 100);
    assert_eq!(request.url(), "https://api.github.com/repos/o/r/releases?per_page=100&page=3");
}

#[test]
fn probe_request_asks_for_one_item() {
    let request = PageRequest::probe("o", "r", "tags");
    assert_eq!(request.page, 1);
    assert_eq!(request.per_page, 1);
    assert_eq!(request.url(), "https://api.github.com/repos/o/r/tags?per_page=1&page=1");
}

#[test]
fn url_of_any_request() {
    let request = PageRequest { method: "x/y".to_string(), page: u64::MAX, per_page: 0 };
    assert_eq!(request.url(), "https://api.github.com/x/y?per_page=0&page=18446744073709551615");
}
