use confluence_fetch::driver::run_pagination;
use confluence_fetch::driver::PaginationDriver;
use confluence_fetch::error::ConfluenceError;
use confluence_fetch::pages::ConfluencePage;
use confluence_fetch::pages::ConfluencePageBody;
use confluence_fetch::pages::ConfluencePageBodyView;

fn page(id: &str, title: &str, value: &str) -> ConfluencePage {
    ConfluencePage {
        id: id.to_string(),
        title: title.to_string(),
        body: ConfluencePageBody { view: ConfluencePageBodyView { value: value.to_string() } },
    }
}

fn numbered_pages(from: usize, count: usize) -> Vec<ConfluencePage> {
    let mut v = Vec::new();
    for i in from..from + count {
        v.push(page(&i.to_string(), &format!("Page {}", i), "<p/>"));
    }
    v
}

#[test]
fn thirty_items_come_back_in_three_requests_in_order() {
    // 30 items served as a full page of 25, a short page of 5, then an empty page.
    let outcomes = vec![
        Ok(numbered_pages(0, 25)),
        Ok(numbered_pages(25, 5)),
        Ok(Vec::new()),
    ];
    let (result, requests) = run_pagination(outcomes);
    assert_eq!(requests, 3);
    let items = result.expect("a terminating run with no failure must succeed");
    assert_eq!(items.len(), 30);
    for (i, item) in items.iter().enumerate() {
        assert_eq!(item.id, i.to_string());
    }
}

#[test]
fn empty_first_page_yields_empty_collection_not_error() {
    let outcomes = vec![Ok(Vec::new())];
    let (result, requests) = run_pagination(outcomes);
    assert_eq!(requests, 1);
    assert_eq!(result, Ok(Vec::new()));
}

#[test]
fn failure_is_atomic_no_partial_items_survive() {
    let failure = ConfluenceError {
        url: "http://x/page".to_string(),
        status: Some(503),
        body: "unavailable".to_string(),
    };
    let expected = ConfluenceError {
        url: "http://x/page".to_string(),
        status: Some(503),
        body: "unavailable".to_string(),
    };
    // Two full pages were already accumulated before the third fetch failed.
    let outcomes = vec![
        Ok(numbered_pages(0, 25)),
        Ok(numbered_pages(25, 25)),
        Err(failure),
        Ok(numbered_pages(50, 25)),
    ];
    let (result, requests) = run_pagination(outcomes);
    assert_eq!(requests, 3);
    assert_eq!(result, Err(expected));
}

#[test]
fn order_is_preserved_across_pages_without_dedup() {
    let p0 = vec![page("a", "A", "1"), page("b", "B", "2")];
    let p1 = vec![page("b", "B", "2"), page("c", "C", "3")];
    let outcomes = vec![Ok(p0), Ok(p1), Ok(Vec::new())];
    let (result, _) = run_pagination(outcomes);
    let items = result.unwrap();
    let ids: Vec<&str> = items.iter().map(|p| p.id.as_str()).collect();
    // Duplicates are kept and the page-fetch order is kept.
    assert_eq!(ids, vec!["a", "b", "b", "c"]);
}

#[test]
fn offsets_advance_by_the_fixed_stride() {
    let mut driver = PaginationDriver::new();
    assert_eq!(driver.current_start(), 0);
    assert_eq!(
        driver.next_url("http://w", "K"),
        "http://w/rest/api/content?spaceKey=K&limit=25&start=0&expand=body.view"
    );
    let done = driver.apply_page(numbered_pages(0, 25));
    assert!(!done);
    assert_eq!(driver.current_start(), 25);
    assert_eq!(
        driver.next_url("http://w", "K"),
        "http://w/rest/api/content?spaceKey=K&limit=25&start=25&expand=body.view"
    );
    // A short but non-empty page still advances by the full stride.
    let done = driver.apply_page(numbered_pages(25, 5));
    assert!(!done);
    assert_eq!(driver.current_start(), 50);
    assert_eq!(
        driver.next_url("http://w", "K"),
        "http://w/rest/api/content?spaceKey=K&limit=25&start=50&expand=body.view"
    );
}

#[test]
fn empty_page_ends_the_run_and_changes_nothing() {
    let mut driver = PaginationDriver::new();
    assert!(!driver.apply_page(numbered_pages(0, 3)));
    let done = driver.apply_page(Vec::new());
    assert!(done);
    assert_eq!(driver.current_start(), 25);
    let items = driver.into_items();
    assert_eq!(items.len(), 3);
    assert_eq!(items[0].id, "0");
    assert_eq!(items[2].id, "2");
}
