use confluence_fetch::error::ConfluenceError;
use confluence_fetch::fetch::classify_response;
use confluence_fetch::fetch::is_success_status;
use confluence_fetch::fetch::transport_failure;
use confluence_fetch::pages::ConfluencePage;
use confluence_fetch::pages::ConfluencePageBody;
use confluence_fetch::pages::ConfluencePageBodyView;

fn page(id: &str, title: &str, value: &str) -> ConfluencePage {
    ConfluencePage {
        id: id.to_string(),
        title: title.to_string(),
        body: ConfluencePageBody { view: ConfluencePageBodyView { value: value.to_string() } },
    }
}

#[test]
fn success_status_is_exactly_2xx() {
    assert!(!is_success_status(199));
    assert!(is_success_status(200));
    assert!(is_success_status(204));
    assert!(is_success_status(299));
    assert!(!is_success_status(300));
    assert!(!is_success_status(401));
    assert!(!is_success_status(500));
}

#[test]
fn transport_failure_carries_no_status() {
    let e = transport_failure("http://x/rest/api/content".to_string(), "connection refused".to_string());
    assert_eq!(e.url, "http://x/rest/api/content");
    assert_eq!(e.status, None);
    assert_eq!(e.body, "connection refused");
}

#[test]
fn unauthorized_status_fails_with_status_and_body() {
    let r = classify_response(
        "http://x/page".to_string(),
        401,
        "{\"message\":\"unauthorized\"}".to_string(),
        None,
    );
    match r {
        Err(e) => {
            assert_eq!(e.url, "http://x/page");
            assert_eq!(e.status, Some(401));
            assert_eq!(e.body, "{\"message\":\"unauthorized\"}");
        }
        Ok(_) => panic!("a 401 response must not yield items"),
    }
}

#[test]
fn error_status_fails_even_when_body_is_decodable() {
    let r = classify_response(
        "http://x/page".to_string(),
        500,
        "{\"results\":[]}".to_string(),
        Some(Vec::new()),
    );
    match r {
        Err(e) => {
            assert_eq!(e.status, Some(500));
            assert_eq!(e.body, "{\"results\":[]}");
        }
        Ok(_) => panic!("a 500 response must not yield items"),
    }
}

#[test]
fn malformed_body_on_success_status_fails_with_raw_body() {
    let r = classify_response("http://x/page".to_string(), 200, "not json".to_string(), None);
    match r {
        Err(e) => {
            assert_eq!(e.url, "http://x/page");
            assert_eq!(e.status, Some(200));
            assert_eq!(e.body, "not json");
        }
        Ok(_) => panic!("an undecodable body must not yield items"),
    }
}

#[test]
fn decoded_success_yields_the_items_unchanged() {
    let items = vec![page("1", "First", "<p>a</p>"), page("2", "Second", "<p>b</p>")];
    let expected = vec![page("1", "First", "<p>a</p>"), page("2", "Second", "<p>b</p>")];
    let r = classify_response(
        "http://x/page".to_string(),
        200,
        "ignored".to_string(),
        Some(items),
    );
    assert_eq!(r, Ok(expected));
}

#[test]
fn describe_names_url_status_and_body() {
    let e = ConfluenceError {
        url: "http://x/page".to_string(),
        status: Some(401),
        body: "nope".to_string(),
    };
    assert_eq!(
        e.describe(),
        "Error downloading page from Confluence: URL: http://x/page, status: 401, body: nope"
    );
}

#[test]
fn describe_says_none_when_no_response_arrived() {
    let e = ConfluenceError {
        url: "http://x/page".to_string(),
        status: None,
        body: "connection refused".to_string(),
    };
    assert_eq!(
        e.describe(),
        "Error downloading page from Confluence: URL: http://x/page, status: none, body: connection refused"
    );
}
