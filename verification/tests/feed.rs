use duckduckgo::browser::Browser;
use duckduckgo::error::SearchError;
use duckduckgo::feed::{cursor, read_next_cursor, Feed, FeedSearch};
use duckduckgo::http::{HttpRequest, HttpResponse, Method};
use duckduckgo::json::Json;
use duckduckgo::response::{ImageResult, NewsResult};

const LANDING: &str = "<html><script>nrj('/d.js?q=rust&vqd=\"31415926\"');</script></html>";

fn ok(body: &str) -> HttpResponse {
    HttpResponse { status: 200, body: body.to_string() }
}

fn pairs(list: &[(&str, &str)]) -> Vec<(String, String)> {
    list.iter().map(|(k, v)| (k.to_string(), v.to_string())).collect()
}

/// A page of three items, named by page and place, with a `next` field on demand.
fn page(number: usize, next: bool) -> String {
    let items: Vec<String> = (1..=3)
        .map(|place| {
            format!(
                "{{\"title\": \"p{}i{}\", \"image\": \"img\", \"thumbnail\": \"th\", \"url\": \"u\", \"height\": {}, \"width\": 2, \"source\": \"s\"}}",
                number, place, place
            )
        })
        .collect();
    if next {
        format!("{{\"results\": [{}], \"next\": \"i.js?q=rust&o=json&s={}00\"}}", items.join(", "), number)
    } else {
        format!("{{\"results\": [{}]}}", items.join(", "))
    }
}

/// Serves the landing page, then the pages in order, and counts the page requests.
fn serve(search: &mut FeedSearch<ImageResult>, pages: &[String]) -> usize {
    let landing = search.pending().expect("the landing page is due");
    assert_eq!(landing.url, "https://duckduckgo.com/");
    search.receive(&ok(LANDING)).unwrap();
    let mut served = 0;
    while let Some(request) = search.pending() {
        assert_eq!(request.url, "https://duckduckgo.com/i.js");
        assert!(served < pages.len(), "a page was asked for that the endpoint does not have");
        search.receive(&ok(&pages[served])).unwrap();
        served += 1;
    }
    served
}

fn all_titles() -> Vec<String> {
    (1..=3).flat_map(|number| (1..=3).map(move |place| format!("p{}i{}", number, place))).collect()
}

fn titles(search: &FeedSearch<ImageResult>) -> Vec<String> {
    search.results().iter().map(|hit| hit.title.clone()).collect()
}

#[test]
fn pagination_runs_to_the_page_without_next() {
    let browser = Browser::new("agent", 50);
    let mut search = browser.images("rust", "wt-wt", true, None, "agent");
    let served = serve(&mut search, &[page(1, true), page(2, true), page(3, false)]);
    assert_eq!(served, 3);
    assert!(search.is_done());
    assert_eq!(search.pages_fetched(), 3);
    assert_eq!(
        titles(&search),
        vec!["p1i1", "p1i2", "p1i3", "p2i1", "p2i2", "p2i3", "p3i1", "p3i2", "p3i3"]
    );
}

#[test]
fn pagination_stops_early_at_the_limit() {
    let browser = Browser::new("agent", 50);
    let mut search = browser.images("rust", "wt-wt", true, Some(4), "agent");
    let served = serve(&mut search, &[page(1, true), page(2, true), page(3, false)]);
    assert_eq!(served, 2);
    assert_eq!(search.pages_fetched(), 2);
    assert_eq!(titles(&search), vec!["p1i1", "p1i2", "p1i3", "p2i1"]);
    assert!(search.pending().is_none());
}

#[test]
fn limit_filled_at_a_page_end_asks_for_no_more() {
    let browser = Browser::new("agent", 50);
    let mut search = browser.images("rust", "wt-wt", true, Some(3), "agent");
    let served = serve(&mut search, &[page(1, true), page(2, true)]);
    assert_eq!(served, 1);
    assert_eq!(titles(&search), vec!["p1i1", "p1i2", "p1i3"]);
}

#[test]
fn limit_of_zero_asks_for_no_page() {
    let browser = Browser::new("agent", 50);
    let mut search = browser.images("rust", "wt-wt", true, Some(0), "agent");
    let served = serve(&mut search, &[page(1, true), page(2, false)]);
    assert_eq!(served, 0);
    assert!(search.is_done());
    assert!(search.results().is_empty());
    assert_eq!(search.pages_fetched(), 0);
}

#[test]
fn limit_caps_the_records() {
    for limit in 0..=10usize {
        let browser = Browser::new("agent", 50);
        let mut search = browser.images("rust", "wt-wt", true, Some(limit), "agent");
        let served = serve(&mut search, &[page(1, true), page(2, true), page(3, false)]);
        let expected = limit.min(9);
        assert_eq!(search.results().len(), expected);
        assert_eq!(served, if limit == 0 { 0 } else { ((expected + 2) / 3).max(1) });
        assert_eq!(titles(&search), all_titles()[..expected].to_vec());
    }
}

#[test]
fn absorb_takes_a_parsed_page() {
    let browser = Browser::new("agent", 50);
    let mut search = browser.images("rust", "wt-wt", true, Some(5), "ua");
    search.receive(&ok(LANDING)).unwrap();
    search.absorb(&Json::parse(&page(1, true)).unwrap());
    assert_eq!(titles(&search), vec!["p1i1", "p1i2", "p1i3"]);
    assert_eq!(search.pages_fetched(), 1);
    assert_eq!(search.pending().unwrap().query.last().unwrap(), &("s".to_string(), "100".to_string()));
    search.absorb(&Json::parse(&page(2, true)).unwrap());
    assert_eq!(titles(&search), vec!["p1i1", "p1i2", "p1i3", "p2i1", "p2i2"]);
    assert_eq!(search.pages_fetched(), 2);
    assert!(search.is_done());
}

#[test]
fn absorb_reads_a_page_built_by_hand() {
    let browser = Browser::new("agent", 50);
    let mut search = browser.images("rust", "wt-wt", true, None, "ua");
    search.receive(&ok(LANDING)).unwrap();
    let item = Json::Object(vec![("title".to_string(), Json::Text("only".to_string()))]);
    let page = Json::Object(vec![("results".to_string(), Json::Array(vec![item]))]);
    search.absorb(&page);
    assert!(search.is_done());
    assert_eq!(titles(&search), vec!["only"]);
}

#[test]
fn news_date_that_is_no_number_reads_the_clock() {
    let browser = Browser::new("agent", 50);
    let mut search = browser.news("rust", "wt-wt", true, None, "ua");
    search.receive(&ok("vqd='1'")).unwrap();
    let before = chrono::Utc::now();
    search.receive(&ok(r#"{"results":[{"date":"not-a-number","title":"t"}]}"#)).unwrap();
    let after = chrono::Utc::now();
    let hits = search.into_results();
    assert_eq!(hits.len(), 1);
    assert_eq!(hits[0].title, "t");
    let read = chrono::DateTime::parse_from_rfc3339(&hits[0].date).expect("an RFC 3339 time");
    assert!(before <= read && read <= after);
    assert!(hits[0].date.ends_with("+00:00"));
}

#[test]
fn news_date_out_of_range_reads_the_clock() {
    let browser = Browser::new("agent", 50);
    let mut search = browser.news("rust", "wt-wt", true, None, "ua");
    search.receive(&ok("vqd='1'")).unwrap();
    let before = chrono::Utc::now();
    search.receive(&ok(r#"{"results":[{"date":9223372036854775807,"title":"t"}]}"#)).unwrap();
    let after = chrono::Utc::now();
    let hits = search.into_results();
    assert_eq!(hits.len(), 1);
    assert_eq!(hits[0].title, "t");
    let read = chrono::DateTime::parse_from_rfc3339(&hits[0].date).expect("an RFC 3339 time");
    assert!(before <= read && read <= after);
}

#[test]
fn page_cap_bounds_the_requests() {
    let browser = Browser::new("agent", 2);
    let mut search = browser.images("rust", "wt-wt", true, None, "agent");
    let served = serve(&mut search, &[page(1, true), page(2, true), page(3, true)]);
    assert_eq!(served, 2);
    assert_eq!(search.results().len(), 6);
    assert!(search.is_done());
}

#[test]
fn page_cap_of_zero_asks_for_no_page() {
    let browser = Browser::new("agent", 0);
    let mut search = browser.images("rust", "wt-wt", true, None, "agent");
    let served = serve(&mut search, &[]);
    assert_eq!(served, 0);
    assert!(search.results().is_empty());
}

#[test]
fn landing_request_carries_the_query() {
    let browser = Browser::new("agent", 50);
    let search = browser.images("rust lang", "us-en", false, Some(5), "my agent");
    let request = search.pending().unwrap();
    assert_eq!(request.method, Method::Get);
    assert_eq!(request.url, "https://duckduckgo.com/");
    assert_eq!(request.query, pairs(&[("q", "rust lang")]));
    assert_eq!(
        request.headers,
        pairs(&[
            ("User-Agent", "my agent"),
            ("Accept", "application/json"),
            ("Referer", "https://duckduckgo.com/"),
            ("Accept-Language", "en-US,en;q=0.9"),
        ])
    );
    assert!(!search.is_done());
    assert_eq!(search.pages_fetched(), 0);
}

#[test]
fn image_page_parameters() {
    let browser = Browser::new("agent", 50);
    let mut search = browser.images("rust lang", "us-en", false, None, "ua");
    search.receive(&ok(LANDING)).unwrap();
    let request: HttpRequest = search.pending().unwrap();
    assert_eq!(request.url, "https://duckduckgo.com/i.js");
    assert_eq!(
        request.query,
        pairs(&[("q", "rust lang"), ("l", "us-en"), ("vqd", "31415926"), ("o", "json"), ("p", "-1")])
    );
    assert_eq!(request.headers[0], ("User-Agent".to_string(), "ua".to_string()));
}

#[test]
fn news_page_parameters() {
    let browser = Browser::new("agent", 50);
    let mut search = browser.news("rust", "wt-wt", true, None, "ua");
    search.receive(&ok(LANDING)).unwrap();
    let request = search.pending().unwrap();
    assert_eq!(request.method, Method::Get);
    assert_eq!(request.url, "https://duckduckgo.com/news.js");
    assert_eq!(
        request.query,
        pairs(&[("q", "rust"), ("l", "wt-wt"), ("vqd", "31415926"), ("o", "json"), ("p", "1"), ("noamp", "1")])
    );
}

#[test]
fn cursor_parameters_accumulate() {
    let browser = Browser::new("agent", 50);
    let mut search = browser.images("rust", "wt-wt", true, None, "ua");
    search.receive(&ok(LANDING)).unwrap();
    search.receive(&ok(&page(1, true))).unwrap();
    let second = search.pending().unwrap();
    assert_eq!(
        second.query,
        pairs(&[("q", "rust"), ("l", "wt-wt"), ("vqd", "31415926"), ("o", "json"), ("p", "1"), ("s", "100")])
    );
    search.receive(&ok(&page(2, true))).unwrap();
    let third = search.pending().unwrap();
    assert_eq!(
        third.query,
        pairs(&[
            ("q", "rust"),
            ("l", "wt-wt"),
            ("vqd", "31415926"),
            ("o", "json"),
            ("p", "1"),
            ("s", "100"),
            ("s", "200"),
        ])
    );
}

#[test]
fn news_records_are_read_from_pages() {
    let browser = Browser::new("agent", 50);
    let mut search = browser.news("rust", "wt-wt", true, None, "ua");
    search.receive(&ok(LANDING)).unwrap();
    search
        .receive(&ok(
            r#"{"results": [{"date": 1431648000, "title": "Rust 1.0", "excerpt": "out", "url": "u", "source": "s"}]}"#,
        ))
        .unwrap();
    assert!(search.is_done());
    let hits: Vec<NewsResult> = search.into_results();
    assert_eq!(hits.len(), 1);
    assert_eq!(hits[0].date, "2015-05-15T00:00:00+00:00");
    assert_eq!(hits[0].body, "out");
    assert_eq!(hits[0].image, None);
}

#[test]
fn landing_page_without_token_fails() {
    let browser = Browser::new("agent", 50);
    let mut search = browser.images("rust", "wt-wt", true, None, "ua");
    let outcome = search.receive(&ok("<html>blocked</html>"));
    assert!(matches!(outcome, Err(SearchError::TokenMissing)));
    assert!(search.is_done());
    assert!(search.pending().is_none());
}

#[test]
fn landing_page_with_bad_status_fails() {
    let browser = Browser::new("agent", 50);
    let mut search = browser.images("rust", "wt-wt", true, None, "ua");
    let outcome = search.receive(&HttpResponse { status: 503, body: "vqd=1".to_string() });
    match outcome {
        Err(SearchError::UpstreamStatus { status, body }) => {
            assert_eq!(status, 503);
            assert_eq!(body, "vqd=1");
        },
        other => panic!("unexpected: {:?}", other),
    }
    assert!(search.is_done());
}

#[test]
fn failing_page_discards_what_was_collected() {
    let browser = Browser::new("agent", 50);
    let mut search = browser.images("rust", "wt-wt", true, None, "ua");
    search.receive(&ok(LANDING)).unwrap();
    search.receive(&ok(&page(1, true))).unwrap();
    assert_eq!(search.results().len(), 3);
    let outcome = search.receive(&HttpResponse { status: 429, body: "slow down".to_string() });
    match outcome {
        Err(SearchError::UpstreamStatus { status, body }) => {
            assert_eq!(status, 429);
            assert_eq!(body, "slow down");
        },
        other => panic!("unexpected: {:?}", other),
    }
    assert!(search.is_done());
    assert!(search.results().is_empty());
    assert!(search.pending().is_none());
}

#[test]
fn page_that_is_no_json_fails() {
    let browser = Browser::new("agent", 50);
    let mut search = browser.images("rust", "wt-wt", true, None, "ua");
    search.receive(&ok(LANDING)).unwrap();
    search.receive(&ok(&page(1, true))).unwrap();
    let outcome = search.receive(&ok("<html>not json</html>"));
    match outcome {
        Err(SearchError::Parse { body }) => assert_eq!(body, "<html>not json</html>"),
        other => panic!("unexpected: {:?}", other),
    }
    assert!(search.results().is_empty());
    assert!(search.is_done());
}

#[test]
fn finished_search_takes_no_reply() {
    let browser = Browser::new("agent", 50);
    let mut search = browser.images("rust", "wt-wt", true, None, "ua");
    search.receive(&ok(LANDING)).unwrap();
    search.receive(&ok(&page(1, false))).unwrap();
    assert!(search.is_done());
    search.receive(&ok(&page(2, false))).unwrap();
    assert_eq!(search.results().len(), 3);
    assert_eq!(search.pages_fetched(), 1);
}

#[test]
fn page_without_results_array_adds_nothing() {
    let browser = Browser::new("agent", 50);
    let mut search = browser.images("rust", "wt-wt", true, Some(2), "ua");
    search.receive(&ok(LANDING)).unwrap();
    search.receive(&ok(r#"{"results": "none", "next": "x?s=5"}"#)).unwrap();
    assert!(search.results().is_empty());
    assert!(!search.is_done());
    search.receive(&ok(r#"{"next": "x?s=6"}"#)).unwrap();
    assert!(!search.is_done());
    search.receive(&ok(r#"[1, 2, 3]"#)).unwrap();
    assert!(search.is_done());
    assert_eq!(search.pages_fetched(), 3);
}

#[test]
fn next_that_is_no_string_ends_the_search() {
    let browser = Browser::new("agent", 50);
    let mut search = browser.images("rust", "wt-wt", true, None, "ua");
    search.receive(&ok(LANDING)).unwrap();
    search.receive(&ok(r#"{"results": [{}], "next": 5}"#)).unwrap();
    assert!(search.is_done());
    assert_eq!(search.results().len(), 1);
}

#[test]
fn cursor_follows_the_last_marker() {
    assert_eq!(cursor("i.js?q=rust&s=100"), "100");
    assert_eq!(cursor("i.js?q=rust&s=100&u=bing"), "100&u=bing");
    assert_eq!(cursor("a?s=1&s=2"), "2");
    assert_eq!(cursor("news=1&s="), "");
    assert_eq!(cursor("s="), "");
    assert_eq!(cursor("s=s=x"), "x");
}

#[test]
fn cursor_of_a_field_without_marker_is_empty() {
    assert_eq!(cursor("i.js?q=rust"), "");
    assert_eq!(cursor(""), "");
    assert_eq!(cursor("s"), "");
    assert_eq!(cursor("=s"), "");
}

#[test]
fn next_cursor_reads_the_next_field() {
    let page = Json::parse(r#"{"next": "i.js?s=42", "results": []}"#).unwrap();
    assert_eq!(read_next_cursor(&page), Some("42".to_string()));
    let page = Json::parse(r#"{"results": []}"#).unwrap();
    assert_eq!(read_next_cursor(&page), None);
    let page = Json::parse(r#"{"next": null}"#).unwrap();
    assert_eq!(read_next_cursor(&page), None);
    let page = Json::parse(r#"{"next": "no marker"}"#).unwrap();
    assert_eq!(read_next_cursor(&page), Some(String::new()));
}

#[test]
fn feed_endpoints() {
    assert_eq!(Feed::Images.endpoint_url(), "https://duckduckgo.com/i.js");
    assert_eq!(Feed::News.endpoint_url(), "https://duckduckgo.com/news.js");
    assert_eq!(
        Feed::News.page_params("q", "r", "t", false),
        pairs(&[("q", "q"), ("l", "r"), ("vqd", "t"), ("o", "json"), ("p", "-1"), ("noamp", "1")])
    );
}
