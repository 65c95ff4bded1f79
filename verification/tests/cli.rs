use duckduckgo::cli::{Backend, Cli, PAGE_CAP};
use duckduckgo::error::SearchError;
use duckduckgo::response::ResultFormat;
use duckduckgo::user_agents::{get, user_agents};

fn cli(query: &str, operators: &str, user_agent: &str) -> Cli {
    Cli {
        verbose: false,
        query: query.to_string(),
        operators: operators.to_string(),
        safe: false,
        format: false,
        limit: 10,
        user_agent: user_agent.to_string(),
        cookie: true,
        proxy: String::new(),
        backend: Backend::Auto,
    }
}

#[test]
fn format_flag_selects_the_layout() {
    let mut options = cli("q", "", "firefox");
    assert_eq!(options.result_format(), ResultFormat::List);
    options.format = true;
    assert_eq!(options.result_format(), ResultFormat::Detailed);
}

#[test]
fn limit_and_region() {
    let options = cli("q", "", "firefox");
    assert_eq!(options.result_limit(), Some(10));
    assert_eq!(options.region(), "wt-wt");
}

#[test]
fn known_alias_resolves() {
    let options = cli("q", "", "firefox");
    assert_eq!(
        options.resolve_user_agent().unwrap(),
        "Mozilla/5.0 (Windows NT 10.0; Win64; x64; rv:97.0) Gecko/20100101 Firefox/97.0"
    );
}

#[test]
fn empty_alias_selects_no_agent() {
    assert_eq!(cli("q", "", "").resolve_user_agent().unwrap(), "");
}

#[test]
fn unknown_alias_is_a_configuration_error() {
    match cli("q", "", "netscape").resolve_user_agent() {
        Err(SearchError::Configuration { detail }) => assert_eq!(detail, "Invalid user agent selected!"),
        other => panic!("unexpected: {:?}", other),
    }
    assert!(cli("q", "", "Firefox").resolve_user_agent().is_err());
}

#[test]
fn empty_query_is_a_configuration_error() {
    match cli("", "", "firefox").check_query() {
        Err(SearchError::Configuration { detail }) => assert_eq!(detail, "Query is required!"),
        other => panic!("unexpected: {:?}", other),
    }
    assert!(cli("rust", "", "firefox").check_query().is_ok());
    assert!(cli(" ", "", "firefox").check_query().is_ok());
}

#[test]
fn browser_of_the_invocation() {
    let browser = cli("q", "", "firefox").browser("some agent");
    assert_eq!(browser.user_agent, "some agent");
    assert_eq!(browser.page_cap, PAGE_CAP);
    assert_eq!(PAGE_CAP, 100);
}

#[test]
fn instant_request_encodes_the_query() {
    let options = cli("rust lang", "", "firefox");
    let browser = options.browser("ua");
    let request = options.instant_request(&browser);
    assert_eq!(request.url, "https://api.duckduckgo.com/?q=rust%20lang&kp=-2&format=json");
    assert_eq!(request.headers[0], ("User-Agent".to_string(), "ua".to_string()));
}

#[test]
fn instant_request_with_operators() {
    let mut options = cli("rust lang", "site:github.com +tutorial", "firefox");
    options.safe = true;
    let browser = options.browser("ua");
    let request = options.instant_request(&browser);
    assert_eq!(
        request.url,
        "https://api.duckduckgo.com/?q=rust%20lang&site%3Agithub.com%20%2Btutorial&kp=1&format=json"
    );
}

#[test]
fn instant_request_encodes_bytes_of_utf8() {
    let options = cli("é~a-b_c.d/?", "", "firefox");
    let browser = options.browser("ua");
    let request = options.instant_request(&browser);
    assert_eq!(request.url, "https://api.duckduckgo.com/?q=%C3%A9~a-b_c.d%2F%3F&kp=-2&format=json");
}

#[test]
fn table_has_every_alias_once() {
    let table = user_agents();
    assert_eq!(table.len(), 33);
    for (i, (alias, agent)) in table.iter().enumerate() {
        assert!(!alias.is_empty() && !agent.is_empty());
        assert!(table[..i].iter().all(|(earlier, _)| earlier != alias));
        assert_eq!(get(alias), Some(*agent));
    }
}

#[test]
fn aliases_resolve_to_their_agents() {
    assert_eq!(get("duckduckgo"), Some("Mozilla/5.0 (compatible; DuckDuckBot/1.0; +http://duckduckgo.com)"));
    assert_eq!(get("whatsapp"), Some("WhatsApp/2.21.11.13 i"));
    assert_eq!(
        get("outlook"),
        Some("Mozilla/5.0 (Windows NT 10.0; Win64; x64; rv:78.0) Gecko/20100101 Firefox/78.0 Outlook/1.0;")
    );
    assert_eq!(get(""), None);
    assert_eq!(get("firefox "), None);
    assert_eq!(get("FIREFOX"), None);
}
