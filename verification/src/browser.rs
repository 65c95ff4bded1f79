//! The entry points of the search client.
//!
//! A `Browser` plans the requests of a search and reads the replies. It never
//! sends anything itself: the caller passes each planned request to its HTTP
//! transport and hands the reply back.

use vstd::prelude::*;
use vstd::string::*;
use crate::error::SearchError;
use crate::feed::{Feed, FeedSearch, FeedState, Phase};
use crate::http::{
    is_success, pair, pair_views, planned, site_origin, slice_views, HttpRequest, HttpResponse,
    Method,
};
use crate::lite::{collect_hits, hit_views, lite_hits, scan_rows, selectors_parse, table_rows};
use crate::render::{answer_lines, line_views};
use crate::response::{ImageResult, LiteSearchResult, NewsResult, Response, ResultFormat};
use crate::text::chars_of;
use crate::token::{extract_token, token_of};

verus! {

/// The search client's configuration.
#[derive(Clone, Debug)]
pub struct Browser {
    /// The user agent that instant-answer requests carry.
    pub user_agent: String,
    /// The most page requests that one feed search makes.
    pub page_cap: usize,
}

/// The origin of the instant-answer API.
pub open spec fn api_origin() -> Seq<char> {
    "https://api.duckduckgo.com/"@
}

/// The URL of the text-only results page.
pub open spec fn lite_endpoint() -> Seq<char> {
    "https://lite.duckduckgo.com/lite/"@
}

/// The URL of an instant-answer request for `path`: the path on the API's
/// origin, asking for JSON. The format parameter opens the query string
/// where the path has none yet.
pub open spec fn browse_url(path: Seq<char>) -> Seq<char> {
    api_origin() + path + (if path.contains('?') {
        "&"@
    } else {
        "?"@
    }) + "format=json"@
}

/// The parameter that switches upstream's filter on or off.
pub open spec fn safe_param(safe_search: bool) -> Seq<char> {
    if safe_search {
        "&kp=1"@
    } else {
        "&kp=-2"@
    }
}

/// The path of a plain search.
pub open spec fn search_path(query: Seq<char>, safe_search: bool) -> Seq<char> {
    "?q="@ + query + safe_param(safe_search)
}

/// The path of a search in a region.
pub open spec fn advanced_path(
    query: Seq<char>,
    region: Seq<char>,
    safe_search: bool,
) -> Seq<char> {
    "?q="@ + query + "&kl="@ + region + safe_param(safe_search)
}

/// The path of a search with operators: they follow the query as they are.
pub open spec fn operators_path(
    query: Seq<char>,
    operators: Seq<char>,
    safe_search: bool,
) -> Seq<char> {
    "?q="@ + query + "&"@ + operators + safe_param(safe_search)
}

/// Whether a text holds a question mark.
fn has_question_mark(text: &str) -> (found: bool)
    ensures
        found == text@.contains('?'),
{
    let chars = chars_of(text);
    let mut i: usize = 0;
    while i < chars.len()
        invariant
            i <= chars.len(),
            chars@ == text@,
            forall|k: int| 0 <= k < i ==> chars@[k] != '?',
        decreases chars.len() - i,
    {
        if chars[i] == '?' {
            return true;
        }
        i += 1;
    }
    false
}

/// Returns the parameter that switches upstream's filter on or off.
fn safe_parameter(safe_search: bool) -> (param: &'static str)
    ensures
        param@ == safe_param(safe_search),
{
    if safe_search {
        "&kp=1"
    } else {
        "&kp=-2"
    }
}

impl Browser {
    /// Makes a browser with the given user agent and page cap.
    pub fn new(user_agent: &str, page_cap: usize) -> (browser: Browser)
        ensures
            browser.user_agent@ == user_agent@,
            browser.page_cap == page_cap,
    {
        Browser { user_agent: String::from_str(user_agent), page_cap }
    }

    /// Plans a request: the method, the URL and the parameters as given, in
    /// their order, with the four fixed header lines.
    pub fn request(
        &self,
        method: Method,
        url: &str,
        user_agent: &str,
        params: &[(&str, &str)],
    ) -> (request: HttpRequest)
        ensures
            request@ == planned(method, url@, user_agent@, slice_views(params@)),
    {
        let mut query: Vec<(String, String)> = Vec::new();
        let mut i: usize = 0;
        while i < params.len()
            invariant
                i <= params.len(),
                query.len() == i,
                forall|k: int| 0 <= k < i ==> (#[trigger] query[k]).0@ == params[k].0@ && query[k].1@ == params[k].1@,
            decreases params.len() - i,
        {
            query.push(pair(params[i].0, params[i].1));
            i += 1;
        }
        assert(pair_views(query@) =~= slice_views(params@));
        HttpRequest::plan(method, url, user_agent, query)
    }

    /// Plans the request for the landing page, which carries the session token.
    pub fn vqd_request(&self, query: &str, user_agent: &str) -> (request: HttpRequest)
        ensures
            request@ == planned(Method::Get, site_origin(), user_agent@, seq![("q"@, query@)]),
    {
        let mut params: Vec<(String, String)> = Vec::new();
        params.push(pair("q", query));
        assert(pair_views(params@) =~= seq![("q"@, query@)]);
        HttpRequest::plan(Method::Get, "https://duckduckgo.com/", user_agent, params)
    }

    /// Reads the session token from the reply to the landing-page request.
    /// A status outside 200..=299 fails with `SearchError::UpstreamStatus`, a
    /// page without a token with `SearchError::TokenMissing`.
    pub fn get_vqd(&self, reply: &HttpResponse) -> (token: Result<String, SearchError>)
        ensures
            match token {
                Ok(found) => is_success(reply.status) && token_of(reply.body@) == Some(found@),
                Err(error) => if is_success(reply.status) {
                    token_of(reply.body@) is None && error is TokenMissing
                } else {
                    error.is_status_failure(reply.status, reply.body@)
                },
            },
    {
        match reply.error_for_status() {
            Err(error) => Err(error),
            Ok(()) => extract_token(reply.body.as_str()),
        }
    }

    /// Plans the request for the text-only results page.
    pub fn lite_request(
        &self,
        query: &str,
        region: &str,
        user_agent: &str,
    ) -> (request: HttpRequest)
        ensures
            request@ == planned(
                Method::Post,
                lite_endpoint(),
                user_agent@,
                seq![("q"@, query@), ("kl"@, region@)],
            ),
    {
        let mut params: Vec<(String, String)> = Vec::new();
        params.push(pair("q", query));
        params.push(pair("kl", region));
        assert(pair_views(params@) =~= seq![("q"@, query@), ("kl"@, region@)]);
        HttpRequest::plan(Method::Post, "https://lite.duckduckgo.com/lite/", user_agent, params)
    }

    /// Reads the hits from the reply to a lite request: one for each table
    /// row that holds a link with a target, in the order in which `scraper`
    /// yields the rows, capped by the limit. A status outside 200..=299
    /// fails with `SearchError::UpstreamStatus`. `SearchError::Parse` comes
    /// only where the selectors of the page are no selectors to `scraper`.
    pub fn lite_search(
        &self,
        reply: &HttpResponse,
        limit: Option<usize>,
    ) -> (hits: Result<Vec<LiteSearchResult>, SearchError>)
        ensures
            match hits {
                Ok(found) => {
                    &&& is_success(reply.status)
                    &&& selectors_parse()
                    &&& hit_views(found@) == lite_hits(table_rows(reply.body@), limit)
                    &&& limit is Some ==> found.len() <= limit->0
                },
                Err(error) => if is_success(reply.status) {
                    !selectors_parse() && error.is_parse_failure(reply.body@)
                } else {
                    error.is_status_failure(reply.status, reply.body@)
                },
            },
    {
        match reply.error_for_status() {
            Err(error) => { return Err(error); },
            Ok(()) => {},
        }
        match scan_rows(reply.body.as_str()) {
            Some(rows) => Ok(collect_hits(&rows, limit)),
            None => Err(SearchError::Parse { body: reply.body.clone() }),
        }
    }

    /// Starts an image search. The search that comes back says which request
    /// is due and takes the replies.
    pub fn images(
        &self,
        query: &str,
        region: &str,
        safesearch: bool,
        limit: Option<usize>,
        user_agent: &str,
    ) -> (search: FeedSearch<ImageResult>)
        ensures
            search.wf(),
            search@ == (FeedState {
                feed: Feed::Images,
                query: query@,
                region: region@,
                safesearch,
                user_agent: user_agent@,
                limit,
                page_cap: self.page_cap,
                phase: Phase::Token,
                params: Seq::<(Seq<char>, Seq<char>)>::empty(),
                pages: 0,
                records: Seq::<ImageResult>::empty(),
            }),
    {
        FeedSearch::start(query, region, safesearch, limit, user_agent, self.page_cap)
    }

    /// Starts a news search. The search that comes back says which request
    /// is due and takes the replies.
    pub fn news(
        &self,
        query: &str,
        region: &str,
        safesearch: bool,
        limit: Option<usize>,
        user_agent: &str,
    ) -> (search: FeedSearch<NewsResult>)
        ensures
            search.wf(),
            search@ == (FeedState {
                feed: Feed::News,
                query: query@,
                region: region@,
                safesearch,
                user_agent: user_agent@,
                limit,
                page_cap: self.page_cap,
                phase: Phase::Token,
                params: Seq::<(Seq<char>, Seq<char>)>::empty(),
                pages: 0,
                records: Seq::<NewsResult>::empty(),
            }),
    {
        FeedSearch::start(query, region, safesearch, limit, user_agent, self.page_cap)
    }

    /// Plans the instant-answer request for a path: a `GET` of the path on
    /// the API's origin, asking for JSON, under the browser's user agent.
    pub fn browse_request(&self, path: &str) -> (request: HttpRequest)
        ensures
            request@ == planned(
                Method::Get,
                browse_url(path@),
                self.user_agent@,
                Seq::<(Seq<char>, Seq<char>)>::empty(),
            ),
    {
        let mut url = String::from_str("https://api.duckduckgo.com/");
        url.append(path);
        url.append(if has_question_mark(path) { "&" } else { "?" });
        url.append("format=json");
        let params: Vec<(String, String)> = Vec::new();
        assert(pair_views(params@) =~= Seq::<(Seq<char>, Seq<char>)>::empty());
        HttpRequest::plan(Method::Get, url.as_str(), self.user_agent.as_str(), params)
    }

    /// Reads the reply to an instant-answer request and renders the answer
    /// in the given layout. `parsed` is the answer that the body of the reply
    /// parses to, or `None` where it parses to none. A status outside
    /// 200..=299 fails with `SearchError::UpstreamStatus`, whatever the body
    /// holds; a body that parses to no answer fails with `SearchError::Parse`.
    pub fn browse(
        &self,
        reply: &HttpResponse,
        parsed: Option<Response>,
        result_format: ResultFormat,
        limit: Option<usize>,
    ) -> (lines: Result<Vec<String>, SearchError>)
        ensures
            match lines {
                Ok(shown) => {
                    &&& is_success(reply.status)
                    &&& parsed is Some
                    &&& line_views(shown@) == answer_lines(parsed->0, result_format, limit)
                },
                Err(error) => if !is_success(reply.status) {
                    error.is_status_failure(reply.status, reply.body@)
                } else {
                    parsed is None && error.is_parse_failure(reply.body@)
                },
            },
    {
        match reply.error_for_status() {
            Err(error) => { return Err(error); },
            Ok(()) => {},
        }
        match parsed {
            None => Err(SearchError::Parse { body: reply.body.clone() }),
            Some(answer) => Ok(
                match result_format {
                    ResultFormat::List => self.print_results_list(answer, limit),
                    ResultFormat::Detailed => self.print_results_detailed(answer, limit),
                },
            ),
        }
    }

    /// Plans a plain search. The query goes into the URL as it is given.
    pub fn search(&self, query: &str, safe_search: bool) -> (request: HttpRequest)
        ensures
            request@ == planned(
                Method::Get,
                browse_url(search_path(query@, safe_search)),
                self.user_agent@,
                Seq::<(Seq<char>, Seq<char>)>::empty(),
            ),
    {
        let mut path = String::from_str("?q=");
        path.append(query);
        path.append(safe_parameter(safe_search));
        self.browse_request(path.as_str())
    }

    /// Plans a search in a region. `params` is the region code.
    pub fn advanced_search(
        &self,
        query: &str,
        params: &str,
        safe_search: bool,
    ) -> (request: HttpRequest)
        ensures
            request@ == planned(
                Method::Get,
                browse_url(advanced_path(query@, params@, safe_search)),
                self.user_agent@,
                Seq::<(Seq<char>, Seq<char>)>::empty(),
            ),
    {
        let mut path = String::from_str("?q=");
        path.append(query);
        path.append("&kl=");
        path.append(params);
        path.append(safe_parameter(safe_search));
        self.browse_request(path.as_str())
    }

    /// Plans a search with operators, which follow the query as they are given.
    pub fn search_operators(
        &self,
        query: &str,
        operators: &str,
        safe_search: bool,
    ) -> (request: HttpRequest)
        ensures
            request@ == planned(
                Method::Get,
                browse_url(operators_path(query@, operators@, safe_search)),
                self.user_agent@,
                Seq::<(Seq<char>, Seq<char>)>::empty(),
            ),
    {
        let mut path = String::from_str("?q=");
        path.append(query);
        path.append("&");
        path.append(operators);
        path.append(safe_parameter(safe_search));
        self.browse_request(path.as_str())
    }
}

} // verus!
