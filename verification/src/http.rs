//! Requests and replies as plain values.
//!
//! The library plans requests and reads replies; sending is the caller's part.

use vstd::prelude::*;
use vstd::string::*;
use crate::error::SearchError;

verus! {

/// The request methods that the endpoints take.
#[derive(Clone, Copy, Debug, PartialEq, Eq)]
pub enum Method {
    Get,
    Post,
}

/// One outbound request.
#[derive(Clone, Debug, PartialEq, Eq)]
pub struct HttpRequest {
    pub method: Method,
    pub url: String,
    /// Query parameters, in the order in which they are sent. A key may occur twice.
    pub query: Vec<(String, String)>,
    /// Header lines, in the order in which they are sent.
    pub headers: Vec<(String, String)>,
}

/// What came back for a request.
#[derive(Clone, Debug, PartialEq, Eq)]
pub struct HttpResponse {
    pub status: u16,
    pub body: String,
}

/// A list of key-value pairs as character sequences.
pub type Pairs = Seq<(Seq<char>, Seq<char>)>;

/// The characters of a list of owned pairs.
pub open spec fn pair_views(pairs: Seq<(String, String)>) -> Pairs {
    Seq::new(pairs.len(), |i: int| (pairs[i].0@, pairs[i].1@))
}

/// The characters of a list of borrowed pairs.
pub open spec fn slice_views(pairs: Seq<(&str, &str)>) -> Pairs {
    Seq::new(pairs.len(), |i: int| (pairs[i].0@, pairs[i].1@))
}

/// A request with its texts as character sequences.
pub struct RequestView {
    pub method: Method,
    pub url: Seq<char>,
    pub query: Pairs,
    pub headers: Pairs,
}

impl View for HttpRequest {
    type V = RequestView;

    open spec fn view(&self) -> RequestView {
        RequestView {
            method: self.method,
            url: self.url@,
            query: pair_views(self.query@),
            headers: pair_views(self.headers@),
        }
    }
}

/// The origin that every request names as its referer.
pub open spec fn site_origin() -> Seq<char> {
    "https://duckduckgo.com/"@
}

/// The four header lines that every request carries.
pub open spec fn fixed_headers(user_agent: Seq<char>) -> Pairs {
    seq![
        ("User-Agent"@, user_agent),
        ("Accept"@, "application/json"@),
        ("Referer"@, site_origin()),
        ("Accept-Language"@, "en-US,en;q=0.9"@),
    ]
}

/// The request for `url` with the given parameters and the fixed headers.
pub open spec fn planned(
    method: Method,
    url: Seq<char>,
    user_agent: Seq<char>,
    query: Pairs,
) -> RequestView {
    RequestView { method, url, query, headers: fixed_headers(user_agent) }
}

/// Whether a status reports success.
pub open spec fn is_success(status: u16) -> bool {
    200 <= status <= 299
}

/// Makes an owned pair of two texts.
pub fn pair(key: &str, value: &str) -> (made: (String, String))
    ensures
        made.0@ == key@,
        made.1@ == value@,
{
    (String::from_str(key), String::from_str(value))
}

/// Copies a list of pairs.
pub fn copy_pairs(pairs: &Vec<(String, String)>) -> (copy: Vec<(String, String)>)
    ensures
        pair_views(copy@) == pair_views(pairs@),
{
    let mut copy: Vec<(String, String)> = Vec::new();
    let mut i: usize = 0;
    while i < pairs.len()
        invariant
            i <= pairs.len(),
            copy.len() == i,
            forall|k: int| 0 <= k < i ==> (#[trigger] copy[k]).0@ == pairs[k].0@ && copy[k].1@ == pairs[k].1@,
        decreases pairs.len() - i,
    {
        copy.push((pairs[i].0.clone(), pairs[i].1.clone()));
        i += 1;
    }
    assert(pair_views(copy@) =~= pair_views(pairs@));
    copy
}

impl HttpRequest {
    /// Plans a request: the method, the URL and the parameters as given, in
    /// their order, and the four fixed header lines.
    pub fn plan(
        method: Method,
        url: &str,
        user_agent: &str,
        query: Vec<(String, String)>,
    ) -> (request: HttpRequest)
        ensures
            request@ == planned(method, url@, user_agent@, pair_views(query@)),
    {
        let mut headers: Vec<(String, String)> = Vec::new();
        headers.push(pair("User-Agent", user_agent));
        headers.push(pair("Accept", "application/json"));
        headers.push(pair("Referer", "https://duckduckgo.com/"));
        headers.push(pair("Accept-Language", "en-US,en;q=0.9"));
        assert(pair_views(headers@) =~= fixed_headers(user_agent@));
        HttpRequest { method, url: String::from_str(url), query, headers }
    }
}

impl HttpResponse {
    /// Accepts a reply with a status in 200..=299. Any other status fails
    /// with `SearchError::UpstreamStatus`, which carries the status and the body.
    pub fn error_for_status(&self) -> (checked: Result<(), SearchError>)
        ensures
            checked is Ok <==> is_success(self.status),
            checked matches Err(error) ==> error.is_status_failure(self.status, self.body@),
    {
        if 200 <= self.status && self.status <= 299 {
            Ok(())
        } else {
            Err(SearchError::UpstreamStatus { status: self.status, body: self.body.clone() })
        }
    }
}

} // verus!
