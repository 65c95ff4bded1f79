//! The paginated JSON feeds: images and news.
//!
//! A feed search is a sequence of exchanges. The first fetches the landing
//! page for its session token. Each later one fetches a page of the feed: its
//! records are appended to those already held, and the page's `next` field
//! gives the cursor of the page after it. The search ends when the limit is
//! filled, when a page names no next page, or when the page cap is reached.
//! The search itself sends nothing: it says which request is due and takes
//! the reply.

use vstd::prelude::*;
use vstd::string::*;
use crate::error::SearchError;
use crate::http::{
    copy_pairs, is_success, pair, pair_views, planned, site_origin, HttpRequest, HttpResponse,
    Method, Pairs,
};
use crate::json::{json_document, Json};
use crate::limit::{fills, fits, has_room, measure, room, take_count};
use crate::clock::is_utc_stamp;
use crate::response::{image_of, news_date_missing, news_of, ImageResult, NewsResult};
use crate::text::{chars_of, matches_at, occurs_at};
use crate::token::{extract_token, token_of};

verus! {

/// The two feeds.
#[derive(Clone, Copy, Debug, PartialEq, Eq)]
pub enum Feed {
    Images,
    News,
}

/// Where a feed search stands.
#[derive(Clone, Copy, Debug, PartialEq, Eq)]
pub enum Phase {
    /// The landing page is due.
    Token,
    /// A page of the feed is due.
    Page,
    /// Nothing more is due.
    Done,
}

/// The text that precedes the cursor in a `next` field.
pub open spec fn cursor_marker() -> Seq<char> {
    seq!['s', '=']
}

/// Whether the last cursor marker of `next` stands at `at`.
pub open spec fn is_last_marker(next: Seq<char>, at: int) -> bool {
    &&& occurs_at(next, cursor_marker(), at)
    &&& forall|later: int| at < later ==> !occurs_at(next, cursor_marker(), later)
}

/// The cursor that a `next` field names: what follows its last `s=`, or the
/// empty text where it holds no `s=`.
pub open spec fn cursor_of(next: Seq<char>) -> Seq<char> {
    if exists|at: int| is_last_marker(next, at) {
        next.subrange((choose|at: int| is_last_marker(next, at)) + 2, next.len() as int)
    } else {
        Seq::<char>::empty()
    }
}

/// The items of a page: the elements of its `results` array, or none where
/// the page has no such array.
pub open spec fn page_items(page: Json) -> Seq<Json> {
    match page.member("results"@) {
        Some(Json::Array(items)) => items@,
        _ => Seq::<Json>::empty(),
    }
}

/// The cursor of the page after `page`, if `page` names a next page.
pub open spec fn next_cursor(page: Json) -> Option<Seq<char>> {
    match page.member("next"@) {
        Some(Json::Text(next)) => Some(cursor_of(next@)),
        _ => None,
    }
}

impl Feed {
    /// The URL of the feed.
    pub open spec fn endpoint(self) -> Seq<char> {
        match self {
            Feed::Images => "https://duckduckgo.com/i.js"@,
            Feed::News => "https://duckduckgo.com/news.js"@,
        }
    }

    /// The parameters of the first page request.
    pub open spec fn first_params(
        self,
        query: Seq<char>,
        region: Seq<char>,
        token: Seq<char>,
        safesearch: bool,
    ) -> Pairs {
        let common = seq![
            ("q"@, query),
            ("l"@, region),
            ("vqd"@, token),
            ("o"@, "json"@),
            ("p"@, if safesearch { "1"@ } else { "-1"@ }),
        ];
        match self {
            Feed::Images => common,
            Feed::News => common.push(("noamp"@, "1"@)),
        }
    }

    /// Returns the URL of the feed.
    pub fn endpoint_url(&self) -> (url: &'static str)
        ensures
            url@ == self.endpoint(),
    {
        match self {
            Feed::Images => "https://duckduckgo.com/i.js",
            Feed::News => "https://duckduckgo.com/news.js",
        }
    }

    /// Builds the parameters of the first page request.
    pub fn page_params(
        &self,
        query: &str,
        region: &str,
        token: &str,
        safesearch: bool,
    ) -> (params: Vec<(String, String)>)
        ensures
            pair_views(params@) == self.first_params(query@, region@, token@, safesearch),
    {
        let mut params: Vec<(String, String)> = Vec::new();
        params.push(pair("q", query));
        params.push(pair("l", region));
        params.push(pair("vqd", token));
        params.push(pair("o", "json"));
        params.push(pair("p", if safesearch { "1" } else { "-1" }));
        match self {
            Feed::Images => {},
            Feed::News => {
                params.push(pair("noamp", "1"));
            },
        }
        assert(pair_views(params@) =~= self.first_params(query@, region@, token@, safesearch));
        params
    }
}

/// A record type that a feed delivers.
pub trait FeedRecord: Sized {
    /// The feed that delivers such records.
    spec fn feed() -> Feed;

    /// Whether `record` is what the item reads as.
    spec fn reads(item: Json, record: Self) -> bool;

    /// Returns the feed that delivers such records.
    fn source() -> (feed: Feed)
        ensures
            feed == Self::feed(),
    ;

    /// Reads a record from an item of a page.
    fn read(item: &Json) -> (record: Self)
        ensures
            Self::reads(*item, record),
    ;
}

impl FeedRecord for ImageResult {
    open spec fn feed() -> Feed {
        Feed::Images
    }

    open spec fn reads(item: Json, record: Self) -> bool {
        record@ == image_of(item)
    }

    fn source() -> (feed: Feed) {
        Feed::Images
    }

    fn read(item: &Json) -> (record: Self) {
        ImageResult::from_json(item)
    }
}

impl FeedRecord for NewsResult {
    open spec fn feed() -> Feed {
        Feed::News
    }

    /// A publication time that the item does not give is the time of
    /// reading, as the clock gave it; every other field is fixed by the item.
    open spec fn reads(item: Json, record: Self) -> bool {
        &&& record@ == news_of(item, record.date@)
        &&& news_date_missing(item) ==> is_utc_stamp(record.date@)
    }

    fn source() -> (feed: Feed) {
        Feed::News
    }

    fn read(item: &Json) -> (record: Self) {
        NewsResult::from_json(item)
    }
}

/// A feed search as plain values.
pub struct FeedState<R> {
    pub feed: Feed,
    pub query: Seq<char>,
    pub region: Seq<char>,
    pub safesearch: bool,
    pub user_agent: Seq<char>,
    /// The most records wanted, if there is a bound.
    pub limit: Option<usize>,
    /// The most page requests to make.
    pub page_cap: usize,
    pub phase: Phase,
    /// The parameters of the page request that is due, or of the last one made.
    pub params: Pairs,
    /// How many page requests were answered.
    pub pages: nat,
    /// The records collected so far, in the order in which upstream gave them.
    pub records: Seq<R>,
}

/// The state of a search that failed: it is over and holds no records.
pub open spec fn failed<R>(before: FeedState<R>) -> FeedState<R> {
    FeedState { phase: Phase::Done, records: Seq::<R>::empty(), ..before }
}

/// The state of a search that has read its token: the first page is due
/// where the page cap allows a page and the limit allows a record.
pub open spec fn with_token<R>(before: FeedState<R>, token: Seq<char>) -> FeedState<R> {
    FeedState {
        phase: if before.page_cap > 0 && has_room(before.limit, before.records.len()) {
            Phase::Page
        } else {
            Phase::Done
        },
        params: before.feed.first_params(before.query, before.region, token, before.safesearch),
        ..before
    }
}

/// Whether `after` is what the reply to the landing-page request makes of
/// `before`, with the given outcome.
pub open spec fn token_step<R>(
    before: FeedState<R>,
    reply: HttpResponse,
    after: FeedState<R>,
    outcome: Result<(), SearchError>,
) -> bool {
    if !is_success(reply.status) {
        &&& after == failed(before)
        &&& outcome matches Err(error)
        &&& error.is_status_failure(reply.status, reply.body@)
    } else {
        match token_of(reply.body@) {
            None => {
                &&& after == failed(before)
                &&& outcome matches Err(error)
                &&& error is TokenMissing
            },
            Some(token) => {
                &&& after == with_token(before, token)
                &&& outcome is Ok
            },
        }
    }
}

/// Whether `after` is what the page `page` makes of `before`.
pub open spec fn absorbed<R: FeedRecord>(
    before: FeedState<R>,
    page: Json,
    after: FeedState<R>,
) -> bool {
    let items = page_items(page);
    let have = before.records.len();
    let taken = take_count(before.limit, have, items.len());
    let more = !fills(before.limit, have, items.len()) && next_cursor(page) is Some && before.pages + 1
        < before.page_cap;
    &&& after.records.len() == have + taken
    &&& forall|k: int| 0 <= k < have ==> after.records[k] == before.records[k]
    &&& forall|k: int| 0 <= k < taken ==> R::reads(items[k], #[trigger] after.records[have + k])
    &&& after == FeedState {
        phase: if more {
            Phase::Page
        } else {
            Phase::Done
        },
        params: if more {
            before.params.push(("s"@, next_cursor(page)->0))
        } else {
            before.params
        },
        pages: before.pages + 1,
        records: after.records,
        ..before
    }
}

/// Whether `after` is what the reply to a page request makes of `before`,
/// with the given outcome.
pub open spec fn page_step<R: FeedRecord>(
    before: FeedState<R>,
    reply: HttpResponse,
    after: FeedState<R>,
    outcome: Result<(), SearchError>,
) -> bool {
    if !is_success(reply.status) {
        &&& after == failed(before)
        &&& outcome matches Err(error)
        &&& error.is_status_failure(reply.status, reply.body@)
    } else {
        match json_document(reply.body@) {
            None => {
                &&& after == failed(before)
                &&& outcome matches Err(error)
                &&& error.is_parse_failure(reply.body@)
            },
            Some(page) => {
                &&& absorbed(before, page, after)
                &&& outcome is Ok
            },
        }
    }
}

/// The request that is due in a state, if one is.
pub open spec fn due<R>(state: FeedState<R>) -> Option<crate::http::RequestView> {
    match state.phase {
        Phase::Token => Some(planned(Method::Get, site_origin(), state.user_agent, seq![("q"@, state.query)])),
        Phase::Page => Some(planned(Method::Get, state.feed.endpoint(), state.user_agent, state.params)),
        Phase::Done => None,
    }
}

/// A page that fills the limit ends the search: the search takes as many
/// records as still fit, and no request is due after it.
pub proof fn lemma_filled_limit_ends_search<R: FeedRecord>(
    before: FeedState<R>,
    page: Json,
    after: FeedState<R>,
)
    requires
        absorbed(before, page, after),
        fills(before.limit, before.records.len(), page_items(page).len()),
    ensures
        due(after) is None,
        after.records.len() == before.records.len() + room(before.limit->0, before.records.len()),
{
}

/// A page that names no next page ends the search.
pub proof fn lemma_last_page_ends_search<R: FeedRecord>(
    before: FeedState<R>,
    page: Json,
    after: FeedState<R>,
)
    requires
        absorbed(before, page, after),
        next_cursor(page) is None,
    ensures
        due(after) is None,
{
}

/// The page that uses up the page cap ends the search.
pub proof fn lemma_page_cap_ends_search<R: FeedRecord>(
    before: FeedState<R>,
    page: Json,
    after: FeedState<R>,
)
    requires
        absorbed(before, page, after),
        before.pages + 1 >= before.page_cap,
    ensures
        due(after) is None,
{
}

/// Without a limit, every item of a page is read, in the order of the page,
/// behind the records that the search held before.
pub proof fn lemma_unlimited_page_is_taken_whole<R: FeedRecord>(
    before: FeedState<R>,
    page: Json,
    after: FeedState<R>,
)
    requires
        absorbed(before, page, after),
        before.limit is None,
    ensures
        after.records.len() == before.records.len() + page_items(page).len(),
        after.records.take(before.records.len() as int) == before.records,
        forall|k: int|
            0 <= k < page_items(page).len() ==> R::reads(
                page_items(page)[k],
                #[trigger] after.records[before.records.len() + k],
            ),
{
    assert(after.records.take(before.records.len() as int) =~= before.records);
}

/// A page that leaves the limit open and names a next page, below the page
/// cap, is followed by the request for that page: the parameters so far and
/// the new cursor behind them.
pub proof fn lemma_open_page_asks_for_the_next<R: FeedRecord>(
    before: FeedState<R>,
    page: Json,
    after: FeedState<R>,
)
    requires
        absorbed(before, page, after),
        !fills(before.limit, before.records.len(), page_items(page).len()),
        next_cursor(page) is Some,
        before.pages + 1 < before.page_cap,
    ensures
        due(after) == Some(
            planned(
                Method::Get,
                before.feed.endpoint(),
                before.user_agent,
                before.params.push(("s"@, next_cursor(page)->0)),
            ),
        ),
{
}

/// Whether `states` are the states that a search goes through while it is
/// served `pages` one after the other, each while a page is due.
pub open spec fn is_run<R: FeedRecord>(states: Seq<FeedState<R>>, pages: Seq<Json>) -> bool {
    &&& states.len() == pages.len() + 1
    &&& forall|i: int|
        0 <= i < pages.len() ==> (#[trigger] states[i]).phase is Page && absorbed(
            states[i],
            pages[i],
            states[i + 1],
        )
}

/// The items of all pages, in the order of the pages.
pub open spec fn all_items(pages: Seq<Json>) -> Seq<Json>
    decreases pages.len(),
{
    if pages.len() == 0 {
        Seq::<Json>::empty()
    } else {
        all_items(pages.drop_last()) + page_items(pages.last())
    }
}

/// Without a limit, a search that was served `n` pages holds a reading of
/// every item of those pages, in the order of the pages and of the items in
/// them, behind the records that it held before; and it counts one page
/// request for each page.
pub proof fn lemma_unlimited_search_collects_every_item<R: FeedRecord>(
    states: Seq<FeedState<R>>,
    pages: Seq<Json>,
    n: int,
)
    requires
        is_run(states, pages),
        states[0].limit is None,
        0 <= n <= pages.len(),
    ensures
        states[n].limit is None,
        states[n].pages == states[0].pages + n,
        states[n].records.len() == states[0].records.len() + all_items(pages.take(n)).len(),
        forall|k: int| 0 <= k < states[0].records.len() ==> states[n].records[k] == states[0].records[k],
        forall|k: int|
            0 <= k < all_items(pages.take(n)).len() ==> R::reads(
                all_items(pages.take(n))[k],
                #[trigger] states[n].records[states[0].records.len() + k],
            ),
    decreases n,
{
    if n > 0 {
        lemma_unlimited_search_collects_every_item(states, pages, n - 1);
        let mid = states[n - 1];
        let after = states[n];
        assert(mid.phase is Page && absorbed(mid, pages[n - 1], after));
        assert(pages.take(n).drop_last() =~= pages.take(n - 1));
        assert(pages.take(n).last() == pages[n - 1]);
        let earlier = all_items(pages.take(n - 1));
        let items = page_items(pages[n - 1]);
        let held = states[0].records.len();
        assert forall|k: int| 0 <= k < all_items(pages.take(n)).len() implies R::reads(
            all_items(pages.take(n))[k],
            #[trigger] after.records[held + k],
        ) by {
            if k < earlier.len() {
                assert(after.records[held + k] == mid.records[held + k]);
                assert(R::reads(earlier[k], mid.records[held + k]));
            } else {
                let place = k - earlier.len();
                assert(R::reads(items[place], after.records[mid.records.len() + place]));
            }
        }
    } else {
        assert(pages.take(0) =~= Seq::<Json>::empty());
    }
}

/// With a limit, a search that starts without records never holds more
/// records than the limit, however many pages it is served; and after a
/// page that leaves another page due it holds fewer.
pub proof fn lemma_limited_search_stays_within_limit<R: FeedRecord>(
    states: Seq<FeedState<R>>,
    pages: Seq<Json>,
    n: int,
)
    requires
        is_run(states, pages),
        states[0].limit is Some,
        states[0].records.len() == 0,
        0 <= n <= pages.len(),
    ensures
        states[n].limit == states[0].limit,
        states[n].records.len() <= states[0].limit->0,
        n > 0 && states[n].phase is Page ==> states[n].records.len() < states[0].limit->0,
    decreases n,
{
    if n > 0 {
        lemma_limited_search_stays_within_limit(states, pages, n - 1);
        assert(states[n - 1].phase is Page && absorbed(states[n - 1], pages[n - 1], states[n]));
    }
}

/// With a limit, a search that starts without records and is served a page
/// that fills the limit holds exactly as many records as the limit says, and
/// asks for no further page.
pub proof fn lemma_filled_search_holds_the_limit<R: FeedRecord>(states: Seq<FeedState<R>>, pages: Seq<Json>)
    requires
        is_run(states, pages),
        states[0].limit is Some,
        states[0].records.len() == 0,
        pages.len() > 0,
        fills(
            states[pages.len() - 1].limit,
            states[pages.len() - 1].records.len(),
            page_items(pages.last()).len(),
        ),
    ensures
        states.last().records.len() == states[0].limit->0,
        due(states.last()) is None,
{
    let n = pages.len() - 1;
    lemma_limited_search_stays_within_limit(states, pages, n);
    assert(states[n].phase is Page && absorbed(states[n], pages[n], states[n + 1]));
}

/// A search with a limit of 0 asks for no page: once its token is read, it is over.
pub proof fn lemma_limit_of_zero_asks_for_no_page<R: FeedRecord>(before: FeedState<R>, token: Seq<char>)
    requires
        before.limit == Some(0usize),
    ensures
        due(with_token(before, token)) is None,
        with_token(before, token).records == before.records,
{
}

/// At most one offset holds the last cursor marker.
proof fn lemma_last_marker_unique(next: Seq<char>, at: int, other: int)
    requires
        is_last_marker(next, at),
        is_last_marker(next, other),
    ensures
        at == other,
{
}

/// Extracts the cursor from a `next` field: what follows its last `s=`, or
/// the empty text where it holds no `s=`.
pub fn cursor(next: &str) -> (found: String)
    ensures
        found@ == cursor_of(next@),
{
    let chars = chars_of(next);
    let mut marker: Vec<char> = Vec::new();
    marker.push('s');
    marker.push('=');
    assert(marker@ =~= cursor_marker());
    let mut at: usize = chars.len();
    while at > 0
        invariant
            at <= chars.len(),
            chars@ == next@,
            marker@ == cursor_marker(),
            forall|later: int| at <= later ==> !occurs_at(next@, cursor_marker(), later),
        decreases at,
    {
        at -= 1;
        if matches_at(&chars, &marker, at) {
            proof {
                assert(is_last_marker(next@, at as int));
                lemma_last_marker_unique(next@, at as int, choose|at: int| is_last_marker(next@, at));
            }
            return String::from_str(next.substring_char(at + 2, chars.len()));
        }
    }
    assert forall|at: int| !is_last_marker(next@, at) by {
        if is_last_marker(next@, at) {
            assert(0 <= at);
        }
    }
    String::new()
}

/// Reads the cursor of the next page from a page, if the page names one.
pub fn read_next_cursor(page: &Json) -> (found: Option<String>)
    ensures
        match found {
            Some(cursor) => next_cursor(*page) == Some(cursor@),
            None => next_cursor(*page) is None,
        },
{
    match page.get("next") {
        Some(Json::Text(next)) => Some(cursor(next.as_str())),
        _ => None,
    }
}

/// A search of one feed, between its exchanges.
pub struct FeedSearch<R: FeedRecord> {
    query: String,
    region: String,
    safesearch: bool,
    user_agent: String,
    limit: Option<usize>,
    page_cap: usize,
    phase: Phase,
    params: Vec<(String, String)>,
    pages: usize,
    records: Vec<R>,
}

impl<R: FeedRecord> View for FeedSearch<R> {
    type V = FeedState<R>;

    closed spec fn view(&self) -> FeedState<R> {
        FeedState {
            feed: R::feed(),
            query: self.query@,
            region: self.region@,
            safesearch: self.safesearch,
            user_agent: self.user_agent@,
            limit: self.limit,
            page_cap: self.page_cap,
            phase: self.phase,
            params: pair_views(self.params@),
            pages: self.pages as nat,
            records: self.records@,
        }
    }
}

impl<R: FeedRecord> FeedSearch<R> {
    /// Whether the search is in a state that it can reach. No more pages
    /// were answered than the cap allows, and fewer while a page is due; none
    /// before the token is read. With a limit, the search holds no more
    /// records than the limit, and fewer while a page is due.
    pub open spec fn wf(&self) -> bool {
        &&& self@.pages <= self@.page_cap
        &&& match self@.phase {
            Phase::Token => self@.pages == 0 && self@.records.len() == 0,
            Phase::Page => self@.pages < self@.page_cap && has_room(self@.limit, self@.records.len()),
            Phase::Done => true,
        }
        &&& self@.limit is Some ==> self@.records.len() <= self@.limit->0
    }

    /// Starts a search: the landing page is due, nothing is collected.
    /// `page_cap` bounds the number of page requests.
    pub fn start(
        query: &str,
        region: &str,
        safesearch: bool,
        limit: Option<usize>,
        user_agent: &str,
        page_cap: usize,
    ) -> (search: Self)
        ensures
            search.wf(),
            search@ == (FeedState {
                feed: R::feed(),
                query: query@,
                region: region@,
                safesearch,
                user_agent: user_agent@,
                limit,
                page_cap,
                phase: Phase::Token,
                params: Seq::<(Seq<char>, Seq<char>)>::empty(),
                pages: 0,
                records: Seq::<R>::empty(),
            }),
    {
        let search = FeedSearch {
            query: String::from_str(query),
            region: String::from_str(region),
            safesearch,
            user_agent: String::from_str(user_agent),
            limit,
            page_cap,
            phase: Phase::Token,
            params: Vec::new(),
            pages: 0,
            records: Vec::new(),
        };
        assert(search@.params =~= Seq::<(Seq<char>, Seq<char>)>::empty());
        search
    }

    /// The request to send now: the landing page with the query, then the
    /// feed with the page parameters; nothing once the search is over.
    pub fn pending(&self) -> (request: Option<HttpRequest>)
        ensures
            match request {
                Some(r) => due(self@) == Some(r@),
                None => due(self@) is None,
            },
    {
        match self.phase {
            Phase::Token => {
                let mut query: Vec<(String, String)> = Vec::new();
                query.push(pair("q", self.query.as_str()));
                assert(pair_views(query@) =~= seq![("q"@, self.query@)]);
                Some(HttpRequest::plan(Method::Get, "https://duckduckgo.com/", self.user_agent.as_str(), query))
            },
            Phase::Page => {
                let query = copy_pairs(&self.params);
                Some(HttpRequest::plan(Method::Get, R::source().endpoint_url(), self.user_agent.as_str(), query))
            },
            Phase::Done => None,
        }
    }

    /// Whether the search is over.
    pub fn is_done(&self) -> (done: bool)
        ensures
            done == (self@.phase is Done),
    {
        match self.phase {
            Phase::Done => true,
            _ => false,
        }
    }

    /// How many page requests were answered.
    pub fn pages_fetched(&self) -> (pages: usize)
        ensures
            pages == self@.pages,
    {
        self.pages
    }

    /// The records collected so far.
    pub fn results(&self) -> (records: &Vec<R>)
        ensures
            records@ == self@.records,
    {
        &self.records
    }

    /// Ends the search and hands out its records.
    pub fn into_results(self) -> (records: Vec<R>)
        ensures
            records@ == self@.records,
    {
        self.records
    }

    /// Ends the search after a failure and drops what was collected.
    fn fail(&mut self)
        requires
            old(self).wf(),
        ensures
            final(self)@ == failed(old(self)@),
            final(self).wf(),
    {
        self.phase = Phase::Done;
        self.records = Vec::new();
    }

    /// Takes the reply to the landing-page request.
    fn receive_token(&mut self, reply: &HttpResponse) -> (outcome: Result<(), SearchError>)
        requires
            old(self)@.phase is Token,
            old(self).wf(),
        ensures
            final(self).wf(),
            token_step(old(self)@, *reply, final(self)@, outcome),
    {
        match reply.error_for_status() {
            Err(error) => {
                self.fail();
                return Err(error);
            },
            Ok(()) => {},
        }
        match extract_token(reply.body.as_str()) {
            Err(error) => {
                self.fail();
                Err(error)
            },
            Ok(token) => {
                self.params = R::source().page_params(
                    self.query.as_str(),
                    self.region.as_str(),
                    token.as_str(),
                    self.safesearch,
                );
                self.phase = if self.page_cap > 0 && fits(self.limit, self.records.len()) {
                    Phase::Page
                } else {
                    Phase::Done
                };
                assert(self@ == with_token(old(self)@, token@));
                Ok(())
            },
        }
    }

    /// Takes a page of the feed while a page is due: appends the records of
    /// its items as far as the limit allows, counts the page, and decides
    /// whether another page is due. The cursor of the next page goes behind
    /// the parameters so far.
    pub fn absorb(&mut self, page: &Json)
        requires
            old(self).wf(),
            old(self)@.phase is Page,
        ensures
            final(self).wf(),
            absorbed(old(self)@, *page, final(self)@),
    {
        let have = self.records.len();
        let mut full = false;
        match page.get("results") {
            Some(Json::Array(items)) => {
                let (taken, filled) = measure(self.limit, have, items.len());
                full = filled;
                let mut k: usize = 0;
                while k < taken
                    invariant
                        k <= taken <= items.len(),
                        items@ == page_items(*page),
                        have == old(self).records.len(),
                        self.records.len() == have + k,
                        forall|j: int| 0 <= j < have ==> self.records[j] == old(self).records[j],
                        forall|j: int| 0 <= j < k ==> R::reads(items[j], #[trigger] self.records[have + j]),
                        self.query == old(self).query,
                        self.region == old(self).region,
                        self.safesearch == old(self).safesearch,
                        self.user_agent == old(self).user_agent,
                        self.limit == old(self).limit,
                        self.page_cap == old(self).page_cap,
                        self.phase == old(self).phase,
                        self.params == old(self).params,
                        self.pages == old(self).pages,
                    decreases taken - k,
                {
                    let record = R::read(&items[k]);
                    self.records.push(record);
                    k += 1;
                }
            },
            _ => {},
        }
        self.pages = self.pages + 1;
        let cursor = if full {
            None
        } else {
            read_next_cursor(page)
        };
        match cursor {
            Some(cursor) => {
                if self.pages < self.page_cap {
                    self.params.push((String::from_str("s"), cursor));
                    assert(pair_views(self.params@) =~= pair_views(old(self).params@).push(("s"@, cursor@)));
                } else {
                    self.phase = Phase::Done;
                }
            },
            None => {
                self.phase = Phase::Done;
            },
        }
        assert(absorbed(old(self)@, *page, self@));
    }

    /// Takes the reply to a page request.
    fn receive_page(&mut self, reply: &HttpResponse) -> (outcome: Result<(), SearchError>)
        requires
            old(self)@.phase is Page,
            old(self).wf(),
        ensures
            final(self).wf(),
            page_step(old(self)@, *reply, final(self)@, outcome),
    {
        match reply.error_for_status() {
            Err(error) => {
                self.fail();
                return Err(error);
            },
            Ok(()) => {},
        }
        match Json::parse(reply.body.as_str()) {
            Err(error) => {
                self.fail();
                Err(error)
            },
            Ok(page) => {
                self.absorb(&page);
                Ok(())
            },
        }
    }

    /// Takes the reply to the request that was due.
    ///
    /// A reply with a status outside 200..=299 ends the search with
    /// `SearchError::UpstreamStatus`. A landing page without a token ends it with
    /// `SearchError::TokenMissing`, a page that is no JSON document with
    /// `SearchError::Parse`. After a failure the search is over and holds no
    /// records. A search that is over takes no reply: it stays as it is.
    pub fn receive(&mut self, reply: &HttpResponse) -> (outcome: Result<(), SearchError>)
        requires
            old(self).wf(),
        ensures
            final(self).wf(),
            match old(self)@.phase {
                Phase::Token => token_step(old(self)@, *reply, final(self)@, outcome),
                Phase::Page => page_step(old(self)@, *reply, final(self)@, outcome),
                Phase::Done => outcome is Ok && final(self)@ == old(self)@,
            },
    {
        match self.phase {
            Phase::Token => self.receive_token(reply),
            Phase::Page => self.receive_page(reply),
            Phase::Done => Ok(()),
        }
    }
}

} // verus!
