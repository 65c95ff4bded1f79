//! The options of the command line, as plain values.

use vstd::prelude::*;
use vstd::string::*;
use crate::browser::{browse_url, operators_path, search_path, Browser};
use crate::encode::{encoded_text, percent_encode};
use crate::error::SearchError;
use crate::http::{planned, HttpRequest, Method};
use crate::response::ResultFormat;
use crate::user_agents::{agent_of, get};

verus! {

/// The most page requests that a feed search makes for the command line.
pub const PAGE_CAP: usize = 100;

/// The region that the command line searches in: worldwide.
pub open spec fn worldwide() -> Seq<char> {
    "wt-wt"@
}

/// What the command line says of an unknown user-agent alias.
pub open spec fn unknown_agent_detail() -> Seq<char> {
    "Invalid user agent selected!"@
}

/// What the command line says of a missing query.
pub open spec fn missing_query_detail() -> Seq<char> {
    "Query is required!"@
}

/// Which upstream endpoint answers the query.
#[derive(Clone, Copy, Debug, PartialEq, Eq)]
pub enum Backend {
    /// The instant-answer API.
    Auto,
    /// The text-only HTML results page.
    Lite,
    /// The image feed.
    Images,
    /// The news feed.
    News,
}

/// The options of one invocation.
#[derive(Clone, Debug)]
pub struct Cli {
    /// Show debug messages.
    pub verbose: bool,
    /// The search query.
    pub query: String,
    /// Search operators, or empty.
    pub operators: String,
    /// Ask upstream to filter the results.
    pub safe: bool,
    /// `true` for the detailed layout, `false` for the list.
    pub format: bool,
    /// The most results to show.
    pub limit: usize,
    /// Alias of the user agent, or empty.
    pub user_agent: String,
    /// Keep cookies between requests.
    pub cookie: bool,
    /// URL of a proxy, or empty.
    pub proxy: String,
    /// The endpoint to use.
    pub backend: Backend,
}

impl Cli {
    /// The layout that the `format` flag selects.
    pub fn result_format(&self) -> (format: ResultFormat)
        ensures
            format == (if self.format {
                ResultFormat::Detailed
            } else {
                ResultFormat::List
            }),
    {
        if self.format {
            ResultFormat::Detailed
        } else {
            ResultFormat::List
        }
    }

    /// The result limit of the invocation.
    pub fn result_limit(&self) -> (limit: Option<usize>)
        ensures
            limit == Some(self.limit),
    {
        Some(self.limit)
    }

    /// Returns the region that the command line searches in.
    pub fn region(&self) -> (region: &'static str)
        ensures
            region@ == worldwide(),
    {
        "wt-wt"
    }

    /// Resolves the user-agent alias. An empty alias selects no user agent
    /// and gives the empty text; an alias that the table lacks fails with
    /// `SearchError::Configuration`.
    pub fn resolve_user_agent(&self) -> (agent: Result<&'static str, SearchError>)
        ensures
            match agent {
                Ok(found) => if self.user_agent@.len() == 0 {
                    found@.len() == 0
                } else {
                    agent_of(self.user_agent@) == Some(found@)
                },
                Err(error) => self.user_agent@.len() > 0 && agent_of(self.user_agent@) is None
                    && error.is_configuration_failure(unknown_agent_detail()),
            },
    {
        if self.user_agent.as_str().is_empty() {
            proof {
                reveal_strlit("");
            }
            return Ok("");
        }
        match get(self.user_agent.as_str()) {
            Some(found) => Ok(found),
            None => Err(SearchError::Configuration { detail: String::from_str("Invalid user agent selected!") }),
        }
    }

    /// Accepts a query that is not empty; an empty one fails with
    /// `SearchError::Configuration`.
    pub fn check_query(&self) -> (checked: Result<(), SearchError>)
        ensures
            checked is Ok <==> self.query@.len() > 0,
            checked matches Err(error) ==> error.is_configuration_failure(missing_query_detail()),
    {
        if self.query.as_str().is_empty() {
            Err(SearchError::Configuration { detail: String::from_str("Query is required!") })
        } else {
            Ok(())
        }
    }

    /// Makes the browser of the invocation, under the resolved user agent.
    pub fn browser(&self, agent: &str) -> (browser: Browser)
        ensures
            browser.user_agent@ == agent@,
            browser.page_cap == PAGE_CAP,
    {
        Browser::new(agent, PAGE_CAP)
    }

    /// Plans the instant-answer request of the invocation. The query and the
    /// operators are percent-encoded; operators that are not empty follow
    /// the query.
    pub fn instant_request(&self, browser: &Browser) -> (request: HttpRequest)
        ensures
            request@ == planned(
                Method::Get,
                browse_url(
                    if self.operators@.len() > 0 {
                        operators_path(
                            encoded_text(self.query@),
                            encoded_text(self.operators@),
                            self.safe,
                        )
                    } else {
                        search_path(encoded_text(self.query@), self.safe)
                    },
                ),
                browser.user_agent@,
                Seq::<(Seq<char>, Seq<char>)>::empty(),
            ),
    {
        let query = percent_encode(self.query.as_str());
        if !self.operators.as_str().is_empty() {
            let operators = percent_encode(self.operators.as_str());
            browser.search_operators(query.as_str(), operators.as_str(), self.safe)
        } else {
            browser.search(query.as_str(), self.safe)
        }
    }
}

} // verus!
