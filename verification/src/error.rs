//! The failures a search can end in.

use vstd::prelude::*;

verus! {

/// Why a search did not produce results.
#[derive(Clone, Debug)]
pub enum SearchError {
    /// The request never got an answer: a network, DNS or TLS failure.
    Transport { url: String, reason: String },
    /// The upstream answered with a status outside 200..=299.
    UpstreamStatus { status: u16, body: String },
    /// The landing page carried no session token.
    TokenMissing,
    /// An answer with a good status could not be parsed; `body` is what came.
    Parse { body: String },
    /// The caller's configuration is unusable: an unknown user-agent alias or a bad proxy URL.
    Configuration { detail: String },
}

impl SearchError {
    /// Whether this is the parse failure that carries `text`.
    pub open spec fn is_parse_failure(self, text: Seq<char>) -> bool {
        match self {
            SearchError::Parse { body } => body@ == text,
            _ => false,
        }
    }

    /// Whether this is the status failure for `status` that carries `text`.
    pub open spec fn is_status_failure(self, status: u16, text: Seq<char>) -> bool {
        match self {
            SearchError::UpstreamStatus { status: code, body } => code == status && body@ == text,
            _ => false,
        }
    }

    /// Whether this is the configuration failure whose detail is `text`.
    pub open spec fn is_configuration_failure(self, text: Seq<char>) -> bool {
        match self {
            SearchError::Configuration { detail } => detail@ == text,
            _ => false,
        }
    }
}

} // verus!
