//! The core of a command-line search client for DuckDuckGo.
//!
//! The library plans the requests of a search, reads the replies of the four
//! endpoints into a small set of records, and renders instant answers for a
//! terminal. It does no input or output: the caller sends each planned
//! request and hands the reply back.
//!
//! - [`browser`] holds the entry points, one group for each endpoint.
//! - [`http`] describes requests and replies; [`error`] the failures.
//! - [`token`] finds the session token of the JSON feeds, [`feed`] pages
//!   through those feeds, [`lite`] reads the text-only results page.
//! - [`json`] and [`html`] read documents with `serde_json` and `scraper`;
//!   [`clock`] formats timestamps with `chrono`, [`encode`] percent-encodes
//!   with `urlencoding`.
//! - [`response`], [`topic`] and [`icon`] are the records; [`render`] lays an
//!   instant answer out in lines, styled by [`colors`].
//! - [`cli`] and [`user_agents`] decide what the command line asks for.
//!
//! Every function carries a contract, proved with Verus.

pub mod browser;
pub mod cli;
pub mod clock;
pub mod colors;
pub mod encode;
pub mod error;
pub mod feed;
pub mod html;
pub mod http;
pub mod icon;
pub mod json;
pub mod limit;
pub mod lite;
pub mod render;
pub mod response;
pub mod text;
pub mod token;
pub mod topic;
pub mod user_agents;
