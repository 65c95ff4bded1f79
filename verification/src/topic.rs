//! A related topic of an instant answer.

use vstd::prelude::*;
use crate::icon::Icon;

verus! {

/// One related-topic entry. An entry that stands for a category heading has
/// neither text nor URL.
#[derive(Debug)]
pub struct Topic {
    /// Canonical URL of the topic.
    pub first_url: Option<String>,
    pub icon: Option<Icon>,
    /// The entry as an HTML snippet.
    pub result: Option<String>,
    /// Display text.
    pub text: Option<String>,
    pub url: Option<String>,
}

impl Default for Topic {
    fn default() -> (topic: Topic)
        ensures
            topic.first_url is None,
            topic.icon is None,
            topic.result is None,
            topic.text is None,
            topic.url is None,
    {
        Topic { first_url: None, icon: None, result: None, text: None, url: None }
    }
}

} // verus!
