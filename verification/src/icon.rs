//! The icon of a related topic.

use vstd::prelude::*;
use crate::json::Json;

verus! {

/// An icon as upstream describes it. Height and width arrive loosely typed,
/// as a number, a string or nothing, and are kept as they came.
#[derive(Debug)]
pub struct Icon {
    pub height: Json,
    /// Path of the image, relative to the site's origin; may be empty.
    pub url: String,
    pub width: Json,
}

impl Icon {
    /// Makes an icon of its three parts.
    pub fn new(height: Json, url: String, width: Json) -> (icon: Icon)
        ensures
            icon.height == height,
            icon.url == url,
            icon.width == width,
    {
        Icon { height, url, width }
    }
}

} // verus!
