//! The records a search produces and their readers from JSON.

use vstd::prelude::*;
use vstd::string::*;
use crate::clock::{is_utc_stamp, rfc3339_from_timestamp, rfc3339_now, utc_rfc3339};
use crate::json::{lemma_lookup_finds, lemma_lookup_misses, Json, JsonNumber};
use crate::topic::Topic;

verus! {

/// How an instant answer is laid out on the terminal.
#[derive(Clone, Copy, Debug, PartialEq, Eq)]
pub enum ResultFormat {
    /// The heading and the related topics.
    List,
    /// The abstract and the image as well.
    Detailed,
}

/// One image hit.
#[derive(Clone, Debug, PartialEq, Eq)]
pub struct ImageResult {
    /// Title or description of the image.
    pub title: String,
    /// URL of the full-sized image.
    pub image: String,
    /// URL of the thumbnail.
    pub thumbnail: String,
    /// URL of the page that hosts the image.
    pub url: String,
    /// Height in pixels; 0 where upstream gave none.
    pub height: u32,
    /// Width in pixels; 0 where upstream gave none.
    pub width: u32,
    /// Source label.
    pub source: String,
}

/// One news hit.
#[derive(Clone, Debug, PartialEq, Eq)]
pub struct NewsResult {
    /// Publication time, RFC 3339.
    pub date: String,
    /// Headline.
    pub title: String,
    /// Excerpt of the article.
    pub body: String,
    /// URL of the article.
    pub url: String,
    /// URL of an image that goes with the article, if any.
    pub image: Option<String>,
    /// Source label.
    pub source: String,
}

/// One hit of the lite search.
#[derive(Clone, Debug, PartialEq, Eq)]
pub struct LiteSearchResult {
    /// Text of the link.
    pub title: String,
    /// Target of the link.
    pub url: String,
    /// Preview text; empty where the row has none.
    pub snippet: String,
}

/// An instant answer document.
#[derive(Debug)]
pub struct Response {
    pub abstract_: Option<String>,
    pub abstract_source: Option<String>,
    pub abstract_text: Option<String>,
    pub abstract_url: Option<String>,
    pub answer: Option<String>,
    pub answer_type: Option<String>,
    pub definition: Option<String>,
    pub definition_source: Option<String>,
    pub definition_url: Option<String>,
    pub entity: Option<String>,
    pub heading: Option<String>,
    /// Path of the image, relative to the site's origin.
    pub image: Option<String>,
    pub image_height: Json,
    pub image_is_logo: Json,
    pub image_width: Json,
    pub info_box: Option<Json>,
    pub redirect: Option<String>,
    /// Related topics, most relevant first.
    pub related_topics: Vec<Topic>,
    pub results: Vec<Json>,
    pub type_: String,
    pub example_query: Option<String>,
    pub created_date: Option<String>,
}

/// An image hit with its texts as character sequences.
pub struct ImageView {
    pub title: Seq<char>,
    pub image: Seq<char>,
    pub thumbnail: Seq<char>,
    pub url: Seq<char>,
    pub height: u32,
    pub width: u32,
    pub source: Seq<char>,
}

/// A news hit with its texts as character sequences.
pub struct NewsView {
    pub date: Seq<char>,
    pub title: Seq<char>,
    pub body: Seq<char>,
    pub url: Seq<char>,
    pub image: Option<Seq<char>>,
    pub source: Seq<char>,
}

/// A lite hit with its texts as character sequences.
pub struct LiteView {
    pub title: Seq<char>,
    pub url: Seq<char>,
    pub snippet: Seq<char>,
}

/// The characters of an optional string.
pub open spec fn optional_view(text: Option<String>) -> Option<Seq<char>> {
    match text {
        Some(s) => Some(s@),
        None => None,
    }
}

impl View for ImageResult {
    type V = ImageView;

    open spec fn view(&self) -> ImageView {
        ImageView {
            title: self.title@,
            image: self.image@,
            thumbnail: self.thumbnail@,
            url: self.url@,
            height: self.height,
            width: self.width,
            source: self.source@,
        }
    }
}

impl View for NewsResult {
    type V = NewsView;

    open spec fn view(&self) -> NewsView {
        NewsView {
            date: self.date@,
            title: self.title@,
            body: self.body@,
            url: self.url@,
            image: optional_view(self.image),
            source: self.source@,
        }
    }
}

impl View for LiteSearchResult {
    type V = LiteView;

    open spec fn view(&self) -> LiteView {
        LiteView { title: self.title@, url: self.url@, snippet: self.snippet@ }
    }
}

/// A pixel count as upstream's number: the low 32 bits of it.
pub open spec fn pixels(n: u64) -> u32 {
    (n % 0x1_0000_0000) as u32
}

/// The image hit that a JSON item describes. A text field that is missing or
/// no string reads as empty, a size that is missing or no non-negative integer as 0.
pub open spec fn image_of(item: Json) -> ImageView {
    ImageView {
        title: item.text_or_empty("title"@),
        image: item.text_or_empty("image"@),
        thumbnail: item.text_or_empty("thumbnail"@),
        url: item.text_or_empty("url"@),
        height: pixels(item.unsigned_or_zero("height"@)),
        width: pixels(item.unsigned_or_zero("width"@)),
        source: item.text_or_empty("source"@),
    }
}

/// The publication time of a news item: the RFC 3339 text of its `date`, a Unix
/// timestamp, or `now` where `date` is missing, no integer or out of range.
pub open spec fn news_date(item: Json, now: Seq<char>) -> Seq<char> {
    match item.optional_signed("date"@) {
        Some(seconds) => match utc_rfc3339(seconds as int) {
            Some(text) => text,
            None => now,
        },
        None => now,
    }
}

/// Whether the publication time of `item` has to be taken from the clock.
pub open spec fn news_date_missing(item: Json) -> bool {
    match item.optional_signed("date"@) {
        Some(seconds) => utc_rfc3339(seconds as int) is None,
        None => true,
    }
}

/// The news hit that a JSON item describes when read at the time `now`.
pub open spec fn news_of(item: Json, now: Seq<char>) -> NewsView {
    NewsView {
        date: news_date(item, now),
        title: item.text_or_empty("title"@),
        body: item.text_or_empty("excerpt"@),
        url: item.text_or_empty("url"@),
        image: item.optional_text("image"@),
        source: item.text_or_empty("source"@),
    }
}

/// Whether member `key` of `item` is the string `text`.
pub open spec fn holds_text(item: Json, key: Seq<char>, text: Seq<char>) -> bool {
    item.member(key) matches Some(Json::Text(s)) && s@ == text
}

/// Whether member `key` of `item` is the non-negative integer `n`.
pub open spec fn holds_count(item: Json, key: Seq<char>, n: u64) -> bool {
    item.member(key) matches Some(Json::Number(JsonNumber::Unsigned(held))) && held == n
}

/// Whether `item` is the JSON object that an image hit is written as: its
/// seven fields under the names by which they are read, and nothing else.
pub open spec fn writes_image(item: Json, hit: ImageView) -> bool {
    &&& item matches Json::Object(entries) && entries@.len() == 7
    &&& holds_text(item, "title"@, hit.title)
    &&& holds_text(item, "image"@, hit.image)
    &&& holds_text(item, "thumbnail"@, hit.thumbnail)
    &&& holds_text(item, "url"@, hit.url)
    &&& holds_count(item, "height"@, hit.height as u64)
    &&& holds_count(item, "width"@, hit.width as u64)
    &&& holds_text(item, "source"@, hit.source)
}

/// Whether `item` is the JSON object that a news hit is written as: its
/// fields under the names by which they are read, the excerpt under
/// `excerpt`, the date as its RFC 3339 text, the image only where there is one.
pub open spec fn writes_news(item: Json, hit: NewsView) -> bool {
    &&& item matches Json::Object(entries) && entries@.len() == (if hit.image is Some {
        6nat
    } else {
        5nat
    })
    &&& holds_text(item, "date"@, hit.date)
    &&& holds_text(item, "title"@, hit.title)
    &&& holds_text(item, "excerpt"@, hit.body)
    &&& holds_text(item, "url"@, hit.url)
    &&& holds_text(item, "source"@, hit.source)
    &&& match hit.image {
        Some(image) => holds_text(item, "image"@, image),
        None => item.member("image"@) is None,
    }
}

/// A size that upstream leaves out, or gives as anything but a
/// non-negative integer, reads as 0.
pub proof fn lemma_missing_size_reads_zero(item: Json)
    ensures
        item.member("height"@) is None ==> image_of(item).height == 0,
        item.member("width"@) is None ==> image_of(item).width == 0,
        item.member("height"@) matches Some(value) && value.unsigned() is None ==> image_of(item).height == 0,
        item.member("width"@) matches Some(value) && value.unsigned() is None ==> image_of(item).width == 0,
{
}

/// A publication time that upstream leaves out, or gives as anything but an
/// integer, reads as the time of reading.
pub proof fn lemma_unusable_date_reads_now(item: Json, now: Seq<char>)
    ensures
        item.member("date"@) is None ==> news_of(item, now).date == now,
        item.member("date"@) matches Some(value) && value.signed() is None ==> news_of(item, now).date == now,
        item.member("date"@) matches Some(Json::Text(_)) ==> news_of(item, now).date == now,
{
}

/// An image hit that is read from an item and written back gives an item
/// with the same field values: each text as the item reads, and each size
/// as the item reads where it fits 32 bits.
pub proof fn lemma_image_round_trip(item: Json, written: Json)
    requires
        writes_image(written, image_of(item)),
    ensures
        written.text_or_empty("title"@) == item.text_or_empty("title"@),
        written.text_or_empty("image"@) == item.text_or_empty("image"@),
        written.text_or_empty("thumbnail"@) == item.text_or_empty("thumbnail"@),
        written.text_or_empty("url"@) == item.text_or_empty("url"@),
        written.text_or_empty("source"@) == item.text_or_empty("source"@),
        item.unsigned_or_zero("height"@) <= u32::MAX ==> written.unsigned_or_zero("height"@)
            == item.unsigned_or_zero("height"@),
        item.unsigned_or_zero("width"@) <= u32::MAX ==> written.unsigned_or_zero("width"@)
            == item.unsigned_or_zero("width"@),
        image_of(written) == image_of(item),
{
}

/// A news hit that is read from an item and written back gives an item with
/// the same texts and the same image. Its date is the RFC 3339 text that the
/// item's timestamp reads as.
pub proof fn lemma_news_round_trip(item: Json, now: Seq<char>, written: Json)
    requires
        writes_news(written, news_of(item, now)),
    ensures
        written.text_or_empty("title"@) == item.text_or_empty("title"@),
        written.text_or_empty("excerpt"@) == item.text_or_empty("excerpt"@),
        written.text_or_empty("url"@) == item.text_or_empty("url"@),
        written.text_or_empty("source"@) == item.text_or_empty("source"@),
        written.optional_text("image"@) == item.optional_text("image"@),
        written.text_or_empty("date"@) == news_date(item, now),
{
}

/// Makes an object member that holds a text.
fn text_member(key: &str, text: &String) -> (member: (String, Json))
    ensures
        member.0@ == key@,
        member.1 matches Json::Text(s) && s@ == text@,
        member.1.wf(),
{
    (String::from_str(key), Json::Text(text.clone()))
}

/// Makes an object member that holds a count.
fn count_member(key: &str, n: u32) -> (member: (String, Json))
    ensures
        member.0@ == key@,
        member.1 matches Json::Number(JsonNumber::Unsigned(held)) && held == n,
        member.1.wf(),
{
    (String::from_str(key), Json::Number(JsonNumber::Unsigned(n as u64)))
}

impl ImageResult {
    /// Writes the hit as a JSON object with the field names of the feed.
    pub fn to_json(&self) -> (item: Json)
        ensures
            writes_image(item, self@),
            item.wf(),
    {
        let mut entries: Vec<(String, Json)> = Vec::new();
        entries.push(text_member("title", &self.title));
        entries.push(text_member("image", &self.image));
        entries.push(text_member("thumbnail", &self.thumbnail));
        entries.push(text_member("url", &self.url));
        entries.push(count_member("height", self.height));
        entries.push(count_member("width", self.width));
        entries.push(text_member("source", &self.source));
        proof {
            reveal_strlit("title");
            reveal_strlit("image");
            reveal_strlit("thumbnail");
            reveal_strlit("url");
            reveal_strlit("height");
            reveal_strlit("width");
            reveal_strlit("source");
            assert("title"@.len() == 5 && "title"@[0] == 't');
            assert("image"@.len() == 5 && "image"@[0] == 'i');
            assert("thumbnail"@.len() == 9);
            assert("url"@.len() == 3);
            assert("height"@.len() == 6 && "height"@[0] == 'h');
            assert("width"@.len() == 5 && "width"@[0] == 'w');
            assert("source"@.len() == 6 && "source"@[0] == 's');
            lemma_lookup_finds(entries@, "title"@, 0);
            lemma_lookup_finds(entries@, "image"@, 1);
            lemma_lookup_finds(entries@, "thumbnail"@, 2);
            lemma_lookup_finds(entries@, "url"@, 3);
            lemma_lookup_finds(entries@, "height"@, 4);
            lemma_lookup_finds(entries@, "width"@, 5);
            lemma_lookup_finds(entries@, "source"@, 6);
        }
        Json::Object(entries)
    }

    /// Reads an image hit from a JSON item, with the documented default for
    /// every field that is missing or has another type.
    pub fn from_json(item: &Json) -> (hit: ImageResult)
        ensures
            hit@ == image_of(*item),
    {
        ImageResult {
            title: item.str_field("title"),
            image: item.str_field("image"),
            thumbnail: item.str_field("thumbnail"),
            url: item.str_field("url"),
            height: (item.u64_field("height") % 0x1_0000_0000) as u32,
            width: (item.u64_field("width") % 0x1_0000_0000) as u32,
            source: item.str_field("source"),
        }
    }
}

impl NewsResult {
    /// Writes the hit as a JSON object with the field names of the feed.
    pub fn to_json(&self) -> (item: Json)
        ensures
            writes_news(item, self@),
            item.wf(),
    {
        let mut entries: Vec<(String, Json)> = Vec::new();
        entries.push(text_member("date", &self.date));
        entries.push(text_member("title", &self.title));
        entries.push(text_member("excerpt", &self.body));
        entries.push(text_member("url", &self.url));
        entries.push(text_member("source", &self.source));
        match &self.image {
            Some(image) => {
                entries.push(text_member("image", image));
            },
            None => {},
        }
        proof {
            reveal_strlit("date");
            reveal_strlit("title");
            reveal_strlit("excerpt");
            reveal_strlit("url");
            reveal_strlit("source");
            reveal_strlit("image");
            assert("date"@.len() == 4);
            assert("title"@.len() == 5 && "title"@[0] == 't');
            assert("excerpt"@.len() == 7);
            assert("url"@.len() == 3);
            assert("source"@.len() == 6);
            assert("image"@.len() == 5 && "image"@[0] == 'i');
            lemma_lookup_finds(entries@, "date"@, 0);
            lemma_lookup_finds(entries@, "title"@, 1);
            lemma_lookup_finds(entries@, "excerpt"@, 2);
            lemma_lookup_finds(entries@, "url"@, 3);
            lemma_lookup_finds(entries@, "source"@, 4);
            if self.image is Some {
                lemma_lookup_finds(entries@, "image"@, 5);
            } else {
                lemma_lookup_misses(entries@, "image"@);
            }
        }
        Json::Object(entries)
    }

    /// The publication time that the item itself gives, if it gives one.
    fn stated_date(item: &Json) -> (date: Option<String>)
        ensures
            date is None <==> news_date_missing(*item),
            forall|now: Seq<char>| date matches Some(text) ==> text@ == #[trigger] news_date(*item, now),
    {
        match item.i64_field("date") {
            Some(seconds) => rfc3339_from_timestamp(seconds),
            None => None,
        }
    }

    /// Reads the fields of a news hit but its date, which is handed in.
    fn dated(item: &Json, date: String) -> (hit: NewsResult)
        ensures
            hit.date == date,
            forall|now: Seq<char>| news_date(*item, now) == date@ ==> hit@ == #[trigger] news_of(*item, now),
    {
        NewsResult {
            date,
            title: item.str_field("title"),
            body: item.str_field("excerpt"),
            url: item.str_field("url"),
            image: item.optional_str_field("image"),
            source: item.str_field("source"),
        }
    }

    /// Reads a news hit from a JSON item. `now` stands in for a publication
    /// time that is missing or unusable.
    pub fn from_json_at(item: &Json, now: &str) -> (hit: NewsResult)
        ensures
            hit@ == news_of(*item, now@),
    {
        let date = match Self::stated_date(item) {
            Some(text) => text,
            None => String::from_str(now),
        };
        assert(news_date(*item, now@) == date@);
        Self::dated(item, date)
    }

    /// Reads a news hit from a JSON item. The time of reading, as the clock
    /// gives it, stands in for a publication time that is missing or
    /// unusable: the date is then an RFC 3339 date and time in UTC. Every
    /// other field, and a date that the item gives, is fixed by the item.
    pub fn from_json(item: &Json) -> (hit: NewsResult)
        ensures
            hit@ == news_of(*item, hit.date@),
            news_date_missing(*item) ==> is_utc_stamp(hit.date@),
            !news_date_missing(*item) ==> forall|now: Seq<char>| hit@ == #[trigger] news_of(*item, now),
    {
        let date = match Self::stated_date(item) {
            Some(text) => text,
            None => rfc3339_now(),
        };
        assert(news_date(*item, date@) == date@);
        Self::dated(item, date)
    }
}

} // verus!
