//! The terminal rendering of an instant answer.
//!
//! A rendering is a list of lines. In both layouts the related topics come
//! last, numbered by their place in the answer. A topic without a text of
//! at least one character, or without a URL, is not shown: it gives no
//! lines, and its number is not handed on to the next topic.

use vstd::prelude::*;
use vstd::string::*;
use crate::browser::Browser;
use crate::colors::{reset_sequence, AnsiColor, AnsiStyle};
use crate::response::{Response, ResultFormat};
use crate::text::{decimal, push_decimal};
use crate::topic::Topic;

verus! {

/// The origin that relative image paths are resolved against.
pub open spec fn image_origin() -> Seq<char> {
    "https://duckduckgo.com"@
}

/// The line that closes the block of a topic.
pub open spec fn rule_line() -> Seq<char> {
    "--------------------------------------------"@
}

/// The characters of a list of lines.
pub open spec fn line_views(lines: Seq<String>) -> Seq<Seq<char>> {
    Seq::new(lines.len(), |i: int| lines[i]@)
}

/// Whether a topic is shown: it has a text of at least one character and a URL.
pub open spec fn is_shown(topic: Topic) -> bool {
    topic.text is Some && topic.text->0@.len() > 0 && topic.first_url is Some
}

/// The line that names the image of a topic, where its icon has a path.
pub open spec fn icon_lines(topic: Topic) -> Seq<Seq<char>> {
    match topic.icon {
        Some(icon) => if icon.url@.len() > 0 {
            seq!["Image URL: "@ + image_origin() + icon.url@ + AnsiColor::BrightBlue.code()]
        } else {
            Seq::<Seq<char>>::empty()
        },
        None => Seq::<Seq<char>>::empty(),
    }
}

/// The block of lines of the topic with number `index`: none for a topic
/// that is not shown.
pub open spec fn topic_lines(index: nat, topic: Topic) -> Seq<Seq<char>> {
    if is_shown(topic) {
        seq![
            decimal(index) + ". "@ + topic.text->0@ + " "@ + AnsiColor::BrightGreen.code(),
            "URL: "@ + topic.first_url->0@ + AnsiColor::BrightGreen.code(),
        ] + icon_lines(topic) + seq![rule_line()]
    } else {
        Seq::<Seq<char>>::empty()
    }
}

/// The blocks of the first `count` topics, each under its number, from 1 on.
pub open spec fn topics_lines(topics: Seq<Topic>, count: nat) -> Seq<Seq<char>>
    decreases count,
{
    if count == 0 {
        Seq::<Seq<char>>::empty()
    } else {
        topics_lines(topics, (count - 1) as nat) + topic_lines(count, topics[count - 1])
    }
}

/// How many topics a rendering goes through: all, or as many as the limit allows.
pub open spec fn window(topics: nat, limit: Option<usize>) -> nat {
    match limit {
        Some(most) => if most < topics {
            most as nat
        } else {
            topics
        },
        None => topics,
    }
}

/// The line of a field that is present.
pub open spec fn field_lines(
    label: Seq<char>,
    value: Option<String>,
    color: AnsiColor,
) -> Seq<Seq<char>> {
    match value {
        Some(text) => seq![label + text@ + color.code()],
        None => Seq::<Seq<char>>::empty(),
    }
}

/// The heading line in the given style.
pub open spec fn heading_lines(heading: Option<String>, style: AnsiStyle) -> Seq<Seq<char>> {
    match heading {
        Some(text) => seq![style.code() + text@ + reset_sequence()],
        None => Seq::<Seq<char>>::empty(),
    }
}

/// The line that names the image of the answer, where it has a path.
pub open spec fn image_lines(image: Option<String>) -> Seq<Seq<char>> {
    match image {
        Some(path) => if path@.len() > 0 {
            seq!["Image URL: "@ + image_origin() + path@ + AnsiColor::SkyBlue.code()]
        } else {
            Seq::<Seq<char>>::empty()
        },
        None => Seq::<Seq<char>>::empty(),
    }
}

/// The list layout: the heading, bold and gold, then the topics.
pub open spec fn list_lines(answer: Response, limit: Option<usize>) -> Seq<Seq<char>> {
    heading_lines(answer.heading, AnsiStyle { bold: true, color: Some(AnsiColor::Gold) }) + topics_lines(
        answer.related_topics@,
        window(answer.related_topics@.len(), limit),
    )
}

/// The detailed layout: the heading in bold, the abstract with its source
/// and URL, the image, then the topics.
pub open spec fn detailed_lines(answer: Response, limit: Option<usize>) -> Seq<Seq<char>> {
    heading_lines(answer.heading, AnsiStyle { bold: true, color: None }) + field_lines(
        "Abstract: "@,
        answer.abstract_text,
        AnsiColor::LightGray,
    ) + field_lines("Abstract Source: "@, answer.abstract_source, AnsiColor::Purple) + field_lines(
        "Abstract URL: "@,
        answer.abstract_url,
        AnsiColor::Silver,
    ) + image_lines(answer.image) + topics_lines(
        answer.related_topics@,
        window(answer.related_topics@.len(), limit),
    )
}

/// The rendering of an answer in a layout.
pub open spec fn answer_lines(answer: Response, format: ResultFormat, limit: Option<usize>) -> Seq<Seq<char>> {
    match format {
        ResultFormat::List => list_lines(answer, limit),
        ResultFormat::Detailed => detailed_lines(answer, limit),
    }
}

/// A topic gives lines exactly where it has a text of at least one
/// character and a URL, and then its first line carries its number and
/// that text.
pub proof fn lemma_shown_topic_has_text(index: nat, topic: Topic)
    ensures
        topic_lines(index, topic).len() > 0 <==> topic.text is Some && topic.text->0@.len() > 0
            && topic.first_url is Some,
        topic_lines(index, topic).len() > 0 ==> topic_lines(index, topic)[0] == decimal(index) + ". "@
            + topic.text->0@ + " "@ + AnsiColor::BrightGreen.code(),
{
}

/// Every topic in the window of a rendering either gives no line at all, or
/// is shown under the number of its place with a text of at least one character.
pub proof fn lemma_rendering_shows_nonempty_texts(topics: Seq<Topic>, count: nat, number: nat)
    requires
        1 <= number <= count <= topics.len(),
    ensures
        topic_lines(number, topics[number - 1]).len() == 0 || (topics[number - 1].text is Some
            && topics[number - 1].text->0@.len() > 0 && topic_lines(number, topics[number - 1])[0]
            == decimal(number) + ". "@ + topics[number - 1].text->0@ + " "@ + AnsiColor::BrightGreen.code()),
{
}

/// Makes a line of a label, a value and the code of a colour.
fn field_line(label: &str, value: &str, color: AnsiColor) -> (line: String)
    ensures
        line@ == label@ + value@ + color.code(),
{
    let mut line = String::from_str(label);
    line.append(value);
    line.append(color.escape_code());
    line
}

/// Appends the line of an optional field.
fn push_field(lines: &mut Vec<String>, label: &str, value: &Option<String>, color: AnsiColor)
    ensures
        line_views(final(lines)@) == line_views(old(lines)@) + field_lines(label@, *value, color),
{
    match value {
        Some(text) => {
            lines.push(field_line(label, text.as_str(), color));
        },
        None => {},
    }
    assert(line_views(lines@) =~= line_views(old(lines)@) + field_lines(label@, *value, color));
}

/// Appends the heading line.
fn push_heading(lines: &mut Vec<String>, heading: &Option<String>, style: AnsiStyle)
    ensures
        line_views(final(lines)@) == line_views(old(lines)@) + heading_lines(*heading, style),
{
    match heading {
        Some(text) => {
            let mut line = style.escape_code();
            line.append(text.as_str());
            line.append(AnsiStyle::reset_code());
            lines.push(line);
        },
        None => {},
    }
    assert(line_views(lines@) =~= line_views(old(lines)@) + heading_lines(*heading, style));
}

/// Appends the line of an image path that is not empty.
fn push_image(lines: &mut Vec<String>, path: &str, color: AnsiColor)
    ensures
        line_views(final(lines)@) == line_views(old(lines)@) + (if path@.len() > 0 {
            seq!["Image URL: "@ + image_origin() + path@ + color.code()]
        } else {
            Seq::<Seq<char>>::empty()
        }),
{
    if !path.is_empty() {
        let mut line = String::from_str("Image URL: ");
        line.append("https://duckduckgo.com");
        line.append(path);
        line.append(color.escape_code());
        lines.push(line);
        assert(line_views(lines@) =~= line_views(old(lines)@) + seq![
            "Image URL: "@ + image_origin() + path@ + color.code(),
        ]);
    } else {
        assert(line_views(lines@) =~= line_views(old(lines)@) + Seq::<Seq<char>>::empty());
    }
}

/// Appends the block of a topic.
fn push_topic(lines: &mut Vec<String>, index: usize, topic: &Topic)
    ensures
        line_views(final(lines)@) == line_views(old(lines)@) + topic_lines(index as nat, *topic),
{
    let text = match &topic.text {
        Some(text) => text,
        None => {
            assert(line_views(lines@) =~= line_views(old(lines)@) + topic_lines(index as nat, *topic));
            return ;
        },
    };
    if text.as_str().is_empty() {
        assert(line_views(lines@) =~= line_views(old(lines)@) + topic_lines(index as nat, *topic));
        return ;
    }
    let first_url = match &topic.first_url {
        Some(url) => url,
        None => {
            assert(line_views(lines@) =~= line_views(old(lines)@) + topic_lines(index as nat, *topic));
            return ;
        },
    };
    let mut head = String::new();
    push_decimal(index as u64, &mut head);
    assert(head@ =~= decimal(index as nat));
    head.append(". ");
    head.append(text.as_str());
    head.append(" ");
    head.append(AnsiColor::BrightGreen.escape_code());
    lines.push(head);
    lines.push(field_line("URL: ", first_url.as_str(), AnsiColor::BrightGreen));
    let ghost before_icon = line_views(lines@);
    assert(before_icon =~= line_views(old(lines)@) + seq![
        decimal(index as nat) + ". "@ + text@ + " "@ + AnsiColor::BrightGreen.code(),
        "URL: "@ + first_url@ + AnsiColor::BrightGreen.code(),
    ]);
    match &topic.icon {
        Some(icon) => {
            push_image(lines, icon.url.as_str(), AnsiColor::BrightBlue);
        },
        None => {},
    }
    let ghost with_icon = line_views(lines@);
    assert(with_icon =~= before_icon + icon_lines(*topic));
    lines.push(String::from_str("--------------------------------------------"));
    assert(line_views(lines@) =~= with_icon + seq![rule_line()]);
    assert(line_views(lines@) =~= line_views(old(lines)@) + topic_lines(index as nat, *topic));
}

/// Appends the blocks of the topics in the window.
fn push_topics(lines: &mut Vec<String>, topics: &Vec<Topic>, limit: Option<usize>)
    ensures
        line_views(final(lines)@) == line_views(old(lines)@) + topics_lines(
            topics@,
            window(topics@.len(), limit),
        ),
{
    let count = match limit {
        Some(most) => if most < topics.len() {
            most
        } else {
            topics.len()
        },
        None => topics.len(),
    };
    let mut index: usize = 0;
    assert(line_views(lines@) =~= line_views(old(lines)@) + topics_lines(topics@, 0));
    while index < count
        invariant
            index <= count <= topics.len(),
            line_views(lines@) == line_views(old(lines)@) + topics_lines(topics@, index as nat),
        decreases count - index,
    {
        let ghost so_far = line_views(lines@);
        push_topic(lines, index + 1, &topics[index]);
        index += 1;
        assert(line_views(lines@) =~= line_views(old(lines)@) + topics_lines(topics@, index as nat));
    }
}

impl Browser {
    /// Renders one related topic under the number `index`: its text, its URL,
    /// the image of its icon where the icon has a path, and a closing rule. A
    /// topic without a text of at least one character, or without a URL,
    /// gives no lines.
    pub fn print_related_topic(&self, index: usize, topic: &Topic) -> (lines: Vec<String>)
        ensures
            line_views(lines@) == topic_lines(index as nat, *topic),
    {
        let mut lines: Vec<String> = Vec::new();
        push_topic(&mut lines, index, topic);
        assert(line_views(lines@) =~= topic_lines(index as nat, *topic));
        lines
    }

    /// Renders an answer in the list layout: the heading, then the topics up
    /// to the limit. Every topic in that window keeps the number of its place
    /// in the answer, whether the topics before it are shown or not.
    pub fn print_results_list(
        &self,
        api_response: Response,
        limit: Option<usize>,
    ) -> (lines: Vec<String>)
        ensures
            line_views(lines@) == list_lines(api_response, limit),
    {
        let mut lines: Vec<String> = Vec::new();
        push_heading(&mut lines, &api_response.heading, AnsiStyle { bold: true, color: Some(AnsiColor::Gold) });
        push_topics(&mut lines, &api_response.related_topics, limit);
        assert(line_views(lines@) =~= list_lines(api_response, limit));
        lines
    }

    /// Renders an answer in the detailed layout: the heading, the abstract
    /// with its source and URL, the image, each where present, then the topics
    /// as in the list layout.
    pub fn print_results_detailed(
        &self,
        api_response: Response,
        limit: Option<usize>,
    ) -> (lines: Vec<String>)
        ensures
            line_views(lines@) == detailed_lines(api_response, limit),
    {
        let mut lines: Vec<String> = Vec::new();
        push_heading(&mut lines, &api_response.heading, AnsiStyle { bold: true, color: None });
        push_field(&mut lines, "Abstract: ", &api_response.abstract_text, AnsiColor::LightGray);
        push_field(&mut lines, "Abstract Source: ", &api_response.abstract_source, AnsiColor::Purple);
        push_field(&mut lines, "Abstract URL: ", &api_response.abstract_url, AnsiColor::Silver);
        let ghost before_image = line_views(lines@);
        match &api_response.image {
            Some(path) => {
                push_image(&mut lines, path.as_str(), AnsiColor::SkyBlue);
            },
            None => {},
        }
        assert(line_views(lines@) =~= before_image + image_lines(api_response.image));
        push_topics(&mut lines, &api_response.related_topics, limit);
        assert(line_views(lines@) =~= detailed_lines(api_response, limit));
        lines
    }
}

} // verus!
