//! Hits of the text-only results page.
//!
//! The page lays its results out in table rows. A row yields a hit where it
//! holds a link with a target; the first cell of class `result-snippet` in the
//! row gives the preview text.

use vstd::prelude::*;
use crate::html::{
    attribute_of, css_selector, document_matches, element_attribute, element_text, first_match,
    html_document, parse_document, parse_selector, select_all, select_first, text_of,
};
use crate::limit::{fits, take_count};
use crate::response::{optional_view, LiteSearchResult, LiteView};

verus! {

/// The link of a row.
#[derive(Clone, Debug, PartialEq, Eq)]
pub struct LiteLink {
    /// Text below the anchor.
    pub text: String,
    /// Its `href`, where it has one.
    pub target: Option<String>,
}

/// What a table row holds for the search: its first link and its first snippet cell.
#[derive(Clone, Debug, PartialEq, Eq)]
pub struct LiteRow {
    pub link: Option<LiteLink>,
    pub snippet: Option<String>,
}

/// A link with its texts as character sequences.
pub struct LiteLinkView {
    pub text: Seq<char>,
    pub target: Option<Seq<char>>,
}

/// A row with its texts as character sequences.
pub struct LiteRowView {
    pub link: Option<LiteLinkView>,
    pub snippet: Option<Seq<char>>,
}

impl View for LiteLink {
    type V = LiteLinkView;

    open spec fn view(&self) -> LiteLinkView {
        LiteLinkView { text: self.text@, target: optional_view(self.target) }
    }
}

impl View for LiteRow {
    type V = LiteRowView;

    open spec fn view(&self) -> LiteRowView {
        LiteRowView {
            link: match self.link {
                Some(link) => Some(link@),
                None => None,
            },
            snippet: optional_view(self.snippet),
        }
    }
}

/// The views of a list of rows.
pub open spec fn row_views(rows: Seq<LiteRow>) -> Seq<LiteRowView> {
    Seq::new(rows.len(), |i: int| rows[i]@)
}

/// The views of a list of hits.
pub open spec fn hit_views(hits: Seq<LiteSearchResult>) -> Seq<LiteView> {
    Seq::new(hits.len(), |i: int| hits[i]@)
}

/// Whether a row yields a hit: it has a link, and the link has a target.
pub open spec fn yields_hit(row: LiteRowView) -> bool {
    row.link matches Some(link) && link.target is Some
}

/// The hit of a row that yields one. A row without a snippet cell gives an
/// empty snippet.
pub open spec fn hit_of(row: LiteRowView) -> LiteView {
    LiteView {
        title: row.link->0.text,
        url: row.link->0.target->0,
        snippet: match row.snippet {
            Some(text) => text,
            None => Seq::<char>::empty(),
        },
    }
}

/// The hits of all rows, in the order of the rows.
pub open spec fn all_hits(rows: Seq<LiteRowView>) -> Seq<LiteView>
    decreases rows.len(),
{
    if rows.len() == 0 {
        Seq::<LiteView>::empty()
    } else if yields_hit(rows.last()) {
        all_hits(rows.drop_last()).push(hit_of(rows.last()))
    } else {
        all_hits(rows.drop_last())
    }
}

/// The hits of a page: those of its rows, capped by the limit.
pub open spec fn lite_hits(rows: Seq<LiteRowView>, limit: Option<usize>) -> Seq<LiteView> {
    all_hits(rows).take(take_count(limit, 0, all_hits(rows).len()) as int)
}

/// The selector of the rows: every row of every table.
pub open spec fn row_selector() -> Option<scraper::Selector> {
    css_selector("table tr"@)
}

/// The selector of the links in a row.
pub open spec fn link_selector() -> Option<scraper::Selector> {
    css_selector("a"@)
}

/// The selector of the snippet cells in a row.
pub open spec fn snippet_selector() -> Option<scraper::Selector> {
    css_selector("td.result-snippet"@)
}

/// Whether all three selectors are selectors to `scraper`.
pub open spec fn selectors_parse() -> bool {
    row_selector() is Some && link_selector() is Some && snippet_selector() is Some
}

/// What one row element holds for the search.
pub open spec fn row_of(row: scraper::ElementRef<'_>) -> LiteRowView {
    LiteRowView {
        link: match first_match(row, link_selector()->0) {
            Some(anchor) => Some(
                LiteLinkView { text: element_text(anchor), target: element_attribute(anchor, "href"@) },
            ),
            None => None,
        },
        snippet: match first_match(row, snippet_selector()->0) {
            Some(cell) => Some(element_text(cell)),
            None => None,
        },
    }
}

/// The rows of the page with the given body, in the order in which `scraper`
/// yields them.
pub open spec fn table_rows(body: Seq<char>) -> Seq<LiteRowView> {
    let elements = document_matches(&html_document(body), row_selector()->0);
    Seq::new(elements.len(), |i: int| row_of(elements[i]))
}

/// The hits under a limit are the first of the hits without a limit, and
/// no more of them than the limit says.
pub proof fn lemma_limited_hits_are_a_prefix(rows: Seq<LiteRowView>, most: usize)
    ensures
        lite_hits(rows, Some(most)).len() <= most,
        lite_hits(rows, Some(most)).len() <= lite_hits(rows, None).len(),
        lite_hits(rows, Some(most)) == lite_hits(rows, None).take(lite_hits(rows, Some(most)).len() as int),
{
    assert(lite_hits(rows, None) =~= all_hits(rows));
}

proof fn lemma_all_hits_prefix(rows: Seq<LiteRowView>, n: int)
    requires
        0 <= n <= rows.len(),
    ensures
        all_hits(rows.take(n)).len() <= all_hits(rows).len(),
        all_hits(rows.take(n)) == all_hits(rows).take(all_hits(rows.take(n)).len() as int),
    decreases rows.len() - n,
{
    if n == rows.len() {
        assert(rows.take(n) =~= rows);
        assert(all_hits(rows).take(all_hits(rows).len() as int) =~= all_hits(rows));
    } else {
        lemma_all_hits_prefix(rows, n + 1);
        let longer = rows.take(n + 1);
        assert(longer.drop_last() =~= rows.take(n));
        let short = all_hits(rows.take(n));
        assert(short =~= all_hits(longer).take(short.len() as int));
        assert(short =~= all_hits(rows).take(short.len() as int));
    }
}

/// Reads what one row element holds.
fn read_row(
    row: &scraper::ElementRef<'_>,
    links: &scraper::Selector,
    snippets: &scraper::Selector,
) -> (read: LiteRow)
    requires
        link_selector() == Some(*links),
        snippet_selector() == Some(*snippets),
    ensures
        read@ == row_of(*row),
{
    let link = match select_first(row, links) {
        Some(anchor) => Some(LiteLink { text: text_of(&anchor), target: attribute_of(&anchor, "href") }),
        None => None,
    };
    let snippet = match select_first(row, snippets) {
        Some(cell) => Some(text_of(&cell)),
        None => None,
    };
    LiteRow { link, snippet }
}

/// Parses the body of a results page and reads its table rows, in the order
/// in which `scraper` yields them. `None` comes back only where `scraper`
/// takes one of the three selectors for no selector.
pub fn scan_rows(body: &str) -> (rows: Option<Vec<LiteRow>>)
    ensures
        rows is Some <==> selectors_parse(),
        rows matches Some(read) ==> row_views(read@) == table_rows(body@),
{
    let rows_css = match parse_selector("table tr") {
        Some(selector) => selector,
        None => { return None; },
    };
    let links_css = match parse_selector("a") {
        Some(selector) => selector,
        None => { return None; },
    };
    let snippets_css = match parse_selector("td.result-snippet") {
        Some(selector) => selector,
        None => { return None; },
    };
    let document = parse_document(body);
    let elements = select_all(&document, &rows_css);
    let mut rows: Vec<LiteRow> = Vec::new();
    let mut i: usize = 0;
    while i < elements.len()
        invariant
            i <= elements.len(),
            rows.len() == i,
            link_selector() == Some(links_css),
            snippet_selector() == Some(snippets_css),
            forall|k: int| 0 <= k < i ==> (#[trigger] rows[k])@ == row_of(elements[k]),
        decreases elements.len() - i,
    {
        let row = read_row(&elements[i], &links_css, &snippets_css);
        rows.push(row);
        i += 1;
    }
    assert(row_views(rows@) =~= table_rows(body@));
    Some(rows)
}

/// Turns rows into hits: a row with a link that has a target gives a hit,
/// any other row is passed over. A limit caps the hits: collecting stops
/// once as many are held as the limit allows, and a limit of 0 gives none.
pub fn collect_hits(rows: &Vec<LiteRow>, limit: Option<usize>) -> (hits: Vec<LiteSearchResult>)
    ensures
        hit_views(hits@) == lite_hits(row_views(rows@), limit),
        limit is Some ==> hits.len() <= limit->0,
{
    let ghost views = row_views(rows@);
    let mut hits: Vec<LiteSearchResult> = Vec::new();
    let mut i: usize = 0;
    assert(views.take(0) =~= Seq::<LiteRowView>::empty());
    while i < rows.len() && fits(limit, hits.len())
        invariant
            i <= rows.len(),
            views == row_views(rows@),
            hit_views(hits@) == all_hits(views.take(i as int)),
            limit is Some ==> hits.len() <= limit->0,
        decreases rows.len() - i,
    {
        let row = &rows[i];
        proof {
            assert(views.take(i + 1).drop_last() =~= views.take(i as int));
            assert(views.take(i + 1).last() == row@);
        }
        match &row.link {
            Some(link) => match &link.target {
                Some(target) => {
                    let snippet = match &row.snippet {
                        Some(text) => text.clone(),
                        None => String::new(),
                    };
                    let hit = LiteSearchResult { title: link.text.clone(), url: target.clone(), snippet };
                    assert(hit@ == hit_of(row@));
                    hits.push(hit);
                    assert(hit_views(hits@) =~= all_hits(views.take(i + 1)));
                },
                None => {},
            },
            None => {},
        }
        i += 1;
    }
    proof {
        lemma_all_hits_prefix(views, i as int);
        if i == rows.len() {
            assert(views.take(i as int) =~= views);
        }
        let total = all_hits(views);
        assert(hit_views(hits@) =~= total.take(take_count(limit, 0, total.len()) as int));
    }
    hits
}

} // verus!
