use vstd::prelude::*;

verus! {

/// Relies on scraper::Html, the parsed markup tree; opaque here, queried
/// only through the functions below.
#[verifier::external_type_specification]
#[verifier::external_body]
pub struct ExHtml(scraper::Html);

/// Whether a selector string is a syntactically valid CSS selector group,
/// as `scraper::Selector::parse` decides it.
pub uninterp spec fn valid_selector(sel: Seq<char>) -> bool;

/// The number of elements matching `sel`, in document order, in the document
/// parsed from `html`.
pub uninterp spec fn doc_matches(html: Seq<char>, sel: Seq<char>) -> int;

/// The number of matches of `sub` scoped to one element of the document
/// parsed from `html`. The element is addressed by taking the `i`-th match
/// of `sel` in document order, then, for each selector of `within` in turn,
/// the first match scoped to the element so far.
pub uninterp spec fn elem_matches(
    html: Seq<char>,
    sel: Seq<char>,
    i: int,
    within: Seq<Seq<char>>,
    sub: Seq<char>,
) -> int;

/// The value of attribute `attr` on the element addressed by
/// (`sel`, `i`, `within`), or `None` when the element has no such attribute.
pub uninterp spec fn elem_attr(
    html: Seq<char>,
    sel: Seq<char>,
    i: int,
    within: Seq<Seq<char>>,
    attr: Seq<char>,
) -> Option<Seq<char>>;

/// The first descendant text chunk of the element addressed by
/// (`sel`, `i`, `within`), or `None` when it has none.
pub uninterp spec fn elem_text(
    html: Seq<char>,
    sel: Seq<char>,
    i: int,
    within: Seq<Seq<char>>,
) -> Option<Seq<char>>;

/// The views of a list of selector strings.
pub open spec fn views_of(ss: Seq<&str>) -> Seq<Seq<char>> {
    ss.map_values(|s: &str| s@)
}

/// Every selector of the list is valid.
pub open spec fn all_valid(within: Seq<Seq<char>>) -> bool {
    forall|k: int| 0 <= k < within.len() ==> valid_selector(#[trigger] within[k])
}

/// The element addressed by (`sel`, `i`, `within`) exists.
pub open spec fn elem_exists(
    html: Seq<char>,
    sel: Seq<char>,
    i: int,
    within: Seq<Seq<char>>,
) -> bool
    decreases within.len(),
{
    if within.len() == 0 {
        0 <= i < doc_matches(html, sel)
    } else {
        &&& elem_exists(html, sel, i, within.drop_last())
        &&& elem_matches(html, sel, i, within.drop_last(), within.last()) > 0
    }
}

/// The view of an optional owned string.
pub open spec fn opt_view(r: Option<String>) -> Option<Seq<char>> {
    match r {
        Some(s) => Some(s@),
        None => None,
    }
}

/// A parsed markup document, queried through selector-based lookups. The
/// parse does not fail hard: any input yields a document.
pub struct Document {
    src: String,
    tree: scraper::Html,
}

impl View for Document {
    type V = Seq<char>;

    closed spec fn view(&self) -> Seq<char> {
        self.src@
    }
}

impl Document {
    /// Relies on scraper::Html::parse_document: parses the text into a tree;
    /// the tree is a function of the text alone, and the document keeps the
    /// text it was parsed from as its view.
    #[verifier::external_body]
    pub fn parse(html: &str) -> (d: Document)
        ensures
            d@ == html@,
    {
        Document { src: html.to_owned(), tree: scraper::Html::parse_document(html) }
    }
}

/// Relies on scraper::Selector::parse: whether the selector group parses.
#[verifier::external_body]
pub fn check_selector(sel: &str) -> (r: bool)
    ensures
        r == valid_selector(sel@),
{
    scraper::Selector::parse(sel).is_ok()
}

/// Relies on scraper::Html::select: how many elements of the document match
/// `sel`, in document order.
#[verifier::external_body]
pub fn doc_count(doc: &Document, sel: &str) -> (n: usize)
    requires
        valid_selector(sel@),
    ensures
        n == doc_matches(doc@, sel@),
{
    let s = scraper::Selector::parse(sel).unwrap();
    doc.tree.select(&s).count()
}

/// Relies on scraper::Html::select and scraper::ElementRef::select: the
/// number of matches of `sub` scoped to the element addressed by
/// (`sel`, `i`, `within`).
#[verifier::external_body]
pub fn elem_count(doc: &Document, sel: &str, i: usize, within: &Vec<&str>, sub: &str) -> (n: usize)
    requires
        valid_selector(sel@),
        all_valid(views_of(within@)),
        valid_selector(sub@),
        elem_exists(doc@, sel@, i as int, views_of(within@)),
    ensures
        n == elem_matches(doc@, sel@, i as int, views_of(within@), sub@),
{
    let s = scraper::Selector::parse(sel).unwrap();
    let mut cur = doc.tree.select(&s).nth(i).unwrap();
    for w in within.iter() {
        let ws = scraper::Selector::parse(w).unwrap();
        cur = cur.select(&ws).next().unwrap();
    }
    let subs = scraper::Selector::parse(sub).unwrap();
    cur.select(&subs).count()
}

/// Relies on scraper::ElementRef::attr: the value of attribute `attr` on the
/// element addressed by (`sel`, `i`, `within`).
#[verifier::external_body]
pub fn elem_attr_of(
    doc: &Document,
    sel: &str,
    i: usize,
    within: &Vec<&str>,
    attr: &str,
) -> (r: Option<String>)
    requires
        valid_selector(sel@),
        all_valid(views_of(within@)),
        elem_exists(doc@, sel@, i as int, views_of(within@)),
    ensures
        opt_view(r) == elem_attr(doc@, sel@, i as int, views_of(within@), attr@),
{
    let s = scraper::Selector::parse(sel).unwrap();
    let mut cur = doc.tree.select(&s).nth(i).unwrap();
    for w in within.iter() {
        let ws = scraper::Selector::parse(w).unwrap();
        cur = cur.select(&ws).next().unwrap();
    }
    cur.attr(attr).map(|v| v.to_string())
}

/// Relies on scraper::ElementRef::text: the first descendant text chunk of
/// the element addressed by (`sel`, `i`, `within`).
#[verifier::external_body]
pub fn elem_text_of(doc: &Document, sel: &str, i: usize, within: &Vec<&str>) -> (r: Option<String>)
    requires
        valid_selector(sel@),
        all_valid(views_of(within@)),
        elem_exists(doc@, sel@, i as int, views_of(within@)),
    ensures
        opt_view(r) == elem_text(doc@, sel@, i as int, views_of(within@)),
{
    let s = scraper::Selector::parse(sel).unwrap();
    let mut cur = doc.tree.select(&s).nth(i).unwrap();
    for w in within.iter() {
        let ws = scraper::Selector::parse(w).unwrap();
        cur = cur.select(&ws).next().unwrap();
    }
    cur.text().next().map(|t| t.to_string())
}

} // verus!
