//! Queries on HTML documents, answered by the `scraper` crate, and the few
//! `std` string operations that the extractor needs.
//!
//! Each query takes the raw markup and parses it; what it answers is named by a
//! specification function of the markup and the selector alone.
use vstd::prelude::*;

verus! {

/// One child node of an element, as the extractor sees it.
#[derive(Debug)]
pub enum Fragment {
    /// An element: its local name, whether it carries the flag attribute the
    /// query asked about, and its serialization including itself.
    Element { name: String, flagged: bool, html: String },
    /// A text node, unescaped.
    Text(String),
    /// A comment, without its delimiters.
    Comment(String),
    /// Any other node; it serializes to nothing inside an element.
    Other,
}

pub enum FragmentView {
    Element { name: Seq<char>, flagged: bool, html: Seq<char> },
    Text(Seq<char>),
    Comment(Seq<char>),
    Other,
}

impl View for Fragment {
    type V = FragmentView;

    open spec fn view(&self) -> FragmentView {
        match self {
            Fragment::Element { name, flagged, html } => FragmentView::Element {
                name: name@,
                flagged: *flagged,
                html: html@,
            },
            Fragment::Text(t) => FragmentView::Text(t@),
            Fragment::Comment(c) => FragmentView::Comment(c@),
            Fragment::Other => FragmentView::Other,
        }
    }
}

pub open spec fn opt_str(o: Option<String>) -> Option<Seq<char>> {
    match o {
        Some(s) => Some(s@),
        None => None,
    }
}

/// Whether some element of the document matches the selector; `None` when the
/// selector does not parse.
pub uninterp spec fn selector_found(html: Seq<char>, selector: Seq<char>) -> Option<bool>;

/// The attribute of the first matching element, if the selector parses, an
/// element matches and it has the attribute.
pub uninterp spec fn first_attr(html: Seq<char>, selector: Seq<char>, attr: Seq<char>) -> Option<
    Seq<char>,
>;

/// The descendant text nodes of the first matching element, in document order.
pub uninterp spec fn first_texts(html: Seq<char>, selector: Seq<char>) -> Option<Seq<Seq<char>>>;

/// The child nodes of the first matching element, in document order.
pub uninterp spec fn first_children(html: Seq<char>, selector: Seq<char>, flag: Seq<char>) -> Option<
    Seq<FragmentView>,
>;

/// The text with leading and trailing whitespace removed.
pub uninterp spec fn trim_of(s: Seq<char>) -> Seq<char>;

/// Relies on scraper's `Selector::parse`, `Html::parse_document` and
/// `Html::select`: whether any element of the document matches.
#[verifier::external_body]
pub(crate) fn has_match(html: &str, selector: &str) -> (r: Option<bool>)
    ensures
        r == selector_found(html@, selector@),
{
    let sel = scraper::Selector::parse(selector).ok()?;
    Some(scraper::Html::parse_document(html).select(&sel).next().is_some())
}

/// Relies on scraper's `Selector::parse`, `Html::select` and `ElementRef::attr`:
/// the attribute of the first matching element.
#[verifier::external_body]
pub(crate) fn first_match_attr(html: &str, selector: &str, attr: &str) -> (r: Option<String>)
    ensures
        opt_str(r) == first_attr(html@, selector@, attr@),
{
    let sel = scraper::Selector::parse(selector).ok()?;
    let doc = scraper::Html::parse_document(html);
    let value = doc.select(&sel).next()?.attr(attr)?;
    Some(value.to_string())
}

/// Relies on scraper's `Selector::parse`, `Html::select` and `ElementRef::text`:
/// the text nodes under the first matching element.
#[verifier::external_body]
pub(crate) fn first_match_texts(html: &str, selector: &str) -> (r: Option<Vec<String>>)
    ensures
        match r {
            Some(v) => first_texts(html@, selector@) == Some(v.deep_view()),
            None => first_texts(html@, selector@) is None,
        },
{
    let sel = scraper::Selector::parse(selector).ok()?;
    let doc = scraper::Html::parse_document(html);
    let texts = doc.select(&sel).next()?.text().map(|t| t.to_string()).collect();
    Some(texts)
}

/// Relies on scraper's `Selector::parse`, `Html::select`, the child nodes of
/// the first matching element and `ElementRef::html` for each element child.
#[verifier::external_body]
pub(crate) fn first_match_children(html: &str, selector: &str, flag: &str) -> (r: Option<
    Vec<Fragment>,
>)
    ensures
        match r {
            Some(v) => first_children(html@, selector@, flag@) == Some(
                v@.map_values(|f: Fragment| f@),
            ),
            None => first_children(html@, selector@, flag@) is None,
        },
{
    let sel = scraper::Selector::parse(selector).ok()?;
    let doc = scraper::Html::parse_document(html);
    let parent = doc.select(&sel).next()?;
    Some(parent.children().map(|n| match (n.value(), scraper::ElementRef::wrap(n)) {
        (scraper::Node::Text(t), _) => Fragment::Text(t.to_string()),
        (scraper::Node::Comment(c), _) => Fragment::Comment(c.to_string()),
        (_, Some(e)) => Fragment::Element { name: e.value().name().to_string(), flagged: e.attr(flag).is_some(), html: e.html() },
        _ => Fragment::Other,
    }).collect())
}

/// Relies on `str::trim`: the text without leading and trailing whitespace.
#[verifier::external_body]
pub(crate) fn trim(s: &str) -> (r: &str)
    ensures
        r@ == trim_of(s@),
{
    s.trim()
}

/// Relies on `str::chars`: the characters of the text, in order.
#[verifier::external_body]
pub(crate) fn chars_of(s: &str) -> (r: Vec<char>)
    ensures
        r@ == s@,
{
    s.chars().collect()
}

/// Relies on `String::push`: appends one character.
#[verifier::external_body]
pub(crate) fn push_char(s: &mut String, c: char)
    ensures
        final(s)@ == old(s)@.push(c),
{
    s.push(c)
}

} // verus!
