//! Pure extraction of protocol facts from served markup: the anti-forgery
//! token, the error banner, the verification marker, the raw source and the
//! sanitized content fragment.
use vstd::prelude::*;
use vstd::string::StringExecFns;

use crate::error::Error;
use crate::markup::{
    chars_of, first_attr, first_children, first_match_attr, first_match_children,
    first_match_texts, first_texts, has_match, opt_str, push_char, selector_found, trim,
    trim_of, Fragment, FragmentView,
};

verus! {

/// What a document says about an application error banner.
pub enum Banner {
    /// No banner: the page is an ordinary success page.
    Absent,
    /// A banner without its two-part shape.
    Malformed,
    /// A banner with this title and message, both trimmed and non-empty.
    Shown(Seq<char>, Seq<char>),
}

/// The trimmed form of the first text from index `i` on whose trimmed form is
/// non-empty.
pub open spec fn first_nonblank_from(ts: Seq<Seq<char>>, i: int) -> Option<Seq<char>>
    decreases ts.len() - i,
{
    if i < 0 || i >= ts.len() {
        None
    } else if trim_of(ts[i]).len() > 0 {
        Some(trim_of(ts[i]))
    } else {
        first_nonblank_from(ts, i + 1)
    }
}

pub open spec fn banner_part(html: Seq<char>, selector: Seq<char>) -> Option<Seq<char>> {
    match first_texts(html, selector) {
        Some(ts) => first_nonblank_from(ts, 0),
        None => None,
    }
}

pub open spec fn banner_of(html: Seq<char>) -> Banner {
    match selector_found(html, ".error-message"@) {
        Some(false) => Banner::Absent,
        None => Banner::Malformed,
        Some(true) => match (
            banner_part(html, ".error-message :nth-child(1)"@),
            banner_part(html, ".error-message :nth-child(2)"@),
        ) {
            (Some(t), Some(m)) => Banner::Shown(t, m),
            _ => Banner::Malformed,
        },
    }
}

/// `r` is the failure that banner `b` calls for (`b` is not `Absent`).
pub open spec fn reports_banner<T>(r: Result<T, Error>, b: Banner) -> bool {
    match b {
        Banner::Shown(t, m) => r matches Err(Error::TxtsError { error, message }) && error@ == t
            && message@ == m,
        _ => r matches Err(Error::HtmlParse),
    }
}

pub open spec fn token_of(html: Seq<char>) -> Option<Seq<char>> {
    first_attr(html, "input[name=__RequestVerificationToken]"@, "value"@)
}

pub open spec fn verified_of(html: Seq<char>) -> bool {
    selector_found(html, ".verified-icon"@) == Some(true)
}

/// The first text node of the source container, trimmed.
pub open spec fn raw_source_of(html: Seq<char>) -> Option<Seq<char>> {
    match first_texts(html, "#content"@) {
        Some(ts) => if ts.len() > 0 {
            Some(trim_of(ts[0]))
        } else {
            None
        },
        None => None,
    }
}

pub open spec fn escape_char(c: char) -> Seq<char> {
    if c == '&' {
        "&amp;"@
    } else if c == '\u{a0}' {
        "&nbsp;"@
    } else if c == '<' {
        "&lt;"@
    } else if c == '>' {
        "&gt;"@
    } else {
        seq![c]
    }
}

/// Text as it is serialized inside an ordinary element.
pub open spec fn escaped(t: Seq<char>) -> Seq<char>
    decreases t.len(),
{
    if t.len() == 0 {
        seq![]
    } else {
        escaped(t.drop_last()) + escape_char(t.last())
    }
}

pub open spec fn markup_of(f: FragmentView) -> Seq<char> {
    match f {
        FragmentView::Element { html, .. } => html,
        FragmentView::Text(t) => escaped(t),
        FragmentView::Comment(c) => "<!--"@ + c + "-->"@,
        FragmentView::Other => seq![],
    }
}

pub open spec fn is_header(f: FragmentView) -> bool {
    f matches FragmentView::Element { name, .. } && name == "header"@
}

pub open spec fn is_classed_div(f: FragmentView) -> bool {
    f matches FragmentView::Element { name, flagged, .. } && name == "div"@ && flagged
}

/// Index of the first header child from index `i` on.
pub open spec fn header_from(ch: Seq<FragmentView>, i: int) -> Option<int>
    decreases ch.len() - i,
{
    if i < 0 || i >= ch.len() {
        None
    } else if is_header(ch[i]) {
        Some(i)
    } else {
        header_from(ch, i + 1)
    }
}

/// Child `i` is chrome: the leading header (at `h`) or a classed `div`.
pub open spec fn removable(ch: Seq<FragmentView>, h: int, i: int) -> bool {
    i == h || is_classed_div(ch[i])
}

/// The serialization of the first `n` children, chrome left out.
pub open spec fn rendered(ch: Seq<FragmentView>, h: int, n: int) -> Seq<char>
    decreases n,
{
    if n <= 0 {
        seq![]
    } else {
        rendered(ch, h, n - 1) + if removable(ch, h, n - 1) {
            seq![]
        } else {
            markup_of(ch[n - 1])
        }
    }
}

pub open spec fn content_of(html: Seq<char>) -> Option<Seq<char>> {
    match first_children(html, ".primary-container"@, "class"@) {
        None => None,
        Some(ch) => match header_from(ch, 0) {
            None => None,
            Some(h) => Some(trim_of(rendered(ch, h, ch.len() as int))),
        },
    }
}

/// Whether two texts are equal.
pub(crate) fn same_text(a: &str, b: &str) -> (r: bool)
    ensures
        r == (a@ == b@),
{
    let x = chars_of(a);
    let y = chars_of(b);
    if x.len() != y.len() {
        return false;
    }
    let mut i: usize = 0;
    while i < x.len()
        invariant
            x@ == a@,
            y@ == b@,
            x.len() == y.len(),
            i <= x.len(),
            forall|j: int| 0 <= j < i ==> x@[j] == y@[j],
        decreases x.len() - i,
    {
        if x[i] != y[i] {
            return false;
        }
        i = i + 1;
    }
    assert(a@ =~= b@);
    true
}

fn first_nonblank(texts: &Vec<String>) -> (r: Option<String>)
    ensures
        opt_str(r) == first_nonblank_from(texts.deep_view(), 0),
{
    let ghost ts = texts.deep_view();
    let mut i: usize = 0;
    while i < texts.len()
        invariant
            ts == texts.deep_view(),
            i <= texts.len(),
            first_nonblank_from(ts, 0) == first_nonblank_from(ts, i as int),
        decreases texts.len() - i,
    {
        assert(ts[i as int] == texts@[i as int]@);
        let t = trim(texts[i].as_str());
        if !t.is_empty() {
            return Some(String::from_str(t));
        }
        i = i + 1;
    }
    None
}

fn banner_part_of(html: &str, selector: &str) -> (r: Option<String>)
    ensures
        opt_str(r) == banner_part(html@, selector@),
{
    match first_match_texts(html, selector) {
        Some(texts) => first_nonblank(&texts),
        None => None,
    }
}

/// Fails exactly when the document carries an error banner: with its title
/// and message when it has both parts, else with `HtmlParse`.
pub fn parse_error(html: &str) -> (r: Result<(), Error>)
    ensures
        banner_of(html@) is Absent ==> r is Ok,
        !(banner_of(html@) is Absent) ==> reports_banner(r, banner_of(html@)),
{
    match has_match(html, ".error-message") {
        Some(false) => Ok(()),
        None => Err(Error::HtmlParse),
        Some(true) => {
            let title = banner_part_of(html, ".error-message :nth-child(1)");
            let message = banner_part_of(html, ".error-message :nth-child(2)");
            match (title, message) {
                (Some(error), Some(message)) => Err(Error::TxtsError { error, message }),
                _ => Err(Error::HtmlParse),
            }
        },
    }
}

/// The value of the anti-forgery hidden input.
pub fn find_vrf_token(html: &str) -> (r: Result<String, Error>)
    ensures
        match token_of(html@) {
            Some(t) => r matches Ok(s) && s@ == t,
            None => r matches Err(Error::HtmlParse),
        },
{
    match first_match_attr(html, "input[name=__RequestVerificationToken]", "value") {
        Some(t) => Ok(t),
        None => Err(Error::HtmlParse),
    }
}

/// Whether the verification marker occurs anywhere in the document.
pub fn is_verified(html: &str) -> (r: bool)
    ensures
        r == verified_of(html@),
{
    match has_match(html, ".verified-icon") {
        Some(found) => found,
        None => false,
    }
}

/// The raw source text of an edit view.
pub fn extract_raw_source(html: &str) -> (r: Result<String, Error>)
    ensures
        match raw_source_of(html@) {
            Some(s) => r matches Ok(x) && x@ == s,
            None => r matches Err(Error::HtmlParse),
        },
{
    match first_match_texts(html, "#content") {
        Some(texts) => {
            if texts.len() == 0 {
                Err(Error::HtmlParse)
            } else {
                assert(texts.deep_view()[0] == texts@[0]@);
                Ok(String::from_str(trim(texts[0].as_str())))
            }
        },
        None => Err(Error::HtmlParse),
    }
}

/// Appends the serialization of text `t` to `out`.
fn append_escaped(out: &mut String, t: &str)
    ensures
        final(out)@ == old(out)@ + escaped(t@),
{
    let cs = chars_of(t);
    let mut i: usize = 0;
    while i < cs.len()
        invariant
            cs@ == t@,
            i <= cs.len(),
            out@ == old(out)@ + escaped(cs@.subrange(0, i as int)),
        decreases cs.len() - i,
    {
        let c = cs[i];
        assert(cs@.subrange(0, i + 1).drop_last() == cs@.subrange(0, i as int));
        if c == '&' {
            out.append("&amp;");
        } else if c == '\u{a0}' {
            out.append("&nbsp;");
        } else if c == '<' {
            out.append("&lt;");
        } else if c == '>' {
            out.append("&gt;");
        } else {
            push_char(out, c);
        }
        proof {
            reveal_strlit("&amp;");
            reveal_strlit("&nbsp;");
            reveal_strlit("&lt;");
            reveal_strlit("&gt;");
        }
        assert(out@ =~= old(out)@ + escaped(cs@.subrange(0, i + 1)));
        i = i + 1;
    }
    assert(cs@.subrange(0, cs.len() as int) == t@);
}

fn is_classed_div_exec(f: &Fragment) -> (r: bool)
    ensures
        r == is_classed_div(f@),
{
    match f {
        Fragment::Element { name, flagged, .. } => *flagged && same_text(name.as_str(), "div"),
        _ => false,
    }
}

fn header_index(ch: &Vec<Fragment>) -> (r: Option<usize>)
    ensures
        match r {
            Some(i) => header_from(ch@.map_values(|f: Fragment| f@), 0) == Some(i as int),
            None => header_from(ch@.map_values(|f: Fragment| f@), 0) is None,
        },
{
    let ghost v = ch@.map_values(|f: Fragment| f@);
    let mut i: usize = 0;
    while i < ch.len()
        invariant
            v == ch@.map_values(|f: Fragment| f@),
            i <= ch.len(),
            header_from(v, 0) == header_from(v, i as int),
        decreases ch.len() - i,
    {
        let hit = match &ch[i] {
            Fragment::Element { name, .. } => same_text(name.as_str(), "header"),
            _ => false,
        };
        if hit {
            return Some(i);
        }
        i = i + 1;
    }
    None
}

/// The page's content: the inner markup of the primary container with the
/// leading header and every classed `div` child left out, trimmed.
pub fn extract_content(html: &str) -> (r: Result<String, Error>)
    ensures
        match content_of(html@) {
            Some(c) => r matches Ok(x) && x@ == c,
            None => r matches Err(Error::HtmlParse),
        },
{
    let ch = match first_match_children(html, ".primary-container", "class") {
        Some(ch) => ch,
        None => return Err(Error::HtmlParse),
    };
    let ghost v = ch@.map_values(|f: Fragment| f@);
    let h = match header_index(&ch) {
        Some(h) => h,
        None => return Err(Error::HtmlParse),
    };
    let mut out = String::new();
    let mut i: usize = 0;
    while i < ch.len()
        invariant
            v == ch@.map_values(|f: Fragment| f@),
            i <= ch.len(),
            out@ == rendered(v, h as int, i as int),
        decreases ch.len() - i,
    {
        if i != h && !is_classed_div_exec(&ch[i]) {
            match &ch[i] {
                Fragment::Element { html, .. } => out.append(html.as_str()),
                Fragment::Text(t) => append_escaped(&mut out, t.as_str()),
                Fragment::Comment(c) => {
                    out.append("<!--");
                    out.append(c.as_str());
                    out.append("-->");
                },
                Fragment::Other => {},
            }
        }
        assert(out@ =~= rendered(v, h as int, i + 1));
        i = i + 1;
    }
    assert(v.len() == ch.len());
    Ok(String::from_str(trim(out.as_str())))
}

/// Chrome never reaches the content: two child lists that agree on which
/// children are chrome, and on every child that is not, render alike, whatever
/// the header and the classed `div`s hold.
pub proof fn lemma_chrome_ignored(a: Seq<FragmentView>, b: Seq<FragmentView>, h: int, n: int)
    requires
        a.len() == b.len(),
        0 <= n <= a.len(),
        forall|i: int|
            0 <= i < a.len() ==> (removable(a, h, i) <==> removable(b, h, i)) && (!removable(
                a,
                h,
                i,
            ) ==> a[i] == b[i]),
    ensures
        rendered(a, h, n) == rendered(b, h, n),
    decreases n,
{
    if n > 0 {
        lemma_chrome_ignored(a, b, h, n - 1);
    }
}

/// Whatever the leading header and the classed `div`s of the primary
/// container hold, the extracted content is the same: two documents whose
/// containers differ only inside those children give equal content.
pub proof fn lemma_content_ignores_chrome(x: Seq<char>, y: Seq<char>)
    requires
        first_children(x, ".primary-container"@, "class"@) is Some,
        first_children(y, ".primary-container"@, "class"@) is Some,
        ({
            let a = first_children(x, ".primary-container"@, "class"@)->0;
            let b = first_children(y, ".primary-container"@, "class"@)->0;
            &&& a.len() == b.len()
            &&& header_from(a, 0) == header_from(b, 0)
            &&& forall|i: int|
                0 <= i < a.len() ==> (is_classed_div(a[i]) <==> is_classed_div(b[i]))
            &&& forall|i: int|
                0 <= i < a.len() && !removable(a, header_from(a, 0)->0, i) ==> a[i] == b[i]
        }),
    ensures
        content_of(x) == content_of(y),
{
    let a = first_children(x, ".primary-container"@, "class"@)->0;
    let b = first_children(y, ".primary-container"@, "class"@)->0;
    if let Some(h) = header_from(a, 0) {
        lemma_chrome_ignored(a, b, h, a.len() as int);
    }
}

/// What `first_nonblank_from` finds is never empty.
pub proof fn lemma_nonblank_nonempty(ts: Seq<Seq<char>>, i: int)
    ensures
        first_nonblank_from(ts, i) matches Some(t) ==> t.len() > 0,
    decreases ts.len() - i,
{
    if 0 <= i < ts.len() && trim_of(ts[i]).len() == 0 {
        lemma_nonblank_nonempty(ts, i + 1);
    }
}

} // verus!
