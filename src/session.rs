//! The session protocol: which URL and form each step needs, and how each
//! served response is classified. The caller performs the requests and hands
//! back status, URLs and body.
use vstd::prelude::*;
use vstd::string::StringExecFns;

use crate::error::{check_username, valid_username, Error};
use crate::extract::{
    banner_of, extract_raw_source, find_vrf_token, parse_error, raw_source_of, reports_banner,
    same_text, token_of, Banner,
};
use crate::page::{parsed_as, Page};

verus! {

/// `rel` resolved against the absolute URL `base`, serialized.
pub uninterp spec fn url_joined(base: Seq<char>, rel: Seq<char>) -> Result<
    Seq<char>,
    url::ParseError,
>;

/// The decoded query pairs of an absolute URL, in order.
pub uninterp spec fn url_query(url: Seq<char>) -> Result<
    Seq<(Seq<char>, Seq<char>)>,
    url::ParseError,
>;

/// The 128-bit value of a UUID in any textual form the `uuid` crate accepts.
pub uninterp spec fn uuid_value(s: Seq<char>) -> Option<u128>;

/// Relies on url's `Url::parse` and `Url::join`: `rel` resolved against `base`.
#[verifier::external_body]
fn join_url(base: &str, rel: &str) -> (r: Result<String, url::ParseError>)
    ensures
        match r {
            Ok(s) => url_joined(base@, rel@) == Ok::<Seq<char>, url::ParseError>(s@),
            Err(e) => url_joined(base@, rel@) == Err::<Seq<char>, url::ParseError>(e),
        },
{
    Ok(url::Url::parse(base)?.join(rel)?.into())
}

/// Relies on url's `Url::parse` and `Url::query_pairs`: the decoded pairs.
#[verifier::external_body]
fn query_pairs(url: &str) -> (r: Result<Vec<(String, String)>, url::ParseError>)
    ensures
        match r {
            Ok(v) => url_query(url@) == Ok::<Seq<(Seq<char>, Seq<char>)>, url::ParseError>(
                v@.map_values(|p: (String, String)| (p.0@, p.1@)),
            ),
            Err(e) => url_query(url@) == Err::<Seq<(Seq<char>, Seq<char>)>, url::ParseError>(e),
        },
{
    let u = url::Url::parse(url)?;
    Ok(u.query_pairs().map(|(k, v)| (k.into_owned(), v.into_owned())).collect())
}

/// Relies on uuid's `Uuid::parse_str` and `Uuid::as_u128`.
#[verifier::external_body]
fn parse_uuid(s: &str) -> (r: Option<u128>)
    ensures
        r == uuid_value(s@),
{
    match uuid::Uuid::parse_str(s) {
        Ok(u) => Some(u.as_u128()),
        Err(_) => None,
    }
}

pub open spec fn page_path(username: Seq<char>) -> Seq<char> {
    "@"@ + username
}

pub open spec fn edit_path(username: Seq<char>) -> Seq<char> {
    "@"@ + username + "/edit"@
}

/// `r` carries the URL `u`, or its parse failure.
pub open spec fn url_outcome(r: Result<String, Error>, u: Result<Seq<char>, url::ParseError>) -> bool {
    match u {
        Ok(s) => r matches Ok(x) && x@ == s,
        Err(e) => r matches Err(Error::UrlParse(x)) && x == e,
    }
}

/// `r` is the transport failure for an unsuccessful `status`.
pub open spec fn status_failure<T>(r: Result<T, Error>, status: u16) -> bool {
    r matches Err(Error::Request { status: Some(x) }) && x == status
}

pub open spec fn success_status(status: u16) -> bool {
    200 <= status < 300
}

/// The value of the first pair from index `i` on whose key is `key`.
pub open spec fn param_from(ps: Seq<(Seq<char>, Seq<char>)>, key: Seq<char>, i: int) -> Option<
    Seq<char>,
>
    decreases ps.len() - i,
{
    if i < 0 || i >= ps.len() {
        None
    } else if ps[i].0 == key {
        Some(ps[i].1)
    } else {
        param_from(ps, key, i + 1)
    }
}

pub open spec fn pairs_view(v: Seq<(String, String)>) -> Seq<(Seq<char>, Seq<char>)> {
    v.map_values(|p: (String, String)| (p.0@, p.1@))
}

fn joined(host: &str, rel: &str) -> (r: Result<String, Error>)
    ensures
        url_outcome(r, url_joined(host@, rel@)),
{
    match join_url(host, rel) {
        Ok(u) => Ok(u),
        Err(e) => Err(Error::UrlParse(e)),
    }
}

/// The URL of a user's rendered page. Nothing is built for an invalid
/// username.
pub fn page_url(host: &str, username: &str) -> (r: Result<String, Error>)
    ensures
        !valid_username(username@) ==> r matches Err(Error::InvalidUsername),
        valid_username(username@) ==> url_outcome(r, url_joined(host@, page_path(username@))),
{
    match check_username(username) {
        Ok(()) => {},
        Err(e) => return Err(e),
    }
    let mut path = String::from_str("@");
    path.append(username);
    proof {
        reveal_strlit("@");
    }
    joined(host, path.as_str())
}

/// The URL of a user's edit view, where the raw source is read and edits are
/// submitted. Nothing is built for an invalid username.
pub fn edit_url(host: &str, username: &str) -> (r: Result<String, Error>)
    ensures
        !valid_username(username@) ==> r matches Err(Error::InvalidUsername),
        valid_username(username@) ==> url_outcome(r, url_joined(host@, edit_path(username@))),
{
    match check_username(username) {
        Ok(()) => {},
        Err(e) => return Err(e),
    }
    let mut path = String::from_str("@");
    path.append(username);
    path.append("/edit");
    proof {
        reveal_strlit("@");
        reveal_strlit("/edit");
    }
    joined(host, path.as_str())
}

/// The URL whose form holds the token for creating a page under `username`.
/// Nothing is built for an invalid username.
pub fn create_url(host: &str, username: &str) -> (r: Result<String, Error>)
    ensures
        !valid_username(username@) ==> r matches Err(Error::InvalidUsername),
        valid_username(username@) ==> url_outcome(r, url_joined(host@, ""@)),
{
    match check_username(username) {
        Ok(()) => {},
        Err(e) => return Err(e),
    }
    joined(host, "")
}

/// The form that creates a page.
pub fn create_form(username: &str, content: &str, token: &str) -> (r: Vec<(String, String)>)
    ensures
        pairs_view(r@) == seq![
            ("username"@, username@),
            ("content"@, content@),
            ("__RequestVerificationToken"@, token@),
        ],
{
    let r = vec![
        (String::from_str("username"), String::from_str(username)),
        (String::from_str("content"), String::from_str(content)),
        (String::from_str("__RequestVerificationToken"), String::from_str(token)),
    ];
    assert(pairs_view(r@) =~= seq![
        ("username"@, username@),
        ("content"@, content@),
        ("__RequestVerificationToken"@, token@),
    ]);
    r
}

/// The form that edits a page; `secret` is the page's secret in text form.
pub fn edit_form(content: &str, secret: &str, token: &str) -> (r: Vec<(String, String)>)
    ensures
        pairs_view(r@) == seq![
            ("content"@, content@),
            ("secret"@, secret@),
            ("__RequestVerificationToken"@, token@),
        ],
{
    let r = vec![
        (String::from_str("content"), String::from_str(content)),
        (String::from_str("secret"), String::from_str(secret)),
        (String::from_str("__RequestVerificationToken"), String::from_str(token)),
    ];
    assert(pairs_view(r@) =~= seq![
        ("content"@, content@),
        ("secret"@, secret@),
        ("__RequestVerificationToken"@, token@),
    ]);
    r
}

/// The anti-forgery token of a served form page; an error banner comes first.
pub fn read_token(body: &str) -> (r: Result<String, Error>)
    ensures
        !(banner_of(body@) is Absent) ==> reports_banner(r, banner_of(body@)),
        banner_of(body@) is Absent ==> match token_of(body@) {
            Some(t) => r matches Ok(x) && x@ == t,
            None => r matches Err(Error::HtmlParse),
        },
{
    match parse_error(body) {
        Ok(()) => find_vrf_token(body),
        Err(e) => Err(e),
    }
}

/// Classifies the answer to a page fetch.
pub fn read_page(status: u16, body: &str, username: &str) -> (r: Result<Page, Error>)
    ensures
        status == 404 ==> r matches Err(Error::NotFound),
        status != 404 && !success_status(status) ==> status_failure(r, status),
        success_status(status) ==> parsed_as(r, body@, username@),
{
    if status == 404 {
        return Err(Error::NotFound);
    }
    if !(200 <= status && status < 300) {
        return Err(Error::Request { status: Some(status) });
    }
    Page::parse(body, String::from_str(username))
}

/// Classifies the answer to a raw-source fetch.
pub fn read_raw_source(status: u16, body: &str) -> (r: Result<String, Error>)
    ensures
        status == 404 ==> r matches Err(Error::NotFound),
        status != 404 && !success_status(status) ==> status_failure(r, status),
        success_status(status) && !(banner_of(body@) is Absent) ==> reports_banner(
            r,
            banner_of(body@),
        ),
        success_status(status) && banner_of(body@) is Absent ==> match raw_source_of(body@) {
            Some(t) => r matches Ok(x) && x@ == t,
            None => r matches Err(Error::HtmlParse),
        },
{
    if status == 404 {
        return Err(Error::NotFound);
    }
    if !(200 <= status && status < 300) {
        return Err(Error::Request { status: Some(status) });
    }
    match parse_error(body) {
        Ok(()) => extract_raw_source(body),
        Err(e) => Err(e),
    }
}

/// A submission answered at its own URL was rejected in place: the banner
/// says why, and without one the rejection is unexplained.
pub open spec fn rejected_as<T>(r: Result<T, Error>, body: Seq<char>) -> bool {
    match banner_of(body) {
        Banner::Absent => r matches Err(Error::UnknownTxtsError),
        b => reports_banner(r, b),
    }
}

fn rejected<T>(body: &str) -> (r: Result<T, Error>)
    ensures
        rejected_as(r, body@),
{
    match parse_error(body) {
        Ok(()) => Err(Error::UnknownTxtsError),
        Err(e) => Err(e),
    }
}

fn find_param(ps: &Vec<(String, String)>, key: &str) -> (r: Option<String>)
    ensures
        crate::markup::opt_str(r) == param_from(pairs_view(ps@), key@, 0),
{
    let ghost v = pairs_view(ps@);
    let mut i: usize = 0;
    while i < ps.len()
        invariant
            v == pairs_view(ps@),
            i <= ps.len(),
            param_from(v, key@, 0) == param_from(v, key@, i as int),
        decreases ps.len() - i,
    {
        if same_text(ps[i].0.as_str(), key) {
            return Some(ps[i].1.clone());
        }
        i = i + 1;
    }
    None
}

/// What answering a creation redirect yields once the secret's value `u` is
/// known: the page parsed from the body, with that secret.
pub open spec fn created_as(
    r: Result<(Page, u128), Error>,
    body: Seq<char>,
    username: Seq<char>,
    u: u128,
) -> bool {
    match r {
        Ok((p, s)) => s == u && parsed_as(Ok(p), body, username),
        Err(e) => parsed_as(Err(e), body, username),
    }
}

/// Classifies the answer to a creation. A redirect away from the request URL
/// is success and must carry a parseable `secret` query parameter; an answer
/// at the request URL is a rejection.
pub fn read_created(
    status: u16,
    request_url: &str,
    final_url: &str,
    body: &str,
    username: &str,
) -> (r: Result<(Page, u128), Error>)
    ensures
        !success_status(status) ==> status_failure(r, status),
        success_status(status) && final_url@ == request_url@ ==> rejected_as(r, body@),
        success_status(status) && final_url@ != request_url@ ==> match url_query(final_url@) {
            Err(e) => r matches Err(Error::UrlParse(x)) && x == e,
            Ok(ps) => match param_from(ps, "secret"@, 0) {
                None => r matches Err(Error::SecretNotPresent),
                Some(text) => match uuid_value(text) {
                    None => r matches Err(Error::UuidParse),
                    Some(u) => created_as(r, body@, username@, u),
                },
            },
        },
{
    if !(200 <= status && status < 300) {
        return Err(Error::Request { status: Some(status) });
    }
    if same_text(final_url, request_url) {
        return rejected(body);
    }
    let ps = match query_pairs(final_url) {
        Ok(ps) => ps,
        Err(e) => return Err(Error::UrlParse(e)),
    };
    let text = match find_param(&ps, "secret") {
        Some(t) => t,
        None => return Err(Error::SecretNotPresent),
    };
    let secret = match parse_uuid(text.as_str()) {
        Some(u) => u,
        None => return Err(Error::UuidParse),
    };
    match Page::parse(body, String::from_str(username)) {
        Ok(page) => Ok((page, secret)),
        Err(e) => Err(e),
    }
}

/// Classifies the answer to an edit. A redirect away from the request URL is
/// success; an answer at the request URL is a rejection.
pub fn read_edited(
    status: u16,
    request_url: &str,
    final_url: &str,
    body: &str,
    username: &str,
) -> (r: Result<Page, Error>)
    ensures
        status == 404 ==> r matches Err(Error::NotFound),
        status != 404 && !success_status(status) ==> status_failure(r, status),
        success_status(status) && final_url@ == request_url@ ==> rejected_as(r, body@),
        success_status(status) && final_url@ != request_url@ ==> parsed_as(r, body@, username@),
{
    if status == 404 {
        return Err(Error::NotFound);
    }
    if !(200 <= status && status < 300) {
        return Err(Error::Request { status: Some(status) });
    }
    if same_text(final_url, request_url) {
        return rejected(body);
    }
    Page::parse(body, String::from_str(username))
}

/// A rejected submission whose answer carries a well-shaped banner is always
/// reported as that banner, never as an unexplained rejection.
pub proof fn lemma_rejection_with_banner<T>(r: Result<T, Error>, body: Seq<char>)
    requires
        rejected_as(r, body),
        banner_of(body) is Shown,
    ensures
        r matches Err(Error::TxtsError { .. }),
        !(r matches Err(Error::UnknownTxtsError)),
{
}

/// A successful creation never drops its secret: whatever comes back `Ok`
/// holds the value of a `secret` query parameter of the final URL that parses
/// as a UUID.
pub proof fn lemma_secret_never_ignored(
    r: Result<(Page, u128), Error>,
    status: u16,
    request_url: Seq<char>,
    final_url: Seq<char>,
    body: Seq<char>,
    username: Seq<char>,
)
    requires
        success_status(status),
        final_url != request_url,
        match url_query(final_url) {
            Err(e) => r matches Err(Error::UrlParse(x)) && x == e,
            Ok(ps) => match param_from(ps, "secret"@, 0) {
                None => r matches Err(Error::SecretNotPresent),
                Some(text) => match uuid_value(text) {
                    None => r matches Err(Error::UuidParse),
                    Some(u) => created_as(r, body, username, u),
                },
            },
        },
        r is Ok,
    ensures
        url_query(final_url) is Ok,
        param_from(url_query(final_url)->Ok_0, "secret"@, 0) is Some,
        uuid_value(param_from(url_query(final_url)->Ok_0, "secret"@, 0)->0) == Some((r->Ok_0).1),
{
}

} // verus!
