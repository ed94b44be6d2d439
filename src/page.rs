//! A page as served: its owner, its verification flag and its content.
use vstd::prelude::*;

use crate::error::Error;
use crate::extract::{
    banner_of, content_of, extract_content, is_verified, parse_error, reports_banner,
    verified_of, Banner,
};

verus! {

/// A user's page. Built only from a served document; a later successful edit
/// replaces `verified` and `html_content`, never `username`.
#[derive(Debug)]
pub struct Page {
    pub username: String,
    pub verified: bool,
    pub html_content: String,
}

/// What parsing a served document yields: the banner's failure when there is
/// a banner, else the verification flag and the sanitized content.
pub open spec fn parsed_as(r: Result<Page, Error>, html: Seq<char>, username: Seq<char>) -> bool {
    match banner_of(html) {
        Banner::Absent => match content_of(html) {
            Some(c) => r matches Ok(p) && p.username@ == username && p.verified == verified_of(
                html,
            ) && p.html_content@ == c,
            None => r matches Err(Error::HtmlParse),
        },
        b => reports_banner(r, b),
    }
}

impl Page {
    /// Reads a page out of a served document. An error banner takes precedence
    /// over everything else; then the verification marker is read and the
    /// content fragment extracted.
    pub fn parse(html: &str, username: String) -> (r: Result<Page, Error>)
        ensures
            parsed_as(r, html@, username@),
    {
        match parse_error(html) {
            Ok(()) => {},
            Err(e) => return Err(e),
        }
        let verified = is_verified(html);
        let html_content = match extract_content(html) {
            Ok(c) => c,
            Err(e) => return Err(e),
        };
        Ok(Page { username, verified, html_content })
    }

    /// Takes over the content and the verification flag of a freshly served
    /// copy of this page.
    pub fn refresh(&mut self, fresh: Page)
        ensures
            final(self).username == old(self).username,
            final(self).verified == fresh.verified,
            final(self).html_content == fresh.html_content,
    {
        self.html_content = fresh.html_content;
        self.verified = fresh.verified;
    }
}

/// An error banner always wins: on a document whose banner has its two-part
/// shape, parsing fails with that banner's title and message, both non-empty,
/// whatever the rest of the document holds.
pub proof fn lemma_banner_wins(r: Result<Page, Error>, html: Seq<char>, username: Seq<char>)
    requires
        parsed_as(r, html, username),
        banner_of(html) is Shown,
    ensures
        r matches Err(Error::TxtsError { error, message }) && error@.len() > 0 && message@.len()
            > 0,
{
    crate::extract::lemma_nonblank_nonempty(
        crate::markup::first_texts(html, ".error-message :nth-child(1)"@)->0,
        0,
    );
    crate::extract::lemma_nonblank_nonempty(
        crate::markup::first_texts(html, ".error-message :nth-child(2)"@)->0,
        0,
    );
}

} // verus!
