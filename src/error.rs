//! The error taxonomy and the username syntax rule.
use vstd::prelude::*;
use vstd::string::StrSliceExecFns;

verus! {

/// Every way an operation of the library can fail.
#[derive(Debug)]
pub enum Error {
    /// The transport failed, or the server answered with a non-success status.
    Request { status: Option<u16> },
    /// The server answered 404.
    NotFound,
    /// The username breaks the syntax rule; nothing was sent.
    InvalidUsername,
    /// The server rendered an error banner with this title and message.
    TxtsError { error: String, message: String },
    /// A submission was rejected in place without an error banner.
    UnknownTxtsError,
    /// An element the protocol relies on is missing from the markup.
    HtmlParse,
    /// A URL could not be parsed or joined.
    UrlParse(url::ParseError),
    /// A redirect signalled success but carried no `secret` parameter.
    SecretNotPresent,
    /// The `secret` parameter is not a UUID.
    UuidParse,
}

#[verifier::external_type_specification]
#[verifier::external_body]
pub struct ExParseError(url::ParseError);

/// Characters a username may hold: ASCII letters, digits, `_` and `.`.
pub open spec fn username_char(c: char) -> bool {
    ('a' <= c && c <= 'z') || ('A' <= c && c <= 'Z') || ('0' <= c && c <= '9') || c == '_'
        || c == '.'
}

/// A username is 3 to 16 characters, each one of `username_char`.
pub open spec fn valid_username(s: Seq<char>) -> bool {
    3 <= s.len() <= 16 && forall|i: int| 0 <= i < s.len() ==> username_char(#[trigger] s[i])
}

/// Accepts exactly the usernames of `valid_username`.
pub fn check_username(username: &str) -> (r: Result<(), Error>)
    ensures
        r is Ok <==> valid_username(username@),
        r is Err ==> r matches Err(Error::InvalidUsername),
{
    let n = username.unicode_len();
    if n < 3 || n > 16 {
        return Err(Error::InvalidUsername);
    }
    let mut i: usize = 0;
    while i < n
        invariant
            n == username@.len(),
            i <= n,
            forall|j: int| 0 <= j < i ==> username_char(#[trigger] username@[j]),
        decreases n - i,
    {
        let c = username.get_char(i);
        if !(('a' <= c && c <= 'z') || ('A' <= c && c <= 'Z') || ('0' <= c && c <= '9') || c
            == '_' || c == '.') {
            return Err(Error::InvalidUsername);
        }
        i = i + 1;
    }
    Ok(())
}

} // verus!
