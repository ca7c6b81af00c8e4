//! The two kinds of token and the operations on them that the `xsrf` crate provides.
//!
//! A cookie secret is the long-lived value that a client keeps in a cookie; a request token is
//! derived from a secret for one request's rendered output. Both are opaque here. Contracts
//! speak of a token through its string form, which identifies it.

use std::convert::TryFrom;
use vstd::prelude::*;
use vstd::utf8::encode_utf8;
use xsrf::{CookieToken, RequestToken};

verus! {

/// `xsrf::CookieToken`, carried through without looking inside.
#[verifier::external_type_specification]
#[verifier::external_body]
pub struct ExCookieToken(xsrf::CookieToken);

/// `xsrf::RequestToken`, carried through without looking inside.
#[verifier::external_type_specification]
#[verifier::external_body]
pub struct ExRequestToken(xsrf::RequestToken);

/// The string form of a cookie secret, as `CookieToken::to_string` gives it.
pub uninterp spec fn secret_text(secret: CookieToken) -> Seq<char>;

/// The string form of a request token, as `RequestToken::to_string` gives it.
pub uninterp spec fn token_text(token: RequestToken) -> Seq<char>;

/// What `CookieToken::try_from` makes of a cookie value: the string form of the secret that it
/// decodes to, or `None` where it rejects the value.
pub uninterp spec fn parsed_text(value: Seq<char>) -> Option<Seq<char>>;

/// Whether `token` is among the request tokens that `CookieToken::gen_req_token` can hand out
/// for `secret`, both in their string forms.
pub uninterp spec fn derivable(secret: Seq<char>, token: Seq<char>) -> bool;

/// The number of bytes in the string form of a cookie secret.
pub const ENCODED_LEN: usize = 44;

/// The byte `=`, which closes the string form of a cookie secret.
pub const PAD: u8 = 61;

/// A value of full length that does not end in the pad byte. It never stands for a secret: it
/// holds a byte outside the alphabet or a misplaced pad, or it encodes one byte more than a
/// secret has, which the decoder has no room for.
pub open spec fn unpadded(value: Seq<char>) -> bool {
    let bytes = encode_utf8(value);
    bytes.len() == ENCODED_LEN && bytes[ENCODED_LEN - 1] != PAD
}

/// The secret that a cookie value stands for, in its string form; `None` for a malformed value.
pub open spec fn cookie_secret(value: Seq<char>) -> Option<Seq<char>> {
    if unpadded(value) {
        None
    } else {
        parsed_text(value)
    }
}

/// The secret that a request presents: that of its cookie, where it has one and it is well
/// formed.
pub open spec fn presented_secret(presented: Option<Seq<char>>) -> Option<Seq<char>> {
    match presented {
        Some(value) => cookie_secret(value),
        None => None,
    }
}

/// The text of an optional string slice.
pub open spec fn text_of(presented: Option<&str>) -> Option<Seq<char>> {
    match presented {
        Some(value) => Some(value@),
        None => None,
    }
}

/// Calls `CookieToken::new`, which fills a secret with random bytes. No two calls need agree, so
/// the secret itself is left open. What is claimed holds of every secret: its string form is a
/// cookie value that stands for this same secret.
#[verifier::external_body]
pub(crate) fn mint_secret() -> (secret: CookieToken)
    ensures
        cookie_secret(secret_text(secret)) == Some(secret_text(secret)),
{
    CookieToken::new()
}

/// Calls `CookieToken::try_from` on a cookie value and drops the error's detail. The outcome is
/// a function of the value alone and is named by `parsed_text`. Values that are `unpadded` are
/// kept away: on those the decoder either fails or writes past the secret's last byte and
/// panics.
#[verifier::external_body]
pub(crate) fn parse_secret(value: &str) -> (secret: Option<CookieToken>)
    requires
        !unpadded(value@),
    ensures
        match secret {
            Some(s) => parsed_text(value@) == Some(secret_text(s)),
            None => parsed_text(value@) is None,
        },
{
    CookieToken::try_from(value).ok()
}

/// Calls `CookieToken::gen_req_token`, which masks the secret with a fresh random pad. The token
/// differs from call to call; it is always one that belongs to the secret.
#[verifier::external_body]
pub(crate) fn derive_token(secret: &CookieToken) -> (token: RequestToken)
    ensures
        derivable(secret_text(*secret), token_text(token)),
{
    secret.gen_req_token()
}

/// Calls `CookieToken::to_string`, the secret's form as a cookie value.
#[verifier::external_body]
pub(crate) fn secret_string(secret: &CookieToken) -> (text: String)
    ensures
        text@ == secret_text(*secret),
{
    secret.to_string()
}

/// Reads a cookie value as a secret. A malformed value gives `None`; it is never an error and
/// never a panic, whatever the client sent.
pub fn secret_from_cookie(value: &str) -> (secret: Option<CookieToken>)
    ensures
        match secret {
            Some(s) => cookie_secret(value@) == Some(secret_text(s)),
            None => cookie_secret(value@) is None,
        },
{
    let bytes = value.as_bytes();
    if bytes.len() == ENCODED_LEN && bytes[ENCODED_LEN - 1] != PAD {
        None
    } else {
        parse_secret(value)
    }
}

} // verus!
