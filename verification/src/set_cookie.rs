//! The line that hands a secret to the client.

use actix_web::http::CookieBuilder;
use vstd::prelude::*;

verus! {

/// The `Set-Cookie` line of a cookie that has a name and a value and no attribute: the name, an
/// equals sign, the value.
pub open spec fn directive(name: Seq<char>, value: Seq<char>) -> Seq<char> {
    name + seq!['='] + value
}

/// Builds a cookie with `CookieBuilder::new` and `finish`, and formats it with `to_string`. A
/// cookie built this way has no attribute set, so its line is the name, `=` and the value, each
/// written as it was given.
#[verifier::external_body]
pub(crate) fn cookie_directive(name: &str, value: String) -> (line: String)
    ensures
        line@ == directive(name@, value@),
{
    CookieBuilder::new(name, value).finish().to_string()
}

} // verus!
