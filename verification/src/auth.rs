//! The HTTP basic-authorization header value a client presents to the
//! mainchain node.

use vstd::prelude::*;
use vstd::string::StringExecFns;

verus! {

/// What base64's standard-alphabet, padded engine encodes the UTF-8
/// bytes of `s` to: a function of the characters alone.
pub uninterp spec fn base64_of(s: Seq<char>) -> Seq<char>;

/// Relies on base64's `STANDARD` engine `encode`: the standard-alphabet,
/// padded encoding of the UTF-8 bytes of `s`, which depends on `s`
/// alone.
#[verifier::external_body]
fn base64_encode(s: &str) -> (r: String)
    ensures
        r@ == base64_of(s@),
{
    base64::engine::Engine::encode(&base64::engine::general_purpose::STANDARD, s)
}

/// The basic-authorization header value for the given credentials:
/// `user:password`, base64-encoded and prefixed with the scheme.
pub fn auth_header_value(user: &str, password: &str) -> (r: String)
    ensures
        r@ == "Basic "@ + base64_of(user@ + ":"@ + password@),
{
    let mut credentials = user.to_owned();
    credentials.append(":");
    credentials.append(password);
    let encoded = base64_encode(credentials.as_str());
    let mut value = "Basic ".to_owned();
    value.append(encoded.as_str());
    value
}

} // verus!
