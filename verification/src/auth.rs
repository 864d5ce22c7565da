//! The challenge-response authentication header.
//!
//! Every candidate request authenticates as the fixed user `admin` with the
//! configured credential, carried in a standard `Basic` header whose value
//! is the base64 encoding of `admin:<credential>`.

use vstd::prelude::*;

use base64::Engine;

use crate::strutil::concat2;

verus! {

/// The base64 rendering (standard alphabet, padded) of the UTF-8 bytes of
/// a string; a function of the characters alone.
pub uninterp spec fn base64_of(s: Seq<char>) -> Seq<char>;

/// Relies on base64's `Engine::encode` with the `STANDARD` engine (standard
/// alphabet, padded), applied to the string's UTF-8 bytes: the result is a
/// function of the input alone, and an ASCII input of n bytes encodes to
/// 4*ceil(n/3) characters.  The length bound keeps the engine's output-size
/// computation from overflowing.
#[verifier::external_body]
fn b64_encode(s: &str) -> (r: String)
    requires
        s@.len() < 0x0400_0000_0000_0000,
    ensures
        r@ == base64_of(s@),
        vstd::string::is_ascii(s) ==> r@.len() == 4 * ((s@.len() + 2) / 3),
{
    base64::engine::general_purpose::STANDARD.encode(s.as_bytes())
}

/// The value of the authentication header for a configured credential.
pub open spec fn spec_basic_header(pwd: Seq<char>) -> Seq<char> {
    "Basic "@ + base64_of("admin:"@ + pwd)
}

/// Builds the authentication header: absent exactly when no credential is
/// configured, else `Basic` followed by the encoded `admin:<credential>`.
pub fn build_basic_header(password: &Option<String>) -> (r: Option<String>)
    requires
        password matches Some(p) ==> p@.len() < 0x0100_0000_0000_0000,
    ensures
        r is Some <==> password is Some,
        password matches Some(p) ==> r matches Some(h) && h@ == spec_basic_header(p@),
{
    match password {
        None => None,
        Some(pwd) => {
            proof {
                reveal_strlit("admin:");
            }
            let creds = concat2("admin:", pwd.as_str());
            let encoded = b64_encode(creds.as_str());
            Some(concat2("Basic ", encoded.as_str()))
        },
    }
}

} // verus!
