//! Building request targets for the remote control API.
//!
//! The configured base address may or may not already carry the fixed
//! API-version path segment, so every operation is issued against an ordered
//! list of candidate URLs: the base as given, then the base with the segment
//! appended (unless already present).

use vstd::prelude::*;

use crate::strutil::{
    concat2, concat3, concat4, is_suffix_of, str_ends_with, trim_end_slashes, trim_start_slashes,
    trimmed_end_slashes, trimmed_start_slashes,
};

verus! {

/// The base address normalized to end in the API-version segment:
/// trailing slashes are dropped, and `/v1/api` is appended unless the
/// trimmed base already ends with it.
pub open spec fn spec_v1_base(base: Seq<char>) -> Seq<char> {
    let b = trimmed_end_slashes(base);
    if is_suffix_of("/v1/api"@, b) {
        b
    } else {
        b + "/v1/api"@
    }
}

/// The ordered candidate URLs for one operation: the trimmed base joined
/// with the path as given, then (when the base does not already end in the
/// version segment) the same with `/v1/api` interposed.
pub open spec fn spec_candidate_urls(base: Seq<char>, path: Seq<char>) -> Seq<Seq<char>> {
    let b = trimmed_end_slashes(base);
    let p = trimmed_start_slashes(path);
    if is_suffix_of("/v1/api"@, b) {
        seq![b + "/"@ + p]
    } else {
        seq![b + "/"@ + p, b + "/v1/api/"@ + p]
    }
}

/// Normalizes the configured base address to its API-version root.
pub fn v1_base(base: &str) -> (r: String)
    ensures
        r@ == spec_v1_base(base@),
{
    let b = trim_end_slashes(base);
    if str_ends_with(b, "/v1/api") {
        b.to_owned()
    } else {
        concat2(b, "/v1/api")
    }
}

/// The ordered candidate URLs tried for one operation; the first reachable,
/// successful candidate wins.
pub fn candidate_urls(base: &str, path: &str) -> (r: Vec<String>)
    ensures
        r@.len() == spec_candidate_urls(base@, path@).len(),
        forall|i: int| 0 <= i < r@.len() ==> r@[i]@ == spec_candidate_urls(base@, path@)[i],
{
    let b = trim_end_slashes(base);
    let p = trim_start_slashes(path);
    let mut v: Vec<String> = Vec::new();
    v.push(concat3(b, "/", p));
    if !str_ends_with(b, "/v1/api") {
        v.push(concat4(b, "/v1/api", "/", p));
        proof {
            assert(b@ + "/v1/api"@ + "/"@ + p@ =~= b@ + "/v1/api/"@ + p@) by {
                reveal_strlit("/v1/api");
                reveal_strlit("/");
                reveal_strlit("/v1/api/");
            }
        }
    }
    v
}

} // verus!
