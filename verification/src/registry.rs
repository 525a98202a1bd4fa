//! The two external registries the engine consults: the status-code registry
//! and the media-type registry (with its grammar). Both are read-only lookups
//! owned by the `rocket` crate; the engine only asks whether a value is known
//! and, for media types, what a string parses to.

use vstd::prelude::*;

verus! {

/// Whether the status-code registry knows `code`.
pub uninterp spec fn code_known(code: u16) -> bool;

/// Relies on `rocket::http::Status::from_code`: it returns `Some` exactly for
/// the status codes of rocket's registry, and depends on the code alone.
#[verifier::external_body]
pub(crate) fn status_code_known(code: u16) -> (r: bool)
    ensures
        r == code_known(code),
{
    rocket::http::Status::from_code(code).is_some()
}

/// What the media-type grammar makes of `s`: nothing when `s` is malformed,
/// and otherwise the top-level type, the subtype, and whether the media-type
/// registry knows the pair.
pub uninterp spec fn media_parse(s: Seq<char>) -> Option<(Seq<char>, Seq<char>, bool)>;

/// Relies on `rocket::http::MediaType`: `from_str` (the grammar; total, no
/// panic), and `top`, `sub` and `is_known` to read the parse apart into plain
/// values. All four depend on the string alone.
#[verifier::external_body]
pub(crate) fn media_type_parse(s: &str) -> (r: Option<(String, String, bool)>)
    ensures
        r is Some <==> media_parse(s@) is Some,
        r matches Some(t) ==> media_parse(s@) == Some((t.0@, t.1@, t.2)),
{
    match <rocket::http::MediaType as core::str::FromStr>::from_str(s) {
        Ok(mt) => {
            let known = mt.is_known();
            Some((mt.top().as_str().to_string(), mt.sub().as_str().to_string(), known))
        },
        Err(_) => None,
    }
}

} // verus!
