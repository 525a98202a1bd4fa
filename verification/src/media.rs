//! The engine's own media-type classification: the top-level type and subtype
//! read out of a `"top/sub"` string, with the registry's verdict on the pair.

use vstd::prelude::*;
use vstd::string::StringExecFns;

verus! {

/// A `top/sub` media-type pair. `known` records whether the media-type
/// registry knows the pair; it decides warning versus silent acceptance and
/// nothing else.
#[derive(Clone, PartialEq, Eq, Debug)]
pub struct MediaType {
    pub top: String,
    pub sub: String,
    pub known: bool,
}

/// The view of a [`MediaType`].
pub ghost struct MediaTypeView {
    pub top: Seq<char>,
    pub sub: Seq<char>,
    pub known: bool,
}

impl View for MediaType {
    type V = MediaTypeView;

    open spec fn view(&self) -> MediaTypeView {
        MediaTypeView { top: self.top@, sub: self.sub@, known: self.known }
    }
}

impl MediaType {
    /// The sentinel substituted when a recognized `format` key carries a
    /// value that fails to parse: any/any, written `*/*`. The registry knows
    /// the any/any pair, so the sentinel is marked known.
    pub open spec fn spec_any() -> MediaTypeView {
        MediaTypeView { top: "*"@, sub: "*"@, known: true }
    }

    /// The any/any sentinel as a value.
    pub fn any() -> (r: MediaType)
        ensures
            r@ == MediaType::spec_any(),
    {
        MediaType { top: String::from_str("*"), sub: String::from_str("*"), known: true }
    }
}

} // verus!
