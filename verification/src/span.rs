//! Source locations and span-carrying wrappers.
//!
//! A [`SourceSpan`] is a half-open byte range into the original source text.
//! Spans ride along with values purely so that diagnostics can point at the
//! place a value was written; they never influence what a value means.

use vstd::prelude::*;

verus! {

/// A half-open range `[lo, hi)` identifying a location in the source text.
#[derive(Clone, Copy, PartialEq, Eq, Structural, Debug)]
pub struct SourceSpan {
    pub lo: usize,
    pub hi: usize,
}

impl SourceSpan {
    /// The zero span: the documented location of sentinel values that were
    /// substituted for input that never carried a usable location.
    pub fn dummy() -> (s: SourceSpan)
        ensures
            s == SourceSpan::spec_dummy(),
    {
        SourceSpan { lo: 0, hi: 0 }
    }

    /// The zero span, as a view.
    pub open spec fn spec_dummy() -> SourceSpan {
        SourceSpan { lo: 0, hi: 0 }
    }
}

/// A value paired with the span it was parsed from.
#[derive(Clone, Copy, PartialEq, Eq, Structural, Debug)]
pub struct Spanned<T> {
    pub node: T,
    pub span: SourceSpan,
}

/// The view of a [`Spanned`] value: the node's own view beside the span.
pub ghost struct SpannedView<T> {
    pub node: T,
    pub span: SourceSpan,
}

impl<T: View> View for Spanned<T> {
    type V = SpannedView<T::V>;

    open spec fn view(&self) -> SpannedView<T::V> {
        SpannedView { node: self.node@, span: self.span }
    }
}

/// A `key = value` pair in which the key, the value, and the pair as a whole
/// each keep the span they were written at.
#[derive(Clone, PartialEq, Eq, Debug)]
pub struct KVSpanned<T> {
    pub key: Spanned<String>,
    pub value: Spanned<T>,
    pub span: SourceSpan,
}

/// The view of a [`KVSpanned`] pair.
pub ghost struct KVSpannedView<T> {
    pub key: SpannedView<Seq<char>>,
    pub value: SpannedView<T>,
    pub span: SourceSpan,
}

impl<T: View> View for KVSpanned<T> {
    type V = KVSpannedView<T::V>;

    open spec fn view(&self) -> KVSpannedView<T::V> {
        KVSpannedView { key: self.key@, value: self.value@, span: self.span }
    }
}

/// Pairs a value with a span, mirroring the construction of a [`Spanned`].
pub fn span<T>(node: T, sp: SourceSpan) -> (r: Spanned<T>)
    ensures
        r.node == node,
        r.span == sp,
{
    Spanned { node, span: sp }
}

/// Pairs a value with the zero span.
pub fn dummy_spanned<T>(node: T) -> (r: Spanned<T>)
    ensures
        r.node == node,
        r.span == SourceSpan::spec_dummy(),
{
    Spanned { node, span: SourceSpan::dummy() }
}

} // verus!
