//! The engine's input: an already-tokenized annotation and the declaration it
//! is attached to.
//!
//! A raw nested parameter is whatever was written between the annotation's
//! parentheses at one comma-separated slot. Only two shapes carry meaning for
//! this engine — a bare literal and a `key = literal` pair — and the shape
//! resolver classifies each raw node as one of them, or as unresolvable.

use vstd::prelude::*;

use crate::span::{KVSpanned, KVSpannedView, SourceSpan, Spanned, SpannedView};

verus! {

/// A literal payload: the engine accepts integer and string forms.
#[derive(Clone, PartialEq, Eq, Debug)]
pub enum Literal {
    Int(u128),
    Str(String),
}

/// The view of a [`Literal`].
pub ghost enum LiteralView {
    Int(u128),
    Str(Seq<char>),
}

impl View for Literal {
    type V = LiteralView;

    open spec fn view(&self) -> LiteralView {
        match self {
            Literal::Int(n) => LiteralView::Int(*n),
            Literal::Str(s) => LiteralView::Str(s@),
        }
    }
}

impl DeepView for Literal {
    type V = LiteralView;

    open spec fn deep_view(&self) -> LiteralView {
        self@
    }
}

/// One raw nested parameter, exactly as written at the call site.
#[derive(Clone, PartialEq, Eq, Debug)]
pub enum RawParam {
    /// A bare literal, such as `404`.
    Literal(Spanned<Literal>),
    /// A `key = literal` pair, such as `code = 404`.
    KeyValue(KVSpanned<Literal>),
    /// Anything else — a bare word or a nested list; neither accepted shape.
    Other(SourceSpan),
}

/// The view of a [`RawParam`].
pub ghost enum RawParamView {
    Literal(SpannedView<LiteralView>),
    KeyValue(KVSpannedView<LiteralView>),
    Other(SourceSpan),
}

impl View for RawParam {
    type V = RawParamView;

    open spec fn view(&self) -> RawParamView {
        match self {
            RawParam::Literal(l) => RawParamView::Literal(l@),
            RawParam::KeyValue(kv) => RawParamView::KeyValue(kv@),
            RawParam::Other(sp) => RawParamView::Other(*sp),
        }
    }
}

impl DeepView for RawParam {
    type V = RawParamView;

    open spec fn deep_view(&self) -> RawParamView {
        self@
    }
}

impl RawParamView {
    /// The span covering the whole parameter.
    pub open spec fn spec_span(self) -> SourceSpan {
        match self {
            RawParamView::Literal(l) => l.span,
            RawParamView::KeyValue(kv) => kv.span,
            RawParamView::Other(sp) => sp,
        }
    }
}

impl RawParam {
    /// The span covering the whole parameter.
    pub fn span(&self) -> (sp: SourceSpan)
        ensures
            sp == self@.spec_span(),
    {
        match self {
            RawParam::Literal(l) => l.span,
            RawParam::KeyValue(kv) => kv.span,
            RawParam::Other(sp) => *sp,
        }
    }

    /// Resolves the `key = literal` shape: the pair when the parameter is
    /// one, and nothing otherwise. No diagnostic of its own — callers treat
    /// an unresolvable shape per their own policy.
    pub fn name_value(&self) -> (r: Option<&KVSpanned<Literal>>)
        ensures
            match self@ {
                RawParamView::KeyValue(kv) => r matches Some(p) && p@ == kv,
                _ => r is None,
            },
    {
        match self {
            RawParam::KeyValue(kv) => Some(kv),
            _ => None,
        }
    }

    /// Resolves the bare-integer-literal shape: the integer and its span when
    /// the parameter is one, and nothing otherwise.
    pub fn int_lit(&self) -> (r: Option<Spanned<u128>>)
        ensures
            match self@ {
                RawParamView::Literal(l) => match l.node {
                    LiteralView::Int(n) => r == Some(Spanned { node: n, span: l.span }),
                    _ => r is None,
                },
                _ => r is None,
            },
    {
        match self {
            RawParam::Literal(l) => match l.node {
                Literal::Int(n) => Some(Spanned { node: n, span: l.span }),
                _ => None,
            },
            _ => None,
        }
    }
}

/// Resolves a raw nested parameter as a `key = literal` pair, the shape the
/// second parameter slot must take.
pub fn kv_from_nested(param: &RawParam) -> (r: Option<&KVSpanned<Literal>>)
    ensures
        match param@ {
            RawParamView::KeyValue(kv) => r matches Some(p) && p@ == kv,
            _ => r is None,
        },
{
    param.name_value()
}

/// The arguments of the annotation as the host hands them over: the
/// parenthesized list when the annotation has the `#[name(...)]` form, and
/// `Other` when it is malformed at the top level.
#[derive(Clone, PartialEq, Eq, Debug)]
pub enum MetaItem {
    List(Vec<RawParam>),
    Other,
}

/// The view of a [`MetaItem`].
pub ghost enum MetaItemView {
    List(Seq<RawParamView>),
    Other,
}

impl View for MetaItem {
    type V = MetaItemView;

    open spec fn view(&self) -> MetaItemView {
        match self {
            MetaItem::List(items) => MetaItemView::List(items.deep_view()),
            MetaItem::Other => MetaItemView::Other,
        }
    }
}

/// A reference to the annotated function, carried through into the output
/// record for the code-generation collaborator.
#[derive(Clone, PartialEq, Eq, Debug)]
pub struct Function {
    pub name: String,
    pub span: SourceSpan,
}

/// The view of a [`Function`].
pub ghost struct FunctionView {
    pub name: Seq<char>,
    pub span: SourceSpan,
}

impl View for Function {
    type V = FunctionView;

    open spec fn view(&self) -> FunctionView {
        FunctionView { name: self.name@, span: self.span }
    }
}

/// The annotated declaration: the function it must be, or the span of
/// whatever other item the annotation was wrongly applied to.
#[derive(Clone, PartialEq, Eq, Debug)]
pub enum Declaration {
    Function(Function),
    Other(SourceSpan),
}

/// The view of a [`Declaration`].
pub ghost enum DeclarationView {
    Function(FunctionView),
    Other(SourceSpan),
}

impl View for Declaration {
    type V = DeclarationView;

    open spec fn view(&self) -> DeclarationView {
        match self {
            Declaration::Function(f) => DeclarationView::Function(f@),
            Declaration::Other(sp) => DeclarationView::Other(*sp),
        }
    }
}

impl Function {
    /// Extracts the function from the declaration, or the offending item's
    /// span when the declaration is not a function.
    pub fn from(annotated: &Declaration) -> (r: Result<Function, SourceSpan>)
        ensures
            match annotated@ {
                DeclarationView::Function(f) => r matches Ok(g) && g@ == f,
                DeclarationView::Other(sp) => r == Err::<Function, SourceSpan>(sp),
            },
    {
        match annotated {
            Declaration::Function(f) => Ok(
                Function { name: f.name.clone(), span: f.span },
            ),
            Declaration::Other(sp) => Err(*sp),
        }
    }
}

} // verus!
