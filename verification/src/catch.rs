//! The `catch` attribute's parameter engine: arity validation, the code-value
//! parser, the format slot, and the assembly of the final record.

use vstd::prelude::*;
use vstd::string::StringExecFns;

use crate::ast::{
    Declaration, DeclarationView, Function, FunctionView, Literal, LiteralView, MetaItem,
    MetaItemView, RawParam, RawParamView, kv_from_nested,
};
use crate::common::{format_diags, format_value, parse_format, parse_opt};
use crate::diag::{error_at, error_with_help, warning_at, DiagnosticSink, DiagnosticView};
use crate::media::{MediaType, MediaTypeView};
use crate::registry::{code_known, status_code_known};
use crate::span::{dummy_spanned, span, KVSpanned, KVSpannedView, SourceSpan, Spanned, SpannedView};

verus! {

/// The message of the range error for a code outside `[400, 599]`.
pub open spec fn msg_code_range() -> Seq<char> {
    "code must be >= 400 and <= 599"@
}

/// The message of the warning for an in-range code the registry does not know.
pub open spec fn msg_code_unknown() -> Seq<char> {
    "status code is unknown"@
}

/// The message of the error for a first parameter keyed other than `code`.
pub open spec fn msg_first_key() -> Seq<char> {
    "the first key, if any, must be 'code'"@
}

/// The message of the error for a `code` key whose value is not an integer.
pub open spec fn msg_code_not_int() -> Seq<char> {
    "`code` value must be an integer"@
}

/// The message of the error for a first parameter of neither accepted shape.
pub open spec fn msg_code_shape() -> Seq<char> {
    "expected `code = int` or an integer literal"@
}

/// The help text beside [`msg_code_shape`].
pub open spec fn help_code_shape() -> Seq<char> {
    "you can specify the code directly as an integer, e.g: #[catch(404)], or as a key-value pair, e.g: #[catch(code = 404)]"@
}

/// The message of the error for a second parameter keyed other than `format`.
pub open spec fn msg_unknown_param(key: Seq<char>) -> Seq<char> {
    "'"@ + key + "' is not a known parameter"@
}

/// The message of the first error when the annotated item is not a function.
pub open spec fn msg_only_functions() -> Seq<char> {
    "this attribute can only be used on functions..."@
}

/// The message of the second error when the annotated item is not a function.
pub open spec fn msg_applied_above() -> Seq<char> {
    "...but was applied to the item above."@
}

/// The message of the first error for an annotation malformed at the top level.
pub open spec fn msg_incorrect_use() -> Seq<char> {
    "incorrect use of attribute"@
}

/// The help text beside [`msg_incorrect_use`].
pub open spec fn help_attr_form() -> Seq<char> {
    "attributes in Rocket must have the form: #[name(...)]"@
}

/// The message of the second error for a malformed annotation.
pub open spec fn msg_malformed_attr() -> Seq<char> {
    "malformed attribute"@
}

/// The message of the structural error for an empty parameter list.
pub open spec fn msg_min_params() -> Seq<char> {
    "requires at least one parameter"@
}

/// The message of the structural error for more than two parameters.
pub open spec fn msg_max_params() -> Seq<char> {
    "accepts at most two parameters"@
}

/// The code value an integer `n` yields: `n` itself when `400 <= n <= 599`,
/// and the sentinel `0` otherwise, both at the literal's span.
pub open spec fn code_from_int_value(n: u128, sp: SourceSpan) -> SpannedView<u16> {
    if n < 400 || n > 599 {
        SpannedView { node: 0u16, span: sp }
    } else {
        SpannedView { node: n as u16, span: sp }
    }
}

/// The diagnostics an integer code yields: one range error outside
/// `[400, 599]`, one warning for an in-range code the registry does not know,
/// and nothing for a known in-range code.
pub open spec fn code_from_int_diags(n: u128, sp: SourceSpan) -> Seq<DiagnosticView> {
    if n < 400 || n > 599 {
        seq![error_at(sp, msg_code_range())]
    } else if !code_known(n as u16) {
        seq![warning_at(sp, msg_code_unknown())]
    } else {
        Seq::<DiagnosticView>::empty()
    }
}

/// The sentinel code at the zero span: what the code parser yields when no
/// integer was obtained at all.
pub open spec fn code_sentinel() -> SpannedView<u16> {
    SpannedView { node: 0u16, span: SourceSpan::spec_dummy() }
}

/// The code value the first parameter yields. An integer is accepted both
/// bare and as `code = integer`; every other shape yields the sentinel `0`.
pub open spec fn code_value(p: RawParamView) -> SpannedView<u16> {
    match p {
        RawParamView::KeyValue(kv) => if kv.key.node == "code"@ {
            match kv.value.node {
                LiteralView::Int(n) => code_from_int_value(n, kv.value.span),
                LiteralView::Str(_) => code_sentinel(),
            }
        } else {
            code_sentinel()
        },
        RawParamView::Literal(l) => match l.node {
            LiteralView::Int(n) => code_from_int_value(n, l.span),
            LiteralView::Str(_) => code_sentinel(),
        },
        RawParamView::Other(_) => code_sentinel(),
    }
}

/// The diagnostics the code parser emits beside [`code_value`].
pub open spec fn code_diags(p: RawParamView) -> Seq<DiagnosticView> {
    match p {
        RawParamView::KeyValue(kv) => if kv.key.node == "code"@ {
            match kv.value.node {
                LiteralView::Int(n) => code_from_int_diags(n, kv.value.span),
                LiteralView::Str(_) => seq![error_at(kv.value.span, msg_code_not_int())],
            }
        } else {
            seq![error_at(kv.span, msg_first_key())]
        },
        RawParamView::Literal(l) => match l.node {
            LiteralView::Int(n) => code_from_int_diags(n, l.span),
            LiteralView::Str(_) => seq![error_with_help(l.span, msg_code_shape(), help_code_shape())],
        },
        RawParamView::Other(sp) => seq![error_with_help(sp, msg_code_shape(), help_code_shape())],
    }
}

/// Validates an integer code: in range and known is silently accepted, in
/// range but unknown is accepted with a warning, out of range is a
/// recoverable error answered with the sentinel `0` at the literal's span.
fn code_from_int(sink: &mut DiagnosticSink, n: u128, sp: SourceSpan) -> (r: Spanned<u16>)
    ensures
        r@ == code_from_int_value(n, sp),
        final(sink)@ == old(sink)@ + code_from_int_diags(n, sp),
{
    if n < 400 || n > 599 {
        sink.span_err(sp, "code must be >= 400 and <= 599");
        proof {
            assert(sink@ =~= old(sink)@ + code_from_int_diags(n, sp));
        }
        span(0u16, sp)
    } else if !status_code_known(n as u16) {
        sink.span_warn(sp, "status code is unknown");
        proof {
            assert(sink@ =~= old(sink)@ + code_from_int_diags(n, sp));
        }
        span(n as u16, sp)
    } else {
        proof {
            assert(sink@ =~= old(sink)@ + code_from_int_diags(n, sp));
        }
        span(n as u16, sp)
    }
}

/// Parses the first parameter as the status code. Every failure here is
/// recoverable: the sentinel `0` stands in and processing continues.
fn parse_code(sink: &mut DiagnosticSink, meta_item: &RawParam) -> (r: Spanned<u16>)
    ensures
        r@ == code_value(meta_item@),
        final(sink)@ == old(sink)@ + code_diags(meta_item@),
{
    let sp = meta_item.span();
    if let Some(kv) = meta_item.name_value() {
        if !(kv.key.node == String::from_str("code")) {
            sink.span_err(sp, "the first key, if any, must be 'code'");
            proof {
                assert(sink@ =~= old(sink)@ + code_diags(meta_item@));
            }
        } else if let Literal::Int(n) = kv.value.node {
            return code_from_int(sink, n, kv.value.span);
        } else {
            sink.span_err(kv.value.span, "`code` value must be an integer");
            proof {
                assert(sink@ =~= old(sink)@ + code_diags(meta_item@));
            }
        }
    } else if let Some(n) = meta_item.int_lit() {
        return code_from_int(sink, n.node, n.span);
    } else {
        sink.span_err_help(
            sp,
            "expected `code = int` or an integer literal",
            "you can specify the code directly as an integer, e.g: #[catch(404)], or as a key-value pair, e.g: #[catch(code = 404)]",
        );
        proof {
            assert(sink@ =~= old(sink)@ + code_diags(meta_item@));
        }
    }
    dummy_spanned(0u16)
}

/// The format slot of the record: present exactly when two parameters were
/// supplied and the second is keyed `format`, in which case it carries the
/// parsed classification or the any/any sentinel.
pub open spec fn format_opt(ps: Seq<RawParamView>) -> Option<KVSpannedView<MediaTypeView>> {
    if ps.len() == 2 {
        match ps[1] {
            RawParamView::KeyValue(kv) => if kv.key.node == "format"@ {
                Some(
                    KVSpannedView {
                        key: kv.key,
                        value: SpannedView { node: format_value(kv), span: kv.value.span },
                        span: kv.span,
                    },
                )
            } else {
                None
            },
            _ => None,
        }
    } else {
        None
    }
}

/// The diagnostics the format slot emits beside [`format_opt`]. A second
/// parameter that resolves to neither accepted shape is silently treated as
/// absent.
pub open spec fn format_list_diags(ps: Seq<RawParamView>) -> Seq<DiagnosticView> {
    if ps.len() == 2 {
        match ps[1] {
            RawParamView::KeyValue(kv) => if kv.key.node == "format"@ {
                format_diags(kv)
            } else {
                seq![error_at(kv.span, msg_unknown_param(kv.key.node))]
            },
            _ => Seq::<DiagnosticView>::empty(),
        }
    } else {
        Seq::<DiagnosticView>::empty()
    }
}

/// The view of an optional format slot.
pub open spec fn opt_kv_view(r: Option<KVSpanned<MediaType>>) -> Option<
    KVSpannedView<MediaTypeView>,
> {
    match r {
        Some(kv) => Some(kv@),
        None => None,
    }
}

/// Resolves the second parameter, when there is one, as the `format` slot.
fn local_parse_format(sink: &mut DiagnosticSink, meta_items: &Vec<RawParam>) -> (r: Option<
    KVSpanned<MediaType>,
>)
    ensures
        opt_kv_view(r) == format_opt(meta_items.deep_view()),
        final(sink)@ == old(sink)@ + format_list_diags(meta_items.deep_view()),
{
    let ghost ps = meta_items.deep_view();
    if meta_items.len() == 2 {
        let kv_opt = kv_from_nested(&meta_items[1]);
        proof {
            assert(ps[1] == meta_items@[1]@);
        }
        if kv_opt.is_none() {
            proof {
                assert(sink@ =~= old(sink)@ + format_list_diags(ps));
            }
            return None;
        }
        let kv = kv_opt.unwrap();
        if kv.key.node == String::from_str("format") {
            let mt = parse_format(sink, kv);
            let r = parse_opt(kv, mt);
            proof {
                assert(opt_kv_view(r) == format_opt(ps));
            }
            r
        } else {
            let mut m = String::from_str("'");
            m.append(kv.key.node.as_str());
            m.append("' is not a known parameter");
            sink.span_err(kv.span, m.as_str());
            proof {
                assert(sink@ =~= old(sink)@ + format_list_diags(ps));
            }
            None
        }
    } else {
        proof {
            assert(sink@ =~= old(sink)@ + format_list_diags(ps));
        }
        None
    }
}

/// The parsed and validated parameters of one `catch` annotation.
pub struct CatchParams {
    pub annotated_fn: Function,
    pub code: Spanned<u16>,
    pub format: Option<KVSpanned<MediaType>>,
}

/// The view of a [`CatchParams`] record.
pub ghost struct CatchParamsView {
    pub annotated_fn: FunctionView,
    pub code: SpannedView<u16>,
    pub format: Option<KVSpannedView<MediaTypeView>>,
}

impl View for CatchParams {
    type V = CatchParamsView;

    open spec fn view(&self) -> CatchParamsView {
        CatchParamsView {
            annotated_fn: self.annotated_fn@,
            code: self.code@,
            format: opt_kv_view(self.format),
        }
    }
}

/// The record one annotated declaration yields: nothing on a structural
/// failure (wrong declaration kind, malformed annotation, or a parameter
/// count outside `[1, 2]`), and otherwise the validated record, with
/// documented sentinels standing in for values that failed.
pub open spec fn catch_record(
    meta_item: MetaItemView,
    annotated: DeclarationView,
) -> Option<CatchParamsView> {
    match annotated {
        DeclarationView::Function(f) => match meta_item {
            MetaItemView::List(ps) => if 1 <= ps.len() && ps.len() <= 2 {
                Some(
                    CatchParamsView {
                        annotated_fn: f,
                        code: code_value(ps[0]),
                        format: format_opt(ps),
                    },
                )
            } else {
                None
            },
            MetaItemView::Other => None,
        },
        DeclarationView::Other(_) => None,
    }
}

/// Every diagnostic one annotated declaration adds to the sink, in order:
/// the structural errors when processing aborts, and otherwise the code
/// parser's diagnostics followed by the format slot's.
pub open spec fn catch_diags(
    sp: SourceSpan,
    meta_item: MetaItemView,
    annotated: DeclarationView,
) -> Seq<DiagnosticView> {
    match annotated {
        DeclarationView::Other(item_sp) => seq![
            error_at(sp, msg_only_functions()),
            error_at(item_sp, msg_applied_above()),
        ],
        DeclarationView::Function(_) => match meta_item {
            MetaItemView::Other => seq![
                error_with_help(sp, msg_incorrect_use(), help_attr_form()),
                error_at(sp, msg_malformed_attr()),
            ],
            MetaItemView::List(ps) => if ps.len() < 1 {
                seq![error_at(sp, msg_min_params())]
            } else if ps.len() > 2 {
                seq![error_at(sp, msg_max_params())]
            } else {
                code_diags(ps[0]) + format_list_diags(ps)
            },
        },
    }
}

impl CatchParams {
    /// Parses the `catch` annotation at `sp` on `annotated`. `None` means a
    /// structural failure: the current declaration's processing stops and no
    /// record reaches the code-generation collaborator. Either way the sink
    /// gains exactly the diagnostics of [`catch_diags`].
    pub fn from(
        sink: &mut DiagnosticSink,
        sp: SourceSpan,
        meta_item: &MetaItem,
        annotated: &Declaration,
    ) -> (r: Option<CatchParams>)
        ensures
            final(sink)@ == old(sink)@ + catch_diags(sp, meta_item@, annotated@),
            match r {
                Some(c) => catch_record(meta_item@, annotated@) == Some(c@),
                None => catch_record(meta_item@, annotated@) is None,
            },
    {
        let function = match Function::from(annotated) {
            Ok(f) => f,
            Err(item_sp) => {
                sink.span_err(sp, "this attribute can only be used on functions...");
                sink.span_err(item_sp, "...but was applied to the item above.");
                proof {
                    assert(sink@ =~= old(sink)@ + catch_diags(sp, meta_item@, annotated@));
                }
                return None;
            },
        };
        let meta_items = match meta_item {
            MetaItem::List(items) => items,
            MetaItem::Other => {
                sink.span_err_help(
                    sp,
                    "incorrect use of attribute",
                    "attributes in Rocket must have the form: #[name(...)]",
                );
                sink.span_err(sp, "malformed attribute");
                proof {
                    assert(sink@ =~= old(sink)@ + catch_diags(sp, meta_item@, annotated@));
                }
                return None;
            },
        };
        let ghost ps = meta_items.deep_view();
        if meta_items.len() < 1 {
            sink.span_err(sp, "requires at least one parameter");
            proof {
                assert(sink@ =~= old(sink)@ + catch_diags(sp, meta_item@, annotated@));
            }
            return None;
        } else if meta_items.len() > 2 {
            sink.span_err(sp, "accepts at most two parameters");
            proof {
                assert(sink@ =~= old(sink)@ + catch_diags(sp, meta_item@, annotated@));
            }
            return None;
        }
        proof {
            assert(ps[0] == meta_items@[0]@);
        }
        let code = parse_code(sink, &meta_items[0]);
        let format = local_parse_format(sink, meta_items);
        proof {
            assert(sink@ =~= old(sink)@ + catch_diags(sp, meta_item@, annotated@));
        }
        Some(CatchParams { annotated_fn: function, code, format })
    }
}

} // verus!
