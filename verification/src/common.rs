//! The format-value parser and the helper that pairs a parsed value with the
//! spans of the `key = value` it came from.

use vstd::prelude::*;
use vstd::string::StringExecFns;

use crate::ast::{Literal, LiteralView};
use crate::diag::{error_with_help, warning_at, DiagnosticSink, DiagnosticView};
use crate::media::{MediaType, MediaTypeView};
use crate::registry::{media_parse, media_type_parse};
use crate::span::{KVSpanned, KVSpannedView, Spanned, SpannedView};

verus! {

/// The message of the error for a `format` value that is not a well-formed
/// media-type string.
pub open spec fn msg_malformed_format() -> Seq<char> {
    "`format` must be a \"media/type\""@
}

/// The help text beside [`msg_malformed_format`].
pub open spec fn help_malformed_format() -> Seq<char> {
    "format, if specified, must be a key-value pair where the key is `format` and the value is a string representing the media type accepted, e.g: format = \"application/json\""@
}

/// The message of the warning for a well-formed media type that the registry
/// does not know.
pub open spec fn msg_unknown_media(s: Seq<char>) -> Seq<char> {
    "'"@ + s + "' is not a known media type"@
}

/// What the format parser returns for the value of a recognized `format`
/// key: the parsed classification, or the any/any sentinel when the value is
/// not a string or not a well-formed media type.
pub open spec fn format_value(kv: KVSpannedView<LiteralView>) -> MediaTypeView {
    match kv.value.node {
        LiteralView::Str(s) => match media_parse(s) {
            Some(t) => MediaTypeView { top: t.0, sub: t.1, known: t.2 },
            None => MediaType::spec_any(),
        },
        LiteralView::Int(_) => MediaType::spec_any(),
    }
}

/// The diagnostics the format parser emits beside [`format_value`]: nothing
/// for a known media type, one warning for an unregistered one, and one error
/// with help text when the value fails to parse at all.
pub open spec fn format_diags(kv: KVSpannedView<LiteralView>) -> Seq<DiagnosticView> {
    match kv.value.node {
        LiteralView::Str(s) => match media_parse(s) {
            Some(t) => if t.2 {
                Seq::<DiagnosticView>::empty()
            } else {
                seq![warning_at(kv.value.span, msg_unknown_media(s))]
            },
            None => seq![error_with_help(kv.span, msg_malformed_format(), help_malformed_format())],
        },
        LiteralView::Int(_) => seq![
            error_with_help(kv.span, msg_malformed_format(), help_malformed_format()),
        ],
    }
}

/// Parses the value of a recognized `format` key. A failed parse is a
/// recoverable error: the any/any sentinel stands in for the value and
/// processing continues.
pub fn parse_format(sink: &mut DiagnosticSink, kv: &KVSpanned<Literal>) -> (r: MediaType)
    ensures
        r@ == format_value(kv@),
        final(sink)@ == old(sink)@ + format_diags(kv@),
{
    if let Literal::Str(s) = &kv.value.node {
        if let Some(parts) = media_type_parse(s.as_str()) {
            if !parts.2 {
                let mut m = String::from_str("'");
                m.append(s.as_str());
                m.append("' is not a known media type");
                sink.span_warn(kv.value.span, m.as_str());
                proof {
                    assert(sink@ =~= old(sink)@ + format_diags(kv@));
                }
            } else {
                proof {
                    assert(sink@ =~= old(sink)@ + format_diags(kv@));
                }
            }
            return MediaType { top: parts.0, sub: parts.1, known: parts.2 };
        }
    }
    sink.span_err_help(
        kv.span,
        "`format` must be a \"media/type\"",
        "format, if specified, must be a key-value pair where the key is `format` and the value is a string representing the media type accepted, e.g: format = \"application/json\"",
    );
    proof {
        assert(sink@ =~= old(sink)@ + format_diags(kv@));
    }
    MediaType::any()
}

/// Pairs an already-parsed value with the key and the spans of the
/// `key = value` it was parsed from.
pub fn parse_opt<T: View, O: View>(kv: &KVSpanned<T>, node: O) -> (r: Option<KVSpanned<O>>)
    ensures
        r matches Some(k) && k@ == (KVSpannedView {
            key: kv@.key,
            value: SpannedView { node: node@, span: kv@.value.span },
            span: kv@.span,
        }),
{
    Some(
        KVSpanned {
            key: Spanned { node: kv.key.node.clone(), span: kv.key.span },
            value: Spanned { node, span: kv.value.span },
            span: kv.span,
        },
    )
}

} // verus!
