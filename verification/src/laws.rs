//! The engine's guarantees, stated and proved once and for all inputs.
//!
//! Each proof function here states one law of the parameter engine over the
//! same spec functions that the executable functions' contracts use, so what
//! is proved of the specs carries over to every run of the engine.

use vstd::prelude::*;

use crate::ast::{DeclarationView, FunctionView, LiteralView, MetaItemView, RawParamView};
use crate::catch::{
    catch_diags, catch_record, code_diags, code_sentinel, code_value, format_opt,
    format_list_diags, msg_code_range, msg_code_unknown, msg_first_key, msg_max_params,
    msg_min_params, msg_unknown_param,
};
use crate::common::{
    format_diags, format_value, help_malformed_format, msg_malformed_format, msg_unknown_media,
};
use crate::diag::{error_at, error_with_help, warning_at, DiagnosticView, Severity};
use crate::media::{MediaType, MediaTypeView};
use crate::registry::{code_known, media_parse};
use crate::span::{KVSpannedView, SourceSpan, SpannedView};

verus! {

/// Whether the first parameter is an integer literal `n`, in either accepted
/// form: bare, or keyed `code`.
pub open spec fn is_int_code_param(p: RawParamView, n: u128) -> bool {
    ||| (p matches RawParamView::Literal(l) && l.node == LiteralView::Int(n))
    ||| (p matches RawParamView::KeyValue(kv) && kv.key.node == "code"@ && kv.value.node
        == LiteralView::Int(n))
}

/// For every integer `n` with `400 <= n <= 599` that the status-code registry
/// knows, parsing the first parameter yields `n` itself and no diagnostic.
pub proof fn lemma_code_in_range_known(p: RawParamView, n: u128)
    requires
        400 <= n <= 599,
        code_known(n as u16),
        is_int_code_param(p, n),
    ensures
        code_value(p).node == n as u16,
        code_diags(p) == Seq::<DiagnosticView>::empty(),
{
}

/// For every integer `n` with `n < 400` or `n > 599`, parsing the first
/// parameter yields the sentinel `0` and exactly one error, citing the range
/// rule at the literal's span.
pub proof fn lemma_code_out_of_range_rejected(p: RawParamView, n: u128)
    requires
        n < 400 || n > 599,
        is_int_code_param(p, n),
    ensures
        code_value(p).node == 0,
        code_diags(p).len() == 1,
        code_diags(p)[0].severity == Severity::Error,
        code_diags(p)[0].message == msg_code_range(),
{
}

/// For every in-range integer the registry does not know, the value is
/// preserved despite the warning: parsing yields `n` itself and exactly one
/// warning.
pub proof fn lemma_code_unknown_warned_value_kept(p: RawParamView, n: u128)
    requires
        400 <= n <= 599,
        !code_known(n as u16),
        is_int_code_param(p, n),
    ensures
        code_value(p).node == n as u16,
        code_diags(p).len() == 1,
        code_diags(p)[0].severity == Severity::Warning,
        code_diags(p)[0].message == msg_code_unknown(),
{
}

/// The bare-literal and `code = literal` forms of an integer first parameter
/// are interchangeable: with the literal at the same span, both yield the
/// same value and the same diagnostics.
pub proof fn lemma_code_forms_agree(n: u128, sp: SourceSpan, key_span: SourceSpan, whole: SourceSpan)
    ensures
        ({
            let bare = RawParamView::Literal(SpannedView { node: LiteralView::Int(n), span: sp });
            let keyed = RawParamView::KeyValue(
                KVSpannedView {
                    key: SpannedView { node: "code"@, span: key_span },
                    value: SpannedView { node: LiteralView::Int(n), span: sp },
                    span: whole,
                },
            );
            code_value(bare) == code_value(keyed) && code_diags(bare) == code_diags(keyed)
        }),
{
}

/// A first parameter keyed anything but `code` yields the sentinel `0` at the
/// zero span and exactly one error.
pub proof fn lemma_code_wrong_key_rejected(kv: KVSpannedView<LiteralView>)
    requires
        kv.key.node != "code"@,
    ensures
        code_value(RawParamView::KeyValue(kv)) == code_sentinel(),
        code_diags(RawParamView::KeyValue(kv)) == seq![error_at(kv.span, msg_first_key())],
{
}

/// A `format` string the registry knows yields its classification and no
/// diagnostic.
pub proof fn lemma_format_known_media_accepted(
    kv: KVSpannedView<LiteralView>,
    s: Seq<char>,
    top: Seq<char>,
    sub: Seq<char>,
)
    requires
        kv.value.node == LiteralView::Str(s),
    ensures
        media_parse(s) == Some((top, sub, true)) ==> format_value(kv) == (MediaTypeView {
            top,
            sub,
            known: true,
        }) && format_diags(kv) == Seq::<DiagnosticView>::empty(),
{
}

/// A `format` string that is not a well-formed media type yields the any/any
/// sentinel and exactly one error, with help text.
pub proof fn lemma_format_malformed_sentinel(kv: KVSpannedView<LiteralView>, s: Seq<char>)
    requires
        kv.value.node == LiteralView::Str(s),
    ensures
        media_parse(s) is None ==> format_value(kv) == MediaType::spec_any() && format_diags(kv)
            == seq![error_with_help(kv.span, msg_malformed_format(), help_malformed_format())],
{
}

/// A well-formed `format` string the registry does not know is still usable:
/// it yields its classification, beside exactly one warning.
pub proof fn lemma_format_unregistered_warned(
    kv: KVSpannedView<LiteralView>,
    s: Seq<char>,
    top: Seq<char>,
    sub: Seq<char>,
)
    requires
        kv.value.node == LiteralView::Str(s),
    ensures
        media_parse(s) == Some((top, sub, false)) ==> format_value(kv) == (MediaTypeView {
            top,
            sub,
            known: false,
        }) && format_diags(kv) == seq![warning_at(kv.value.span, msg_unknown_media(s))],
{
}

/// Zero parameters are a fatal structural error: no record, one diagnostic.
pub proof fn lemma_empty_list_fatal(sp: SourceSpan, f: FunctionView)
    ensures
        ({
            let mi = MetaItemView::List(Seq::<RawParamView>::empty());
            let d = DeclarationView::Function(f);
            catch_record(mi, d) is None && catch_diags(sp, mi, d) == seq![
                error_at(sp, msg_min_params()),
            ]
        }),
{
}

/// Three or more parameters are a fatal structural error: no record, one
/// diagnostic.
pub proof fn lemma_overfull_list_fatal(sp: SourceSpan, f: FunctionView, ps: Seq<RawParamView>)
    requires
        ps.len() >= 3,
    ensures
        catch_record(MetaItemView::List(ps), DeclarationView::Function(f)) is None,
        catch_diags(sp, MetaItemView::List(ps), DeclarationView::Function(f)) == seq![
            error_at(sp, msg_max_params()),
        ],
{
}

/// With a single parameter the record is produced with `format` absent, and
/// the only diagnostics are whatever the code parse itself produced.
pub proof fn lemma_single_parameter_no_format(sp: SourceSpan, f: FunctionView, p0: RawParamView)
    ensures
        ({
            let mi = MetaItemView::List(seq![p0]);
            let d = DeclarationView::Function(f);
            catch_record(mi, d) matches Some(c) && c.format is None && c.code == code_value(p0)
                && c.annotated_fn == f && catch_diags(sp, mi, d) == code_diags(p0)
        }),
{
    let ps = seq![p0];
    assert(format_opt(ps) is None);
    assert(format_list_diags(ps) =~= Seq::<DiagnosticView>::empty());
    assert(code_diags(p0) + format_list_diags(ps) =~= code_diags(p0));
}

/// With two parameters whose second is keyed anything but `format`, the
/// record is still produced — `format` absent, the code as parsed — beside
/// one recoverable error naming the unknown key.
pub proof fn lemma_second_key_unknown_error(
    sp: SourceSpan,
    f: FunctionView,
    p0: RawParamView,
    kv: KVSpannedView<LiteralView>,
)
    requires
        kv.key.node != "format"@,
    ensures
        ({
            let mi = MetaItemView::List(seq![p0, RawParamView::KeyValue(kv)]);
            let d = DeclarationView::Function(f);
            catch_record(mi, d) matches Some(c) && c.format is None && c.code == code_value(p0)
                && c.annotated_fn == f && catch_diags(sp, mi, d) == code_diags(p0) + seq![
                error_at(kv.span, msg_unknown_param(kv.key.node)),
            ]
        }),
{
    let ps = seq![p0, RawParamView::KeyValue(kv)];
    assert(ps[1] == RawParamView::KeyValue(kv));
    assert(format_opt(ps) is None);
    assert(format_list_diags(ps) == seq![error_at(kv.span, msg_unknown_param(kv.key.node))]);
}

} // verus!
