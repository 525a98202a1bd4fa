use catch_attr::ast::{Declaration, Function, Literal, MetaItem, RawParam};
use catch_attr::catch::CatchParams;
use catch_attr::diag::{DiagnosticSink, Severity};
use catch_attr::span::{KVSpanned, SourceSpan, Spanned};

fn sp(lo: usize, hi: usize) -> SourceSpan {
    SourceSpan { lo, hi }
}

fn bare_int(n: u128, s: SourceSpan) -> RawParam {
    RawParam::Literal(Spanned { node: Literal::Int(n), span: s })
}

fn bare_str(v: &str, s: SourceSpan) -> RawParam {
    RawParam::Literal(Spanned { node: Literal::Str(v.to_string()), span: s })
}

fn keyed(key: &str, value: Literal, s: SourceSpan) -> RawParam {
    RawParam::KeyValue(KVSpanned {
        key: Spanned { node: key.to_string(), span: SourceSpan { lo: s.lo, hi: s.lo + key.len() } },
        value: Spanned { node: value, span: SourceSpan { lo: s.lo + key.len() + 1, hi: s.hi } },
        span: s,
    })
}

fn a_fn() -> Declaration {
    Declaration::Function(Function { name: "handler".to_string(), span: sp(100, 120) })
}

fn run(params: Vec<RawParam>) -> (DiagnosticSink, Option<CatchParams>) {
    let mut sink = DiagnosticSink::new();
    let r = CatchParams::from(&mut sink, sp(0, 30), &MetaItem::List(params), &a_fn());
    (sink, r)
}

#[test]
fn single_bare_known_code() {
    let (sink, r) = run(vec![bare_int(404, sp(8, 11))]);
    let params = r.expect("a record");
    assert_eq!(params.code.node, 404);
    assert_eq!(params.code.span, sp(8, 11));
    assert!(params.format.is_none());
    assert_eq!(sink.diags.len(), 0);
}

#[test]
fn keyed_code_and_known_format() {
    let (sink, r) = run(vec![
        keyed("code", Literal::Int(404), sp(8, 18)),
        keyed("format", Literal::Str("application/json".to_string()), sp(20, 46)),
    ]);
    let params = r.expect("a record");
    assert_eq!(params.code.node, 404);
    let format = params.format.expect("a format slot");
    assert_eq!(format.key.node, "format");
    assert_eq!(format.value.node.top, "application");
    assert_eq!(format.value.node.sub, "json");
    assert!(format.value.node.known);
    assert_eq!(sink.diags.len(), 0);
}

#[test]
fn out_of_range_code_sentinel_and_error() {
    let (sink, r) = run(vec![bare_int(999, sp(8, 11))]);
    let params = r.expect("a record");
    assert_eq!(params.code.node, 0);
    assert_eq!(params.code.span, sp(8, 11));
    assert!(params.format.is_none());
    assert_eq!(sink.diags.len(), 1);
    assert_eq!(sink.diags[0].severity, Severity::Error);
    assert_eq!(sink.diags[0].message, "code must be >= 400 and <= 599");
    assert_eq!(sink.diags[0].span, sp(8, 11));
}

#[test]
fn small_code_rejected_too() {
    let (sink, r) = run(vec![bare_int(200, sp(8, 11))]);
    assert_eq!(r.expect("a record").code.node, 0);
    assert_eq!(sink.diags.len(), 1);
    assert_eq!(sink.diags[0].severity, Severity::Error);
}

#[test]
fn unknown_code_warned_value_kept() {
    let (sink, r) = run(vec![bare_int(499, sp(8, 11))]);
    let params = r.expect("a record");
    assert_eq!(params.code.node, 499);
    assert_eq!(sink.diags.len(), 1);
    assert_eq!(sink.diags[0].severity, Severity::Warning);
    assert_eq!(sink.diags[0].message, "status code is unknown");
}

#[test]
fn keyed_code_form_accepted() {
    let (sink, r) = run(vec![keyed("code", Literal::Int(404), sp(8, 18))]);
    assert_eq!(r.expect("a record").code.node, 404);
    assert_eq!(sink.diags.len(), 0);
}

#[test]
fn wrong_first_key_rejected() {
    let (sink, r) = run(vec![keyed("status", Literal::Int(404), sp(8, 20))]);
    let params = r.expect("a record");
    assert_eq!(params.code.node, 0);
    assert_eq!(params.code.span, sp(0, 0));
    assert_eq!(sink.diags.len(), 1);
    assert_eq!(sink.diags[0].severity, Severity::Error);
    assert_eq!(sink.diags[0].message, "the first key, if any, must be 'code'");
    assert_eq!(sink.diags[0].span, sp(8, 20));
}

#[test]
fn code_value_not_integer() {
    let (sink, r) = run(vec![keyed("code", Literal::Str("404".to_string()), sp(8, 20))]);
    assert_eq!(r.expect("a record").code.node, 0);
    assert_eq!(sink.diags.len(), 1);
    assert_eq!(sink.diags[0].severity, Severity::Error);
    assert_eq!(sink.diags[0].message, "`code` value must be an integer");
    assert!(sink.diags[0].help.is_none());
}

#[test]
fn first_param_of_neither_shape() {
    let (sink, r) = run(vec![RawParam::Other(sp(8, 11))]);
    assert_eq!(r.expect("a record").code.node, 0);
    assert_eq!(sink.diags.len(), 1);
    assert_eq!(sink.diags[0].severity, Severity::Error);
    assert_eq!(sink.diags[0].message, "expected `code = int` or an integer literal");
    assert!(sink.diags[0].help.is_some());
}

#[test]
fn bare_string_gets_shape_error() {
    let (sink, r) = run(vec![bare_str("404", sp(8, 13))]);
    assert_eq!(r.expect("a record").code.node, 0);
    assert_eq!(sink.diags.len(), 1);
    assert!(sink.diags[0].help.is_some());
}

#[test]
fn malformed_format_sentinel_and_error() {
    let (sink, r) = run(vec![
        bare_int(404, sp(8, 11)),
        keyed("format", Literal::Str("bad".to_string()), sp(13, 26)),
    ]);
    let params = r.expect("a record");
    assert_eq!(params.code.node, 404);
    let format = params.format.expect("the sentinel");
    assert_eq!(format.value.node.top, "*");
    assert_eq!(format.value.node.sub, "*");
    assert_eq!(sink.diags.len(), 1);
    assert_eq!(sink.diags[0].severity, Severity::Error);
    assert_eq!(sink.diags[0].message, "`format` must be a \"media/type\"");
    assert!(sink.diags[0].help.is_some());
}

#[test]
fn unregistered_format_warned_value_kept() {
    let (sink, r) = run(vec![
        bare_int(404, sp(8, 11)),
        keyed("format", Literal::Str("application/x-custom".to_string()), sp(13, 43)),
    ]);
    let params = r.expect("a record");
    let format = params.format.expect("a format slot");
    assert_eq!(format.value.node.top, "application");
    assert_eq!(format.value.node.sub, "x-custom");
    assert!(!format.value.node.known);
    assert_eq!(sink.diags.len(), 1);
    assert_eq!(sink.diags[0].severity, Severity::Warning);
    assert_eq!(sink.diags[0].message, "'application/x-custom' is not a known media type");
}

#[test]
fn format_value_not_a_string() {
    let (sink, r) = run(vec![
        bare_int(404, sp(8, 11)),
        keyed("format", Literal::Int(7), sp(13, 23)),
    ]);
    let format = r.expect("a record").format.expect("the sentinel");
    assert_eq!(format.value.node.top, "*");
    assert_eq!(sink.diags.len(), 1);
    assert_eq!(sink.diags[0].message, "`format` must be a \"media/type\"");
}

#[test]
fn unknown_second_key_error_record_kept() {
    let (sink, r) = run(vec![
        bare_int(404, sp(8, 11)),
        keyed("mime", Literal::Str("text/html".to_string()), sp(13, 29)),
    ]);
    let params = r.expect("a record");
    assert_eq!(params.code.node, 404);
    assert!(params.format.is_none());
    assert_eq!(sink.diags.len(), 1);
    assert_eq!(sink.diags[0].severity, Severity::Error);
    assert_eq!(sink.diags[0].message, "'mime' is not a known parameter");
    assert_eq!(sink.diags[0].span, sp(13, 29));
}

#[test]
fn unresolvable_second_param_silently_absent() {
    let (sink, r) = run(vec![bare_int(404, sp(8, 11)), RawParam::Other(sp(13, 20))]);
    let params = r.expect("a record");
    assert_eq!(params.code.node, 404);
    assert!(params.format.is_none());
    assert_eq!(sink.diags.len(), 0);
}

#[test]
fn empty_list_fatal() {
    let (sink, r) = run(vec![]);
    assert!(r.is_none());
    assert_eq!(sink.diags.len(), 1);
    assert_eq!(sink.diags[0].severity, Severity::Error);
    assert_eq!(sink.diags[0].message, "requires at least one parameter");
    assert_eq!(sink.diags[0].span, sp(0, 30));
}

#[test]
fn three_params_fatal() {
    let (sink, r) = run(vec![
        bare_int(404, sp(8, 11)),
        keyed("format", Literal::Str("a/b".to_string()), sp(13, 26)),
        bare_int(500, sp(28, 31)),
    ]);
    assert!(r.is_none());
    assert_eq!(sink.diags.len(), 1);
    assert_eq!(sink.diags[0].message, "accepts at most two parameters");
}

#[test]
fn not_a_function_fatal() {
    let mut sink = DiagnosticSink::new();
    let r = CatchParams::from(
        &mut sink,
        sp(0, 30),
        &MetaItem::List(vec![bare_int(404, sp(8, 11))]),
        &Declaration::Other(sp(100, 140)),
    );
    assert!(r.is_none());
    assert_eq!(sink.diags.len(), 2);
    assert_eq!(sink.diags[0].severity, Severity::Error);
    assert_eq!(sink.diags[0].message, "this attribute can only be used on functions...");
    assert_eq!(sink.diags[0].span, sp(0, 30));
    assert_eq!(sink.diags[1].message, "...but was applied to the item above.");
    assert_eq!(sink.diags[1].span, sp(100, 140));
}

#[test]
fn malformed_annotation_fatal() {
    let mut sink = DiagnosticSink::new();
    let r = CatchParams::from(&mut sink, sp(0, 10), &MetaItem::Other, &a_fn());
    assert!(r.is_none());
    assert_eq!(sink.diags.len(), 2);
    assert_eq!(sink.diags[0].message, "incorrect use of attribute");
    assert!(sink.diags[0].help.is_some());
    assert_eq!(sink.diags[1].message, "malformed attribute");
}

#[test]
fn annotated_fn_carried_through() {
    let (_, r) = run(vec![bare_int(404, sp(8, 11))]);
    let params = r.expect("a record");
    assert_eq!(params.annotated_fn.name, "handler");
    assert_eq!(params.annotated_fn.span, sp(100, 120));
}

#[test]
fn sink_accumulates_across_declarations() {
    let mut sink = DiagnosticSink::new();
    let first = CatchParams::from(
        &mut sink,
        sp(0, 10),
        &MetaItem::List(vec![bare_int(999, sp(2, 5))]),
        &a_fn(),
    );
    assert!(first.is_some());
    let second = CatchParams::from(&mut sink, sp(40, 50), &MetaItem::List(vec![]), &a_fn());
    assert!(second.is_none());
    assert_eq!(sink.diags.len(), 2);
    assert_eq!(sink.diags[0].message, "code must be >= 400 and <= 599");
    assert_eq!(sink.diags[1].message, "requires at least one parameter");
}
