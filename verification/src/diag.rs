//! Severity-tagged, span-located diagnostics and the sink that collects them.
//!
//! The sink is append-only: every emitting operation promises that the new
//! contents are the old contents with exactly the stated diagnostics added,
//! so a caller's contract can account for every message the engine produces.
//! Whether processing stops after a diagnostic is a separate control signal
//! (the engine returns `None` for the current declaration); severity alone
//! never stops anything.

use vstd::prelude::*;
use vstd::string::StringExecFns;

use crate::span::SourceSpan;

verus! {

/// How serious a diagnostic is.
#[derive(Clone, Copy, PartialEq, Eq, Structural, Debug)]
pub enum Severity {
    Error,
    Warning,
}

/// One message for the host's reporting surface: a severity, the source
/// location it points at, the message text, and optional help text.
#[derive(Clone, PartialEq, Eq, Debug)]
pub struct Diagnostic {
    pub severity: Severity,
    pub span: SourceSpan,
    pub message: String,
    pub help: Option<String>,
}

/// The view of a [`Diagnostic`]: its strings as character sequences.
pub ghost struct DiagnosticView {
    pub severity: Severity,
    pub span: SourceSpan,
    pub message: Seq<char>,
    pub help: Option<Seq<char>>,
}

impl View for Diagnostic {
    type V = DiagnosticView;

    open spec fn view(&self) -> DiagnosticView {
        DiagnosticView {
            severity: self.severity,
            span: self.span,
            message: self.message@,
            help: self.help.deep_view(),
        }
    }
}

impl DeepView for Diagnostic {
    type V = DiagnosticView;

    open spec fn deep_view(&self) -> DiagnosticView {
        self@
    }
}

/// An error without help text, as a view.
pub open spec fn error_at(span: SourceSpan, message: Seq<char>) -> DiagnosticView {
    DiagnosticView { severity: Severity::Error, span, message, help: None }
}

/// A warning, as a view.
pub open spec fn warning_at(span: SourceSpan, message: Seq<char>) -> DiagnosticView {
    DiagnosticView { severity: Severity::Warning, span, message, help: None }
}

/// An error carrying help text, as a view.
pub open spec fn error_with_help(
    span: SourceSpan,
    message: Seq<char>,
    help: Seq<char>,
) -> DiagnosticView {
    DiagnosticView { severity: Severity::Error, span, message, help: Some(help) }
}

/// Accumulates diagnostics over a whole scan. Append-only.
pub struct DiagnosticSink {
    pub diags: Vec<Diagnostic>,
}

impl View for DiagnosticSink {
    type V = Seq<DiagnosticView>;

    open spec fn view(&self) -> Seq<DiagnosticView> {
        self.diags.deep_view()
    }
}

impl DiagnosticSink {
    /// An empty sink.
    pub fn new() -> (s: DiagnosticSink)
        ensures
            s@ == Seq::<DiagnosticView>::empty(),
    {
        let s = DiagnosticSink { diags: Vec::new() };
        proof {
            assert(s@ =~= Seq::<DiagnosticView>::empty());
        }
        s
    }

    /// Appends one ready-made diagnostic.
    pub fn emit(&mut self, d: Diagnostic)
        ensures
            final(self)@ == old(self)@.push(d@),
    {
        let ghost pre = self@;
        let ghost dv = d@;
        self.diags.push(d);
        proof {
            assert(self@ =~= pre.push(dv));
        }
    }

    /// Appends an error without help text.
    pub fn span_err(&mut self, span: SourceSpan, message: &str)
        ensures
            final(self)@ == old(self)@.push(error_at(span, message@)),
    {
        self.emit(
            Diagnostic {
                severity: Severity::Error,
                span,
                message: String::from_str(message),
                help: None,
            },
        );
    }

    /// Appends a warning.
    pub fn span_warn(&mut self, span: SourceSpan, message: &str)
        ensures
            final(self)@ == old(self)@.push(warning_at(span, message@)),
    {
        self.emit(
            Diagnostic {
                severity: Severity::Warning,
                span,
                message: String::from_str(message),
                help: None,
            },
        );
    }

    /// Appends an error together with help text.
    pub fn span_err_help(&mut self, span: SourceSpan, message: &str, help: &str)
        ensures
            final(self)@ == old(self)@.push(error_with_help(span, message@, help@)),
    {
        self.emit(
            Diagnostic {
                severity: Severity::Error,
                span,
                message: String::from_str(message),
                help: Some(String::from_str(help)),
            },
        );
    }
}

} // verus!
