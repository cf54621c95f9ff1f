//! The recoverable semantic errors of the compiler.  Every error carries the
//! source span it points at and renders as a diagnostic block with a caret
//! line under the offending text.
use crate::ast::Span;
use crate::ast::SpanV;
use crate::ast::span_show_text;
use vstd::prelude::*;

verus! {

/// The kinds of semantic errors lowering can report.
pub enum CompileErrorEnum {
    SymbolNotFound(String),
    InvalidTypeCast { from: String, to: String },
    Terminated,
    NonComptimeValue(String),
}

/// Mathematical view of [`CompileErrorEnum`].
#[verifier::ext_equal]
pub enum CompileErrorEnumV {
    SymbolNotFound(Seq<char>),
    InvalidTypeCast { from: Seq<char>, to: Seq<char> },
    Terminated,
    NonComptimeValue(Seq<char>),
}

impl DeepView for CompileErrorEnum {
    type V = CompileErrorEnumV;

    open spec fn deep_view(&self) -> CompileErrorEnumV {
        match self {
            CompileErrorEnum::SymbolNotFound(n) => CompileErrorEnumV::SymbolNotFound(n@),
            CompileErrorEnum::InvalidTypeCast { from, to } => CompileErrorEnumV::InvalidTypeCast {
                from: from@,
                to: to@,
            },
            CompileErrorEnum::Terminated => CompileErrorEnumV::Terminated,
            CompileErrorEnum::NonComptimeValue(t) => CompileErrorEnumV::NonComptimeValue(t@),
        }
    }
}

pub struct CompileError {
    pub span: Span,
    pub error: CompileErrorEnum,
}

/// Mathematical view of [`CompileError`].
#[verifier::ext_equal]
pub struct CompileErrorV {
    pub span: SpanV,
    pub error: CompileErrorEnumV,
}

impl DeepView for CompileError {
    type V = CompileErrorV;

    open spec fn deep_view(&self) -> CompileErrorV {
        CompileErrorV { span: self.span.deep_view(), error: self.error.deep_view() }
    }
}

/// The message text of each error kind.
pub open spec fn compile_error_text(e: CompileErrorEnumV) -> Seq<char> {
    match e {
        CompileErrorEnumV::SymbolNotFound(n) => "cannot find value `"@ + n + "` in this scope"@,
        CompileErrorEnumV::InvalidTypeCast { from, to } => "cannot cast `"@ + from + "` as `"@ + to
            + "`!"@,
        CompileErrorEnumV::Terminated => "terminated"@,
        CompileErrorEnumV::NonComptimeValue(t) => "cannot use value of type `"@ + t
            + "` as none-comptime value"@,
    }
}

impl CompileError {
    pub fn new_symbol_not_found(span: Span, id: String) -> (r: Self)
        ensures
            r.deep_view() == (CompileErrorV {
                span: span.deep_view(),
                error: CompileErrorEnumV::SymbolNotFound(id@),
            }),
    {
        Self { span, error: CompileErrorEnum::SymbolNotFound(id) }
    }

    pub fn new_invalid_type_cast(span: Span, from: String, to: String) -> (r: Self)
        ensures
            r.deep_view() == (CompileErrorV {
                span: span.deep_view(),
                error: CompileErrorEnumV::InvalidTypeCast { from: from@, to: to@ },
            }),
    {
        Self { span, error: CompileErrorEnum::InvalidTypeCast { from, to } }
    }

    pub fn new_terminated(span: Span) -> (r: Self)
        ensures
            r.deep_view() == (CompileErrorV {
                span: span.deep_view(),
                error: CompileErrorEnumV::Terminated,
            }),
    {
        Self { span, error: CompileErrorEnum::Terminated }
    }

    pub fn new_non_comptime_value(span: Span, ty: String) -> (r: Self)
        ensures
            r.deep_view() == (CompileErrorV {
                span: span.deep_view(),
                error: CompileErrorEnumV::NonComptimeValue(ty@),
            }),
    {
        Self { span, error: CompileErrorEnum::NonComptimeValue(ty) }
    }

    /// The bare message of this error, without the span block.
    pub fn message(&self) -> (r: String)
        ensures
            r@ == compile_error_text(self.error.deep_view()),
    {
        proof {
            reveal_strlit("cannot find value `");
            reveal_strlit("` in this scope");
            reveal_strlit("cannot cast `");
            reveal_strlit("` as `");
            reveal_strlit("`!");
            reveal_strlit("terminated");
            reveal_strlit("cannot use value of type `");
            reveal_strlit("` as none-comptime value");
        }
        match &self.error {
            CompileErrorEnum::SymbolNotFound(n) => {
                let mut r = String::from_str("cannot find value `");
                r.append(n.as_str());
                r.append("` in this scope");
                proof {
                    assert(r@ =~= compile_error_text(self.error.deep_view()));
                }
                r
            },
            CompileErrorEnum::InvalidTypeCast { from, to } => {
                let mut r = String::from_str("cannot cast `");
                r.append(from.as_str());
                r.append("` as `");
                r.append(to.as_str());
                r.append("`!");
                proof {
                    assert(r@ =~= compile_error_text(self.error.deep_view()));
                }
                r
            },
            CompileErrorEnum::Terminated => String::from_str("terminated"),
            CompileErrorEnum::NonComptimeValue(t) => {
                let mut r = String::from_str("cannot use value of type `");
                r.append(t.as_str());
                r.append("` as none-comptime value");
                proof {
                    assert(r@ =~= compile_error_text(self.error.deep_view()));
                }
                r
            },
        }
    }

    /// The full diagnostic block for this error: message plus the caret
    /// rendering of the offending span.
    pub fn show(&self) -> (r: String)
        ensures
            r@ == span_show_text(self.span.deep_view(), compile_error_text(self.error.deep_view())),
    {
        self.span.show(self.message())
    }
}

} // verus!
