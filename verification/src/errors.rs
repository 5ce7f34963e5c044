//! Structured violations and run-level errors.
//!
//! A [`LintError`] is one finding of a pass: the offending span plus a
//! suggestion payload.  A [`LinterError`] is the outcome of a whole run (one
//! or more findings), or a failure that precedes any traversal (a parse
//! failure reported by the front end, or an unknown pass name given to the
//! selector).  The span's `source_id` is the back-reference to the source
//! unit a finding belongs to.

use vstd::prelude::*;

use crate::ast::{InstrModel, Instruction, SourceSpan};

verus! {

/// A single lint violation.
#[derive(Debug, PartialEq, Eq)]
pub enum LintError {
    /// An operand is pushed right before an instruction that could take it
    /// as an immediate; `alternative` is the textual form of the fused
    /// instruction.
    PushImmediate { span: SourceSpan, alternative: String },
    /// A verification instruction carries no error message;
    /// `assert_with_error` is its "with message" sibling, pre-filled with a
    /// placeholder message.
    BareAssert { span: SourceSpan, assert_with_error: Instruction },
}

/// Ghost twin of [`LintError`]: payloads are carried by content, so the
/// violations of a run are a function of the program tree alone.
pub enum LintErrorModel {
    PushImmediate { span: SourceSpan, alternative: Seq<char> },
    BareAssert { span: SourceSpan, assert_with_error: InstrModel },
}

impl LintError {
    /// The ghost value of this violation.
    pub open spec fn model(&self) -> LintErrorModel {
        match self {
            LintError::PushImmediate { span, alternative } => LintErrorModel::PushImmediate {
                span: *span,
                alternative: alternative@,
            },
            LintError::BareAssert { span, assert_with_error } => LintErrorModel::BareAssert {
                span: *span,
                assert_with_error: assert_with_error.model(),
            },
        }
    }
}

/// The ghost values of a list of violations, in order.
pub open spec fn errors_model(s: Seq<LintError>) -> Seq<LintErrorModel> {
    s.map_values(|e: LintError| e.model())
}

/// The outcome of a lint run, or a failure that precedes one.
#[derive(Debug, PartialEq, Eq)]
pub enum LinterError {
    /// One or more lints failed; the findings, in traversal order.
    Lints { errors: Vec<LintError> },
    /// The front end could not parse the source unit into forms.
    FormsParsing(String),
    /// A name passed to the selector in select mode matches no known pass.
    UnknownSelectedLint(String),
    /// A name passed to the selector in exclude mode matches no known pass.
    UnknownExcludedLint(String),
}

impl LinterError {
    /// Wraps the findings of a run.
    pub fn new_lints(errors: Vec<LintError>) -> (r: Self)
        ensures
            r matches LinterError::Lints { errors: es } && es == errors,
    {
        Self::Lints { errors }
    }
}

} // verus!
