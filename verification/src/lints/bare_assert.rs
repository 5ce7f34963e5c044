//! A pass that flags verification instructions carrying no error message.
//!
//! Every instruction of the bare-assert family has a sibling that aborts
//! with a diagnostic message; the suggestion is that sibling, pre-filled
//! with a placeholder.  The pass is stateless, so block boundaries do not
//! concern it.

use vstd::prelude::*;

use crate::ast::{Instruction, SpannedInstruction};
use crate::errors::{errors_model, LintError};
use crate::linter::EarlyContext;
use crate::model::{bare_assert_suggestion, pass_emit, placeholder_message, Event, PassModel};

verus! {

/// The bare-assert pass.
pub struct BareAssert;

impl BareAssert {
    /// The name under which the selector knows this pass.
    pub const NAME: &'static str = "bare_assert";

    /// Pushes a violation if `instruction` is a bare verification
    /// instruction; reports nothing otherwise.
    pub fn lint_instruction(
        &mut self,
        early_ctx: &mut EarlyContext,
        instruction: &SpannedInstruction,
    )
        ensures
            errors_model(final(early_ctx).errors_view()) == errors_model(
                old(early_ctx).errors_view(),
            ) + pass_emit(
                PassModel::BareAssert,
                Event::Inst(instruction.span, instruction.inst.model()),
            ),
    {
        let ghost before = errors_model(early_ctx.errors_view());
        if let Some(assert_with_error) = match_assert_instruction(&instruction.inst) {
            let err = LintError::BareAssert { span: instruction.span, assert_with_error };
            let ghost err_model = err.model();
            early_ctx.push_error(err);
            proof {
                assert(errors_model(early_ctx.errors_view()) =~= before + seq![err_model]);
            }
        } else {
            proof {
                assert(errors_model(early_ctx.errors_view()) =~= before
                    + Seq::<crate::errors::LintErrorModel>::empty());
            }
        }
    }
}

/// The placeholder message a suggestion is pre-filled with.
fn placeholder() -> (r: String)
    ensures
        r@ == placeholder_message(),
{
    "helpful error message".to_owned()
}

/// The "with message" sibling of a bare verification instruction, pre-filled
/// with the placeholder message, or `None` if the instruction is not in the
/// bare-assert family.
fn match_assert_instruction(instruction: &Instruction) -> (r: Option<Instruction>)
    ensures
        match r {
            Some(s) => bare_assert_suggestion(instruction.model()) == Some(s.model()),
            None => bare_assert_suggestion(instruction.model()) is None,
        },
{
    match instruction {
        Instruction::Assert => Some(Instruction::AssertWithError(placeholder())),
        Instruction::AssertEq => Some(Instruction::AssertEqWithError(placeholder())),
        Instruction::AssertEqw => Some(Instruction::AssertEqwWithError(placeholder())),
        Instruction::Assertz => Some(Instruction::AssertzWithError(placeholder())),
        Instruction::U32Assert => Some(Instruction::U32AssertWithError(placeholder())),
        Instruction::U32Assert2 => Some(Instruction::U32Assert2WithError(placeholder())),
        Instruction::U32AssertW => Some(Instruction::U32AssertWWithError(placeholder())),
        Instruction::MTreeVerify => Some(Instruction::MTreeVerifyWithError(placeholder())),
        _ => None,
    }
}

} // verus!
