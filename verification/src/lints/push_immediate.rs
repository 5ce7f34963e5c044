//! A pass that flags an operand pushed right before an operator that could
//! take it as an immediate.
//!
//! The pass keeps a window of size one: the most recent single-value
//! literal push, recorded with its span.  On the next instruction it checks
//! whether that instruction has an immediate-operand form.  Binary
//! field-element arithmetic, (in)equality, unsigned 32-bit arithmetic and
//! memory access fuse unconditionally.  Ordered comparisons and unsigned
//! 32-bit bitwise and ordered operators fuse only when the push's span
//! differs from the operator's: the front end desugars compact
//! operator-with-literal syntax into a push plus the base operator that
//! share one span, so identical spans prove the pair was already fused in
//! the source.  The pending push is recomputed after every instruction and
//! dropped at every block boundary.

use vstd::prelude::*;
use vstd::string::StringExecFns;

use crate::ast::{Block, Immediate, Instruction, SourceSpan, SpannedInstruction};
use crate::errors::{errors_model, LintError, LintErrorModel};
use crate::linter::EarlyContext;
use crate::model::{
    fused_alternative, fused_text, imm_text, pass_emit, pass_step, push_operand, Event, PassModel,
    PendingPush,
};
use crate::text::push_decimal;

verus! {

/// The push-immediate fusion pass.
pub struct PushImmediate {
    prev_push_instr: Option<(SourceSpan, Immediate)>,
}

impl PushImmediate {
    /// The name under which the selector knows this pass.
    pub const NAME: &'static str = "push_immediate";

    /// The ghost state of this pass.
    pub closed spec fn model(&self) -> PassModel {
        PassModel::PushImmediate(
            match self.prev_push_instr {
                Some((span, imm)) => Some(PendingPush { span, imm: imm.model() }),
                None => None,
            },
        )
    }

    /// A fresh pass instance with no pending push.
    pub fn new() -> (r: Self)
        ensures
            r.model() == PassModel::PushImmediate(None::<PendingPush>),
    {
        Self { prev_push_instr: None }
    }

    /// Reports a fusion opportunity between the pending push and
    /// `instruction`, if any, then records `instruction` itself as the new
    /// pending push when it is a single-value literal push.
    pub fn lint_instruction(
        &mut self,
        early_ctx: &mut EarlyContext,
        instruction: &SpannedInstruction,
    )
        ensures
            final(self).model() == pass_step(
                old(self).model(),
                Event::Inst(instruction.span, instruction.inst.model()),
            ),
            errors_model(final(early_ctx).errors_view()) == errors_model(
                old(early_ctx).errors_view(),
            ) + pass_emit(
                old(self).model(),
                Event::Inst(instruction.span, instruction.inst.model()),
            ),
    {
        let ghost before = errors_model(early_ctx.errors_view());
        let pending = self.prev_push_instr.take();
        let mut emitted = false;
        let ghost mut emitted_model: LintErrorModel = LintErrorModel::PushImmediate {
            span: instruction.span,
            alternative: Seq::empty(),
        };
        if let Some((prev_span, prev_imm)) = pending {
            if let Some(alternative) = match_non_immediate_instruction(
                prev_span,
                &prev_imm,
                instruction,
            ) {
                let full_span = prev_span.extend_to(instruction.span);
                let err = LintError::PushImmediate { span: full_span, alternative };
                proof {
                    emitted_model = err.model();
                }
                early_ctx.push_error(err);
                emitted = true;
            }
        }
        self.prev_push_instr = match match_push_instruction(instruction) {
            Some(imm) => Some((instruction.span, imm)),
            None => None,
        };
        proof {
            if emitted {
                assert(errors_model(early_ctx.errors_view()) =~= before + seq![emitted_model]);
            } else {
                assert(errors_model(early_ctx.errors_view()) =~= before
                    + Seq::<LintErrorModel>::empty());
            }
        }
    }

    /// Drops the pending push: fusion never spans a block boundary.
    pub fn block_changed(&mut self, _block: &Block)
        ensures
            final(self).model() == pass_step(old(self).model(), Event::BlockEntered),
    {
        self.prev_push_instr = None;
    }
}

impl Default for PushImmediate {
    /// Same as [`PushImmediate::new`].
    fn default() -> (r: Self)
        ensures
            r.model() == PassModel::PushImmediate(None::<PendingPush>),
    {
        Self::new()
    }
}

/// The operand recorded when `instruction` is a single-value literal push,
/// or `None` for every other instruction — pushes of a list of values or of
/// a whole word never become a fusion candidate.
fn match_push_instruction(instruction: &SpannedInstruction) -> (r: Option<Immediate>)
    ensures
        match r {
            Some(imm) => push_operand(instruction.inst.model()) == Some(imm.model()),
            None => push_operand(instruction.inst.model()) is None,
        },
{
    match &instruction.inst {
        Instruction::Push(immediate) => Some(clone_immediate(immediate)),
        Instruction::PushU8(val) => Some(Immediate::Value(*val as u64)),
        Instruction::PushU16(val) => Some(Immediate::Value(*val as u64)),
        Instruction::PushU32(val) => Some(Immediate::Value(*val as u64)),
        Instruction::PushFelt(base_element) => Some(Immediate::Value(*base_element)),
        _ => None,
    }
}

/// A copy of an operand with the same content.
fn clone_immediate(imm: &Immediate) -> (r: Immediate)
    ensures
        r.model() == imm.model(),
{
    match imm {
        Immediate::Value(v) => Immediate::Value(*v),
        Immediate::Constant(name) => Immediate::Constant(name.clone()),
    }
}

/// The textual form `name.operand` of the fused immediate instruction.
fn build_alternative(name: &str, imm: &Immediate) -> (r: String)
    ensures
        r@ == fused_text(name@, imm.model()),
{
    let mut s = name.to_owned();
    s.append(".");
    match imm {
        Immediate::Value(v) => {
            push_decimal(&mut s, *v);
        },
        Immediate::Constant(c) => {
            s.append(c.as_str());
        },
    }
    proof {
        reveal_strlit(".");
        assert(s@ =~= name@ + seq!['.'] + imm_text(imm.model()));
    }
    s
}

/// The suggested replacement when the pending push (at `prev_span`, with
/// operand `imm`) is followed by `instruction`, or `None` when the pair
/// does not fuse.
fn match_non_immediate_instruction(
    prev_span: SourceSpan,
    imm: &Immediate,
    instruction: &SpannedInstruction,
) -> (r: Option<String>)
    ensures
        match r {
            Some(alt) => fused_alternative(
                instruction.inst.model(),
                imm.model(),
                prev_span == instruction.span,
            ) == Some(alt@),
            None => fused_alternative(
                instruction.inst.model(),
                imm.model(),
                prev_span == instruction.span,
            ) is None,
        },
{
    let guard_ok = prev_span != instruction.span;
    match &instruction.inst {
        Instruction::Add => Some(build_alternative("add", imm)),
        Instruction::Sub => Some(build_alternative("sub", imm)),
        Instruction::Mul => Some(build_alternative("mul", imm)),
        Instruction::Div => Some(build_alternative("div", imm)),
        Instruction::Exp => Some(build_alternative("exp", imm)),
        Instruction::Eq => Some(build_alternative("eq", imm)),
        Instruction::Neq => Some(build_alternative("neq", imm)),
        Instruction::Lt => if guard_ok {
            Some(build_alternative("lt", imm))
        } else {
            None
        },
        Instruction::Lte => if guard_ok {
            Some(build_alternative("lte", imm))
        } else {
            None
        },
        Instruction::Gt => if guard_ok {
            Some(build_alternative("gt", imm))
        } else {
            None
        },
        Instruction::Gte => if guard_ok {
            Some(build_alternative("gte", imm))
        } else {
            None
        },
        Instruction::U32WrappingAdd => Some(build_alternative("u32wrapping_add", imm)),
        Instruction::U32OverflowingAdd => Some(build_alternative("u32overflowing_add", imm)),
        Instruction::U32WrappingSub => Some(build_alternative("u32wrapping_sub", imm)),
        Instruction::U32OverflowingSub => Some(build_alternative("u32overflowing_sub", imm)),
        Instruction::U32WrappingMul => Some(build_alternative("u32wrapping_mul", imm)),
        Instruction::U32OverflowingMul => Some(build_alternative("u32overflowing_mul", imm)),
        Instruction::U32Div => Some(build_alternative("u32div", imm)),
        Instruction::U32Mod => Some(build_alternative("u32mod", imm)),
        Instruction::U32DivMod => Some(build_alternative("u32divmod", imm)),
        Instruction::U32And => if guard_ok {
            Some(build_alternative("u32and", imm))
        } else {
            None
        },
        Instruction::U32Or => if guard_ok {
            Some(build_alternative("u32or", imm))
        } else {
            None
        },
        Instruction::U32Xor => if guard_ok {
            Some(build_alternative("u32xor", imm))
        } else {
            None
        },
        Instruction::U32Not => if guard_ok {
            Some(build_alternative("u32not", imm))
        } else {
            None
        },
        Instruction::U32Shr => if guard_ok {
            Some(build_alternative("u32shr", imm))
        } else {
            None
        },
        Instruction::U32Shl => if guard_ok {
            Some(build_alternative("u32shl", imm))
        } else {
            None
        },
        Instruction::U32Rotr => if guard_ok {
            Some(build_alternative("u32rotr", imm))
        } else {
            None
        },
        Instruction::U32Rotl => if guard_ok {
            Some(build_alternative("u32rotl", imm))
        } else {
            None
        },
        Instruction::U32Lt => if guard_ok {
            Some(build_alternative("u32lt", imm))
        } else {
            None
        },
        Instruction::U32Lte => if guard_ok {
            Some(build_alternative("u32lte", imm))
        } else {
            None
        },
        Instruction::U32Gt => if guard_ok {
            Some(build_alternative("u32gt", imm))
        } else {
            None
        },
        Instruction::U32Gte => if guard_ok {
            Some(build_alternative("u32gte", imm))
        } else {
            None
        },
        Instruction::U32Min => if guard_ok {
            Some(build_alternative("u32min", imm))
        } else {
            None
        },
        Instruction::U32Max => if guard_ok {
            Some(build_alternative("u32max", imm))
        } else {
            None
        },
        Instruction::MemLoad => Some(build_alternative("mem_load", imm)),
        Instruction::MemLoadW => Some(build_alternative("mem_loadw", imm)),
        Instruction::MemStore => Some(build_alternative("mem_store", imm)),
        Instruction::MemStoreW => Some(build_alternative("mem_storew", imm)),
        _ => None,
    }
}

} // verus!
