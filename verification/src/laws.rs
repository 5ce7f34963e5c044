//! Properties of the passes that hold for every program tree, proved once
//! and for all against the run model of [`crate::model`].

use vstd::prelude::*;

use crate::ast::{Block, InstrModel, Op, SourceSpan, SpannedInstruction, span_union};
use crate::errors::LintErrorModel;
use crate::model::{
    bare_assert_suggestion, block_events, fused_text, is_bare_assert,
    lemma_passes_emit_block_entered, lemma_run_app, lemma_run_one, ops_events, op_events,
    pass_emit, pass_step, passes_emit, passes_step, run_emit, run_states,
    span_guarded_fusion_mnemonic, unconditional_fusion_mnemonic, Event, PassModel, PendingPush,
};

verus! {

/// Running the bare-assert pass over a body holding exactly one instruction
/// yields exactly one violation — at that instruction's own span,
/// suggesting its "with message" sibling — when the instruction belongs to
/// the bare-assert family, and no violation otherwise.
pub proof fn lemma_bare_assert_on_single_instruction(b: Block, si: SpannedInstruction)
    requires
        b.ops@ == seq![Op::Inst(si)],
    ensures
        is_bare_assert(si.inst.model()) ==> run_emit(
            seq![PassModel::BareAssert],
            block_events(b),
        ) == seq![
            LintErrorModel::BareAssert {
                span: si.span,
                assert_with_error: bare_assert_suggestion(si.inst.model())->0,
            },
        ],
        !is_bare_assert(si.inst.model()) ==> run_emit(
            seq![PassModel::BareAssert],
            block_events(b),
        ) == Seq::<LintErrorModel>::empty(),
{
    let ps = seq![PassModel::BareAssert];
    let e1 = Event::BlockEntered;
    let e2 = Event::Inst(si.span, si.inst.model());
    assert(b.ops@.drop_first() =~= Seq::<Op>::empty());
    assert(ops_events(b.ops@) == op_events(b.ops@[0]) + ops_events(b.ops@.drop_first()));
    assert(block_events(b) =~= seq![e1] + seq![e2]);
    lemma_run_app(ps, seq![e1], seq![e2]);
    lemma_run_one(ps, e1);
    lemma_run_one(ps, e2);
    assert(ps.drop_first() =~= Seq::<PassModel>::empty());
    lemma_passes_emit_block_entered(ps);
    assert(run_states(ps, seq![e1]) =~= ps);
    assert(passes_emit(ps.drop_first(), e2) =~= Seq::<LintErrorModel>::empty());
    match bare_assert_suggestion(si.inst.model()) {
        Some(sugg) => {
            assert(pass_emit(ps[0], e2) == seq![
                LintErrorModel::BareAssert { span: si.span, assert_with_error: sugg },
            ]);
            assert(passes_emit(ps, e2) =~= pass_emit(ps[0], e2));
            assert(run_emit(ps, block_events(b)) =~= pass_emit(ps[0], e2));
        },
        None => {
            assert(passes_emit(ps, e2) =~= Seq::<LintErrorModel>::empty());
            assert(run_emit(ps, block_events(b)) =~= Seq::<LintErrorModel>::empty());
        },
    }
}

/// Whatever push was pending when a body is about to be entered has no
/// effect inside it: the block-entered event at the start of every body
/// clears the fusion pass's state, so a push never fuses across a block
/// boundary — in particular not with the first instruction of a branch.
pub proof fn lemma_pending_push_cleared_on_block_entry(
    p: Option<PendingPush>,
    q: Option<PendingPush>,
    b: Block,
)
    ensures
        run_emit(seq![PassModel::PushImmediate(p)], block_events(b)) == run_emit(
            seq![PassModel::PushImmediate(q)],
            block_events(b),
        ),
        run_states(seq![PassModel::PushImmediate(p)], block_events(b)) == run_states(
            seq![PassModel::PushImmediate(q)],
            block_events(b),
        ),
{
    let ps_p = seq![PassModel::PushImmediate(p)];
    let ps_q = seq![PassModel::PushImmediate(q)];
    let evs = block_events(b);
    assert(evs[0] == Event::BlockEntered);
    assert(evs.len() >= 1);
    assert(passes_step(ps_p, Event::BlockEntered) =~= seq![
        PassModel::PushImmediate(None::<PendingPush>),
    ]);
    assert(passes_step(ps_q, Event::BlockEntered) =~= seq![
        PassModel::PushImmediate(None::<PendingPush>),
    ]);
    assert(ps_p.drop_first() =~= Seq::<PassModel>::empty());
    assert(ps_q.drop_first() =~= Seq::<PassModel>::empty());
    lemma_passes_emit_block_entered(ps_p);
    lemma_passes_emit_block_entered(ps_q);
    assert(run_emit(ps_p, evs) == passes_emit(ps_p, evs[0]) + run_emit(
        passes_step(ps_p, evs[0]),
        evs.drop_first(),
    ));
    assert(run_emit(ps_q, evs) == passes_emit(ps_q, evs[0]) + run_emit(
        passes_step(ps_q, evs[0]),
        evs.drop_first(),
    ));
    assert(run_emit(ps_p, evs) =~= run_emit(ps_q, evs));
    assert(run_states(ps_p, evs) == run_states(ps_q, evs));
}

/// Operators of the unconditional subset fuse with a pending push whatever
/// the span relation is; span-guarded operators fuse exactly when the
/// push's span differs from the operator's.
pub proof fn lemma_fusion_span_guard(pending: PendingPush, span: SourceSpan, m: InstrModel)
    ensures
        unconditional_fusion_mnemonic(m) matches Some(name) ==> pass_emit(
            PassModel::PushImmediate(Some(pending)),
            Event::Inst(span, m),
        ) == seq![
            LintErrorModel::PushImmediate {
                span: span_union(pending.span, span),
                alternative: fused_text(name, pending.imm),
            },
        ],
        span_guarded_fusion_mnemonic(m) matches Some(name) ==> pass_emit(
            PassModel::PushImmediate(Some(pending)),
            Event::Inst(span, m),
        ) == (if pending.span != span {
            seq![
                LintErrorModel::PushImmediate {
                    span: span_union(pending.span, span),
                    alternative: fused_text(name, pending.imm),
                },
            ]
        } else {
            Seq::<LintErrorModel>::empty()
        }),
{
}

/// An instruction that pushes a list of values, or a whole word, never
/// becomes a pending push: after it the fusion pass holds no candidate.
pub proof fn lemma_multi_value_push_clears_pending(p: PassModel, span: SourceSpan, m: InstrModel)
    requires
        p is PushImmediate,
        m == InstrModel::PushU8List || m == InstrModel::PushU16List || m
            == InstrModel::PushU32List || m == InstrModel::PushFeltList || m
            == InstrModel::PushWord,
    ensures
        pass_step(p, Event::Inst(span, m)) == PassModel::PushImmediate(None::<PendingPush>),
{
}

} // verus!
