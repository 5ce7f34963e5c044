//! The lint engine: a depth-first, pre-order walk of every exported
//! procedure body that feeds instructions and block-entry events to each
//! active pass, in list order, and collects the violations they push.

use vstd::prelude::*;

use crate::ast::{Block, Form, Op, SpannedInstruction};
use crate::errors::{errors_model, LintError, LinterError};
use crate::lints::bare_assert::BareAssert;
use crate::lints::push_immediate::PushImmediate;
use crate::model::{
    block_events, form_events, forms_events, lemma_forms_events_push, lemma_ops_events_push,
    lemma_passes_emit_block_entered, lemma_passes_emit_push, lemma_run_app, lemma_run_one,
    op_events, ops_events, pass_emit, pass_step, passes_emit, passes_step, run_emit, run_states,
    Event, PassModel,
};

verus! {

/// One active lint pass, tagged with the state it carries.
pub enum LintPass {
    BareAssert(BareAssert),
    PushImmediate(PushImmediate),
}

impl LintPass {
    /// The ghost state of this pass.
    pub open spec fn model(&self) -> PassModel {
        match self {
            LintPass::BareAssert(_) => PassModel::BareAssert,
            LintPass::PushImmediate(p) => p.model(),
        }
    }

    /// Reacts to one plain instruction: possibly pushes a violation and
    /// updates the pass state.
    pub fn lint_instruction(
        &mut self,
        early_ctx: &mut EarlyContext,
        instruction: &SpannedInstruction,
    )
        ensures
            final(self).model() == pass_step(
                old(self).model(),
                Event::Inst(instruction.span, instruction.inst.model()),
            ),
            errors_model(final(early_ctx).errors_view()) == errors_model(
                old(early_ctx).errors_view(),
            ) + pass_emit(
                old(self).model(),
                Event::Inst(instruction.span, instruction.inst.model()),
            ),
    {
        match self {
            LintPass::BareAssert(p) => p.lint_instruction(early_ctx, instruction),
            LintPass::PushImmediate(p) => p.lint_instruction(early_ctx, instruction),
        }
    }

    /// Reacts to a block boundary: cross-instruction state must not survive
    /// it.
    pub fn block_changed(&mut self, block: &Block)
        ensures
            final(self).model() == pass_step(old(self).model(), Event::BlockEntered),
    {
        match self {
            LintPass::BareAssert(_) => {},
            LintPass::PushImmediate(p) => p.block_changed(block),
        }
    }
}

/// The ghost states of a pass list, in order.
pub open spec fn passes_model(s: Seq<LintPass>) -> Seq<PassModel> {
    s.map_values(|p: LintPass| p.model())
}

/// The run's view of the world handed to each pass: the sink the violations
/// go to.
pub struct EarlyContext {
    errors: Vec<LintError>,
}

/// A mutable borrow of the `j`-th pass of the list.
fn pass_at(lints: &mut Vec<LintPass>, j: usize) -> (element: &mut LintPass)
    requires
        j < old(lints)@.len(),
    ensures
        *element == old(lints)@[j as int],
        final(lints)@ == old(lints)@.update(j as int, *final(element)),
{
    &mut lints[j]
}

/// Tells every pass, in list order, that a body is about to be visited.
fn notify_block_entered(lints: &mut Vec<LintPass>, block: &Block)
    ensures
        passes_model(final(lints)@) == passes_step(passes_model(old(lints)@), Event::BlockEntered),
{
    let ghost ps0 = passes_model(lints@);
    let n = lints.len();
    let mut j: usize = 0;
    while j < n
        invariant
            n == lints@.len(),
            j <= n,
            ps0.len() == n,
            forall|k: int|
                0 <= k < j ==> (#[trigger] lints@[k]).model() == pass_step(
                    ps0[k],
                    Event::BlockEntered,
                ),
            forall|k: int| j <= k < n ==> (#[trigger] lints@[k]).model() == ps0[k],
        decreases n - j,
    {
        let pass = &mut lints[j];
        pass.block_changed(block);
        j += 1;
    }
    proof {
        assert(passes_model(lints@) =~= passes_step(ps0, Event::BlockEntered));
    }
}

impl EarlyContext {
    /// The violations collected so far, in the order they were pushed.
    pub closed spec fn errors_view(&self) -> Seq<LintError> {
        self.errors@
    }

    /// Pushes one violation into the sink.
    pub fn push_error(&mut self, error: LintError)
        ensures
            final(self).errors_view() == old(self).errors_view().push(error),
    {
        self.errors.push(error);
    }
}

/// Feeds one plain instruction to every pass, in list order.
fn dispatch_instruction(
    ctx: &mut EarlyContext,
    lints: &mut Vec<LintPass>,
    instruction: &SpannedInstruction,
)
    ensures
        passes_model(final(lints)@) == passes_step(
            passes_model(old(lints)@),
            Event::Inst(instruction.span, instruction.inst.model()),
        ),
        errors_model(final(ctx).errors_view()) == errors_model(old(ctx).errors_view())
            + passes_emit(
            passes_model(old(lints)@),
            Event::Inst(instruction.span, instruction.inst.model()),
        ),
{
    let ghost e = Event::Inst(instruction.span, instruction.inst.model());
    let ghost ps0 = passes_model(lints@);
    let ghost errs0 = errors_model(ctx.errors_view());
    let n = lints.len();
    let mut j: usize = 0;
    while j < n
        invariant
            e == Event::Inst(instruction.span, instruction.inst.model()),
            n == lints@.len(),
            j <= n,
            ps0.len() == n,
            forall|k: int|
                0 <= k < j ==> (#[trigger] lints@[k]).model() == pass_step(ps0[k], e),
            forall|k: int| j <= k < n ==> (#[trigger] lints@[k]).model() == ps0[k],
            errors_model(ctx.errors_view()) == errs0 + passes_emit(ps0.take(j as int), e),
        decreases n - j,
    {
        let ghost lints_before = lints@;
        proof {
            assert(lints_before[j as int].model() == ps0[j as int]);
        }
        let pass = pass_at(lints, j);
        pass.lint_instruction(ctx, instruction);
        proof {
            assert(lints@[j as int].model() == pass_step(ps0[j as int], e));
            assert(forall|k: int|
                0 <= k < lints_before.len() && k != j ==> lints@[k] == lints_before[k]);
            assert(ps0.take(j as int + 1) =~= ps0.take(j as int).push(ps0[j as int]));
            lemma_passes_emit_push(ps0.take(j as int), ps0[j as int], e);
            assert(errs0 + passes_emit(ps0.take(j as int + 1), e) =~= (errs0 + passes_emit(
                ps0.take(j as int),
                e,
            )) + pass_emit(ps0[j as int], e));
        }
        j += 1;
    }
    proof {
        assert(ps0.take(n as int) =~= ps0);
        assert(passes_model(lints@) =~= passes_step(ps0, e));
    }
}

/// Walks one body: a block-entered event first, then its operations in
/// source order, recursing depth-first into the bodies of control nodes.
fn lint_block(ctx: &mut EarlyContext, block: &Block, lints: &mut Vec<LintPass>)
    ensures
        passes_model(final(lints)@) == run_states(
            passes_model(old(lints)@),
            block_events(*block),
        ),
        errors_model(final(ctx).errors_view()) == errors_model(old(ctx).errors_view())
            + run_emit(passes_model(old(lints)@), block_events(*block)),
    decreases *block,
{
    let ghost ps0 = passes_model(lints@);
    let ghost errs0 = errors_model(ctx.errors_view());
    notify_block_entered(lints, block);
    proof {
        lemma_run_one(ps0, Event::BlockEntered);
        lemma_passes_emit_block_entered(ps0);
        assert(errs0 + run_emit(ps0, seq![Event::BlockEntered]) =~= errs0);
        assert(seq![Event::BlockEntered] + ops_events(block.ops@.take(0)) =~= seq![
            Event::BlockEntered,
        ]);
    }
    let n = block.ops.len();
    let mut i: usize = 0;
    while i < n
        invariant
            n == block.ops@.len(),
            i <= n,
            passes_model(lints@) == run_states(
                ps0,
                seq![Event::BlockEntered] + ops_events(block.ops@.take(i as int)),
            ),
            errors_model(ctx.errors_view()) == errs0 + run_emit(
                ps0,
                seq![Event::BlockEntered] + ops_events(block.ops@.take(i as int)),
            ),
        decreases n - i,
    {
        let ghost pre = seq![Event::BlockEntered] + ops_events(block.ops@.take(i as int));
        let ghost ps_cur = passes_model(lints@);
        let op = &block.ops[i];
        match op {
            Op::Inst(si) => {
                dispatch_instruction(ctx, lints, si);
                proof {
                    let e = Event::Inst(si.span, si.inst.model());
                    lemma_run_one(ps_cur, e);
                    assert(op_events(block.ops@[i as int]) == seq![e]);
                }
            },
            Op::If { then_blk, else_blk } => {
                proof {
                    assert(decreases_to!(*block => block.ops));
                    assert(decreases_to!(block.ops => block.ops@));
                    assert(decreases_to!(block.ops@ => block.ops@[i as int]));
                    assert(decreases_to!(block.ops@[i as int] => *then_blk));
                    assert(decreases_to!(block.ops@[i as int] => *else_blk));
                }
                lint_block(ctx, then_blk, lints);
                lint_block(ctx, else_blk, lints);
                proof {
                    lemma_run_app(ps_cur, block_events(*then_blk), block_events(*else_blk));
                    assert(op_events(block.ops@[i as int]) == block_events(*then_blk)
                        + block_events(*else_blk));
                }
            },
            Op::While { body } => {
                proof {
                    assert(decreases_to!(*block => block.ops));
                    assert(decreases_to!(block.ops => block.ops@));
                    assert(decreases_to!(block.ops@ => block.ops@[i as int]));
                    assert(decreases_to!(block.ops@[i as int] => *body));
                }
                lint_block(ctx, body, lints);
                proof {
                    assert(op_events(block.ops@[i as int]) == block_events(*body));
                }
            },
            Op::Repeat { body } => {
                proof {
                    assert(decreases_to!(*block => block.ops));
                    assert(decreases_to!(block.ops => block.ops@));
                    assert(decreases_to!(block.ops@ => block.ops@[i as int]));
                    assert(decreases_to!(block.ops@[i as int] => *body));
                }
                lint_block(ctx, body, lints);
                proof {
                    assert(op_events(block.ops@[i as int]) == block_events(*body));
                }
            },
        }
        proof {
            let seg = op_events(block.ops@[i as int]);
            lemma_run_app(ps0, pre, seg);
            lemma_ops_events_push(block.ops@.take(i as int), block.ops@[i as int]);
            assert(block.ops@.take(i as int + 1) =~= block.ops@.take(i as int).push(
                block.ops@[i as int],
            ));
            assert(seq![Event::BlockEntered] + ops_events(block.ops@.take(i as int + 1)) =~= pre
                + seg);
            assert(passes_model(lints@) =~= run_states(ps0, pre + seg));
            assert(errors_model(ctx.errors_view()) =~= errs0 + run_emit(ps0, pre + seg));
        }
        i += 1;
    }
    proof {
        assert(block.ops@.take(n as int) =~= block.ops@);
        assert(block_events(*block) == seq![Event::BlockEntered] + ops_events(block.ops@));
    }
}

/// Walks every exported procedure of a parsed source unit, in order.
fn early_lint(ctx: &mut EarlyContext, lints: &mut Vec<LintPass>, forms: &Vec<Form>)
    ensures
        passes_model(final(lints)@) == run_states(
            passes_model(old(lints)@),
            forms_events(forms@),
        ),
        errors_model(final(ctx).errors_view()) == errors_model(old(ctx).errors_view())
            + run_emit(passes_model(old(lints)@), forms_events(forms@)),
{
    let ghost ps0 = passes_model(lints@);
    let ghost errs0 = errors_model(ctx.errors_view());
    let n = forms.len();
    let mut i: usize = 0;
    while i < n
        invariant
            n == forms@.len(),
            i <= n,
            passes_model(lints@) == run_states(ps0, forms_events(forms@.take(i as int))),
            errors_model(ctx.errors_view()) == errs0 + run_emit(
                ps0,
                forms_events(forms@.take(i as int)),
            ),
        decreases n - i,
    {
        let ghost pre = forms_events(forms@.take(i as int));
        let form = &forms[i];
        match form {
            Form::Procedure(p) => {
                lint_block(ctx, &p.body, lints);
                proof {
                    assert(form_events(forms@[i as int]) == block_events(p.body));
                }
            },
            Form::Other => {
                proof {
                    assert(form_events(forms@[i as int]) =~= Seq::<Event>::empty());
                }
            },
        }
        proof {
            let seg = form_events(forms@[i as int]);
            lemma_run_app(ps0, pre, seg);
            lemma_forms_events_push(forms@.take(i as int), forms@[i as int]);
            assert(forms@.take(i as int + 1) =~= forms@.take(i as int).push(
                forms@[i as int],
            ));
            assert(forms_events(forms@.take(i as int + 1)) =~= pre + seg);
            assert(passes_model(lints@) =~= run_states(ps0, pre + seg));
            assert(errors_model(ctx.errors_view()) =~= errs0 + run_emit(ps0, pre + seg));
        }
        i += 1;
    }
    proof {
        assert(forms@.take(n as int) =~= forms@);
    }
}

/// A linter run: owns the accumulated violations and turns them into the
/// final verdict.
pub struct Linter {
    errors: Vec<LintError>,
}

impl Linter {
    /// The violations accumulated so far.
    pub closed spec fn errors_view(&self) -> Seq<LintError> {
        self.errors@
    }

    /// A fresh run with no findings.
    pub fn new() -> (r: Self)
        ensures
            r.errors_view() == Seq::<LintError>::empty(),
    {
        let r = Self { errors: Vec::new() };
        proof {
            assert(r.errors_view() =~= Seq::<LintError>::empty());
        }
        r
    }

    /// Runs the given passes over a parsed source unit.
    ///
    /// Returns `Ok` when no pass reported a violation, and otherwise every
    /// violation of the run — in traversal order, appended to whatever this
    /// run had already accumulated — wrapped in [`LinterError::Lints`].
    pub fn lint(self, early_lints: Vec<LintPass>, forms: &Vec<Form>) -> (r: Result<
        (),
        LinterError,
    >)
        ensures
            ({
                let produced = errors_model(self.errors_view()) + run_emit(
                    passes_model(early_lints@),
                    forms_events(forms@),
                );
                match r {
                    Ok(_) => produced.len() == 0,
                    Err(e) => e matches LinterError::Lints { errors: es }
                        && errors_model(es@) == produced && produced.len() > 0,
                }
            }),
    {
        let mut lints = early_lints;
        let mut ctx = EarlyContext { errors: self.errors };
        early_lint(&mut ctx, &mut lints, forms);
        let errors = ctx.errors;
        if errors.is_empty() {
            Ok(())
        } else {
            Err(LinterError::new_lints(errors))
        }
    }
}

impl Default for Linter {
    /// Same as [`Linter::new`].
    fn default() -> (r: Self)
        ensures
            r.errors_view() == Seq::<LintError>::empty(),
    {
        Self::new()
    }
}

} // verus!
