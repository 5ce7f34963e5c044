//! The specification of a lint run.
//!
//! A run is modeled as a fold over the stream of events that a depth-first,
//! pre-order walk of a program tree produces: one `BlockEntered` event at
//! the start of every body (including nested branch and loop bodies), and
//! one `Inst` event per plain instruction, in source order.  Each pass is a
//! small state machine over that stream: [`pass_step`] gives its next state
//! and [`pass_emit`] the violations it reports on one event.  [`run_emit`]
//! folds a whole pass list over a whole stream and is what the executable
//! engine is proved against.

use vstd::prelude::*;

use crate::ast::{span_union, Block, Form, ImmModel, InstrModel, Op, SourceSpan};
use crate::errors::LintErrorModel;
use crate::text::dec_str;

verus! {

// ---------------------------------------------------------------------------
// Instruction classification
// ---------------------------------------------------------------------------

/// The placeholder message a bare-assert suggestion is pre-filled with.  It
/// is illustrative only; downstream tooling shows it, nobody applies it
/// verbatim.
pub open spec fn placeholder_message() -> Seq<char> {
    "helpful error message"@
}

/// The "with message" sibling of a bare verification instruction, pre-filled
/// with the placeholder message, or `None` if `m` is not in the bare-assert
/// family.
pub open spec fn bare_assert_suggestion(m: InstrModel) -> Option<InstrModel> {
    match m {
        InstrModel::Assert => Some(InstrModel::AssertWithError(placeholder_message())),
        InstrModel::AssertEq => Some(InstrModel::AssertEqWithError(placeholder_message())),
        InstrModel::AssertEqw => Some(InstrModel::AssertEqwWithError(placeholder_message())),
        InstrModel::Assertz => Some(InstrModel::AssertzWithError(placeholder_message())),
        InstrModel::U32Assert => Some(InstrModel::U32AssertWithError(placeholder_message())),
        InstrModel::U32Assert2 => Some(InstrModel::U32Assert2WithError(placeholder_message())),
        InstrModel::U32AssertW => Some(InstrModel::U32AssertWWithError(placeholder_message())),
        InstrModel::MTreeVerify => Some(InstrModel::MTreeVerifyWithError(placeholder_message())),
        _ => None,
    }
}

/// Membership in the bare-assert family.
pub open spec fn is_bare_assert(m: InstrModel) -> bool {
    bare_assert_suggestion(m) is Some
}

/// The operand recorded when `m` is a single-value literal push, or `None`
/// for every other instruction — including pushes of a list of values or of
/// a whole word, which never become a fusion candidate.
pub open spec fn push_operand(m: InstrModel) -> Option<ImmModel> {
    match m {
        InstrModel::Push(imm) => Some(imm),
        InstrModel::PushU8(v) => Some(ImmModel::Value(v as u64)),
        InstrModel::PushU16(v) => Some(ImmModel::Value(v as u64)),
        InstrModel::PushU32(v) => Some(ImmModel::Value(v as u64)),
        InstrModel::PushFelt(v) => Some(ImmModel::Value(v)),
        _ => None,
    }
}

/// The textual form of an operand: the decimal digits of a literal value, or
/// the name of a constant reference.
pub open spec fn imm_text(imm: ImmModel) -> Seq<char> {
    match imm {
        ImmModel::Value(v) => dec_str(v as nat),
        ImmModel::Constant(name) => name,
    }
}

/// The textual form `name.operand` of an immediate instruction.
pub open spec fn fused_text(name: Seq<char>, imm: ImmModel) -> Seq<char> {
    name + seq!['.'] + imm_text(imm)
}

/// The base mnemonic of an operator that fuses with a preceding push
/// unconditionally, or `None` for every other instruction.
pub open spec fn unconditional_fusion_mnemonic(m: InstrModel) -> Option<Seq<char>> {
    match m {
        InstrModel::Add => Some("add"@),
        InstrModel::Sub => Some("sub"@),
        InstrModel::Mul => Some("mul"@),
        InstrModel::Div => Some("div"@),
        InstrModel::Exp => Some("exp"@),
        InstrModel::Eq => Some("eq"@),
        InstrModel::Neq => Some("neq"@),
        InstrModel::U32WrappingAdd => Some("u32wrapping_add"@),
        InstrModel::U32OverflowingAdd => Some("u32overflowing_add"@),
        InstrModel::U32WrappingSub => Some("u32wrapping_sub"@),
        InstrModel::U32OverflowingSub => Some("u32overflowing_sub"@),
        InstrModel::U32WrappingMul => Some("u32wrapping_mul"@),
        InstrModel::U32OverflowingMul => Some("u32overflowing_mul"@),
        InstrModel::U32Div => Some("u32div"@),
        InstrModel::U32Mod => Some("u32mod"@),
        InstrModel::U32DivMod => Some("u32divmod"@),
        InstrModel::MemLoad => Some("mem_load"@),
        InstrModel::MemLoadW => Some("mem_loadw"@),
        InstrModel::MemStore => Some("mem_store"@),
        InstrModel::MemStoreW => Some("mem_storew"@),
        _ => None,
    }
}

/// The base mnemonic of an operator that fuses with a preceding push only
/// when the two spans differ, or `None` for every other instruction.
///
/// For these operators the front end desugars compact operator-with-literal
/// syntax into a push plus the base operator where both keep the original
/// span; identical spans therefore prove the pair was already fused in the
/// source, and flagging it would be a false positive.
pub open spec fn span_guarded_fusion_mnemonic(m: InstrModel) -> Option<Seq<char>> {
    match m {
        InstrModel::Lt => Some("lt"@),
        InstrModel::Lte => Some("lte"@),
        InstrModel::Gt => Some("gt"@),
        InstrModel::Gte => Some("gte"@),
        InstrModel::U32And => Some("u32and"@),
        InstrModel::U32Or => Some("u32or"@),
        InstrModel::U32Xor => Some("u32xor"@),
        InstrModel::U32Not => Some("u32not"@),
        InstrModel::U32Shr => Some("u32shr"@),
        InstrModel::U32Shl => Some("u32shl"@),
        InstrModel::U32Rotr => Some("u32rotr"@),
        InstrModel::U32Rotl => Some("u32rotl"@),
        InstrModel::U32Lt => Some("u32lt"@),
        InstrModel::U32Lte => Some("u32lte"@),
        InstrModel::U32Gt => Some("u32gt"@),
        InstrModel::U32Gte => Some("u32gte"@),
        InstrModel::U32Min => Some("u32min"@),
        InstrModel::U32Max => Some("u32max"@),
        _ => None,
    }
}

/// The suggested replacement when a pending push with operand `imm` is
/// followed by the instruction `m`, or `None` when the pair does not fuse.
/// `same_span` says whether the push's span equals the span of `m`'s
/// occurrence.
pub open spec fn fused_alternative(m: InstrModel, imm: ImmModel, same_span: bool) -> Option<
    Seq<char>,
> {
    match unconditional_fusion_mnemonic(m) {
        Some(name) => Some(fused_text(name, imm)),
        None => match span_guarded_fusion_mnemonic(m) {
            Some(name) => if !same_span {
                Some(fused_text(name, imm))
            } else {
                None
            },
            None => None,
        },
    }
}

// ---------------------------------------------------------------------------
// The event stream of a traversal
// ---------------------------------------------------------------------------

/// One event seen by a pass during the walk of a program tree.
pub enum Event {
    /// A body — top-level or nested — is about to be visited.
    BlockEntered,
    /// A plain instruction at the given span.
    Inst(SourceSpan, InstrModel),
}

/// The events of one operation: an instruction event, or the events of the
/// nested bodies of a control node, in source order (`then` before `else`).
pub open spec fn op_events(op: Op) -> Seq<Event>
    decreases op,
{
    match op {
        Op::Inst(si) => seq![Event::Inst(si.span, si.inst.model())],
        Op::If { then_blk, else_blk } => block_events(then_blk) + block_events(else_blk),
        Op::While { body } => block_events(body),
        Op::Repeat { body } => block_events(body),
    }
}

/// The events of a list of operations, in order.
pub open spec fn ops_events(ops: Seq<Op>) -> Seq<Event>
    decreases ops,
{
    if ops.len() == 0 {
        seq![]
    } else {
        op_events(ops[0]) + ops_events(ops.drop_first())
    }
}

/// The events of a body: entering it, then its operations.
pub open spec fn block_events(b: Block) -> Seq<Event>
    decreases b,
{
    seq![Event::BlockEntered] + ops_events(b.ops@)
}

/// The events of one top-level form: procedures contribute their body's
/// events, every other form contributes nothing.
pub open spec fn form_events(f: Form) -> Seq<Event> {
    match f {
        Form::Procedure(p) => block_events(p.body),
        Form::Other => seq![],
    }
}

/// The events of a whole source unit, in order.
pub open spec fn forms_events(forms: Seq<Form>) -> Seq<Event>
    decreases forms,
{
    if forms.len() == 0 {
        seq![]
    } else {
        form_events(forms[0]) + forms_events(forms.drop_first())
    }
}

// ---------------------------------------------------------------------------
// Pass state machines
// ---------------------------------------------------------------------------

/// A literal push that may still fuse with the next instruction.
pub struct PendingPush {
    pub span: SourceSpan,
    pub imm: ImmModel,
}

/// The state of one pass: the bare-assert pass is stateless, the fusion pass
/// remembers at most the one literal push seen right before.
pub enum PassModel {
    BareAssert,
    PushImmediate(Option<PendingPush>),
}

/// The state of pass `p` after event `e`.  A pending push is recomputed on
/// every instruction and dropped on every block boundary.
pub open spec fn pass_step(p: PassModel, e: Event) -> PassModel {
    match p {
        PassModel::BareAssert => PassModel::BareAssert,
        PassModel::PushImmediate(_) => match e {
            Event::BlockEntered => PassModel::PushImmediate(None),
            Event::Inst(span, m) => PassModel::PushImmediate(
                match push_operand(m) {
                    Some(imm) => Some(PendingPush { span, imm }),
                    None => None,
                },
            ),
        },
    }
}

/// The violations pass `p` reports on event `e`.
pub open spec fn pass_emit(p: PassModel, e: Event) -> Seq<LintErrorModel> {
    match (p, e) {
        (PassModel::BareAssert, Event::Inst(span, m)) => match bare_assert_suggestion(m) {
            Some(sugg) => seq![LintErrorModel::BareAssert { span, assert_with_error: sugg }],
            None => seq![],
        },
        (PassModel::PushImmediate(Some(pending)), Event::Inst(span, m)) => match fused_alternative(
            m,
            pending.imm,
            pending.span == span,
        ) {
            Some(alt) => seq![
                LintErrorModel::PushImmediate {
                    span: span_union(pending.span, span),
                    alternative: alt,
                },
            ],
            None => seq![],
        },
        _ => seq![],
    }
}

// ---------------------------------------------------------------------------
// Running a pass list over an event stream
// ---------------------------------------------------------------------------

/// All pass states stepped by one event.
pub open spec fn passes_step(ps: Seq<PassModel>, e: Event) -> Seq<PassModel> {
    ps.map_values(|p: PassModel| pass_step(p, e))
}

/// The violations of one event, concatenated over the passes in list order.
pub open spec fn passes_emit(ps: Seq<PassModel>, e: Event) -> Seq<LintErrorModel>
    decreases ps,
{
    if ps.len() == 0 {
        seq![]
    } else {
        pass_emit(ps[0], e) + passes_emit(ps.drop_first(), e)
    }
}

/// The pass states after a whole event stream.
pub open spec fn run_states(ps: Seq<PassModel>, evs: Seq<Event>) -> Seq<PassModel>
    decreases evs,
{
    if evs.len() == 0 {
        ps
    } else {
        run_states(passes_step(ps, evs[0]), evs.drop_first())
    }
}

/// The violations of a whole event stream, in sink order: event by event,
/// and per event pass by pass.
pub open spec fn run_emit(ps: Seq<PassModel>, evs: Seq<Event>) -> Seq<LintErrorModel>
    decreases evs,
{
    if evs.len() == 0 {
        seq![]
    } else {
        passes_emit(ps, evs[0]) + run_emit(passes_step(ps, evs[0]), evs.drop_first())
    }
}

// ---------------------------------------------------------------------------
// Composition lemmas
// ---------------------------------------------------------------------------

/// A run over a concatenated stream is the run over the first part followed
/// by the run over the second, started from the states the first part left.
pub proof fn lemma_run_app(ps: Seq<PassModel>, a: Seq<Event>, b: Seq<Event>)
    ensures
        run_states(ps, a + b) == run_states(run_states(ps, a), b),
        run_emit(ps, a + b) == run_emit(ps, a) + run_emit(run_states(ps, a), b),
    decreases a.len(),
{
    if a.len() == 0 {
        assert(a + b =~= b);
        assert(run_emit(ps, a) + run_emit(ps, b) =~= run_emit(ps, b));
    } else {
        let ps1 = passes_step(ps, a[0]);
        assert((a + b)[0] == a[0]);
        assert((a + b).drop_first() =~= a.drop_first() + b);
        lemma_run_app(ps1, a.drop_first(), b);
        assert(run_emit(ps, a + b) =~= run_emit(ps, a) + run_emit(run_states(ps, a), b));
    }
}

/// A run over a single event steps every pass once and emits that event's
/// violations.
pub proof fn lemma_run_one(ps: Seq<PassModel>, e: Event)
    ensures
        run_states(ps, seq![e]) == passes_step(ps, e),
        run_emit(ps, seq![e]) == passes_emit(ps, e),
{
    let evs = seq![e];
    assert(evs.len() == 1);
    assert(evs[0] == e);
    let rest = evs.drop_first();
    assert(rest =~= Seq::<Event>::empty());
    assert(run_states(ps, evs) == run_states(passes_step(ps, e), rest));
    assert(run_states(passes_step(ps, e), rest) == passes_step(ps, e));
    assert(run_emit(ps, evs) == passes_emit(ps, e) + run_emit(passes_step(ps, e), rest));
    assert(run_emit(passes_step(ps, e), rest) =~= Seq::<LintErrorModel>::empty());
    assert(passes_emit(ps, e) + Seq::<LintErrorModel>::empty() =~= passes_emit(ps, e));
}

/// Appending a pass to the list appends its violations to the event's
/// output.
pub proof fn lemma_passes_emit_push(ps: Seq<PassModel>, p: PassModel, e: Event)
    ensures
        passes_emit(ps.push(p), e) == passes_emit(ps, e) + pass_emit(p, e),
    decreases ps.len(),
{
    let q = ps.push(p);
    if ps.len() == 0 {
        assert(q[0] == p);
        assert(q.drop_first() =~= Seq::<PassModel>::empty());
        assert(passes_emit(q, e) == pass_emit(p, e) + passes_emit(q.drop_first(), e));
        assert(passes_emit(q.drop_first(), e) =~= Seq::<LintErrorModel>::empty());
        assert(passes_emit(q, e) =~= passes_emit(ps, e) + pass_emit(p, e));
    } else {
        assert(q[0] == ps[0]);
        assert(q.drop_first() =~= ps.drop_first().push(p));
        lemma_passes_emit_push(ps.drop_first(), p, e);
        assert(passes_emit(q, e) == pass_emit(ps[0], e) + (passes_emit(ps.drop_first(), e)
            + pass_emit(p, e)));
        assert(passes_emit(ps, e) == pass_emit(ps[0], e) + passes_emit(ps.drop_first(), e));
        assert(passes_emit(q, e) =~= passes_emit(ps, e) + pass_emit(p, e));
    }
}

/// No pass reports anything on a block boundary.
pub proof fn lemma_passes_emit_block_entered(ps: Seq<PassModel>)
    ensures
        passes_emit(ps, Event::BlockEntered) == Seq::<LintErrorModel>::empty(),
    decreases ps.len(),
{
    if ps.len() == 0 {
    } else {
        lemma_passes_emit_block_entered(ps.drop_first());
        assert(pass_emit(ps[0], Event::BlockEntered) =~= Seq::<LintErrorModel>::empty());
        assert(passes_emit(ps, Event::BlockEntered) =~= Seq::<LintErrorModel>::empty());
    }
}

/// The events of a list of operations, extended by one operation.
pub proof fn lemma_ops_events_push(ops: Seq<Op>, op: Op)
    ensures
        ops_events(ops.push(op)) == ops_events(ops) + op_events(op),
    decreases ops.len(),
{
    let q = ops.push(op);
    if ops.len() == 0 {
        assert(q[0] == op);
        assert(q.drop_first() =~= Seq::<Op>::empty());
        assert(ops_events(q) == op_events(op) + ops_events(q.drop_first()));
        assert(ops_events(q.drop_first()) =~= Seq::<Event>::empty());
        assert(ops_events(q) =~= ops_events(ops) + op_events(op));
    } else {
        assert(q[0] == ops[0]);
        assert(q.drop_first() =~= ops.drop_first().push(op));
        lemma_ops_events_push(ops.drop_first(), op);
        assert(ops_events(q) == op_events(ops[0]) + (ops_events(ops.drop_first()) + op_events(
            op,
        )));
        assert(ops_events(ops) == op_events(ops[0]) + ops_events(ops.drop_first()));
        assert(ops_events(q) =~= ops_events(ops) + op_events(op));
    }
}

/// The events of a list of forms, extended by one form.
pub proof fn lemma_forms_events_push(forms: Seq<Form>, f: Form)
    ensures
        forms_events(forms.push(f)) == forms_events(forms) + form_events(f),
    decreases forms.len(),
{
    let q = forms.push(f);
    if forms.len() == 0 {
        assert(q[0] == f);
        assert(q.drop_first() =~= Seq::<Form>::empty());
        assert(forms_events(q) == form_events(f) + forms_events(q.drop_first()));
        assert(forms_events(q.drop_first()) =~= Seq::<Event>::empty());
        assert(forms_events(q) =~= forms_events(forms) + form_events(f));
    } else {
        assert(q[0] == forms[0]);
        assert(q.drop_first() =~= forms.drop_first().push(f));
        lemma_forms_events_push(forms.drop_first(), f);
        assert(forms_events(q) == form_events(forms[0]) + (forms_events(forms.drop_first())
            + form_events(f)));
        assert(forms_events(forms) == form_events(forms[0]) + forms_events(forms.drop_first()));
        assert(forms_events(q) =~= forms_events(forms) + form_events(f));
    }
}

} // verus!
