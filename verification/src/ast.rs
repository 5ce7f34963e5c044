//! The program tree that the linter walks.
//!
//! A parsed source unit is a sequence of [`Form`]s; exported procedures carry
//! a [`Block`], an ordered list of operations.  An operation is either a
//! plain spanned instruction or a structured control node owning nested
//! blocks.  The instruction catalog below covers every variant the lint
//! passes distinguish; all remaining instructions of the surface language are
//! folded into [`Instruction::Other`], which no pass reacts to.
//!
//! Field-element operands are carried as their canonical `u64` value, and
//! symbolic constant operands as the constant's name.  Alongside each
//! instruction type lives a ghost twin (`InstrModel`, `ImmModel`) in which
//! strings are sequences of characters, so that contracts can speak about
//! instruction values by content.

use vstd::prelude::*;

verus! {

/// A half-open byte range `start..end` inside the source unit identified by
/// `source_id`.  Spans compare by exact equality; the fusion pass uses this
/// as an identity tie-break for instructions synthesized from compact
/// operator-with-literal syntax.
#[derive(Clone, Copy, PartialEq, Eq, Structural, Debug)]
pub struct SourceSpan {
    pub source_id: u32,
    pub start: u32,
    pub end: u32,
}

/// The span covering the union of `a` and a later span `b` in the same
/// source unit: it begins where `a` begins and ends where `b` ends.
pub open spec fn span_union(a: SourceSpan, b: SourceSpan) -> SourceSpan {
    SourceSpan { source_id: a.source_id, start: a.start, end: b.end }
}

impl SourceSpan {
    /// Extends `self` up to the end of the later span `other`.
    pub fn extend_to(self, other: SourceSpan) -> (r: SourceSpan)
        ensures
            r == span_union(self, other),
    {
        SourceSpan { source_id: self.source_id, start: self.start, end: other.end }
    }
}

/// An inline operand: either a literal value (a field element, carried as its
/// canonical integer) or a reference to a named constant.
#[derive(Debug, PartialEq, Eq)]
pub enum Immediate {
    Value(u64),
    Constant(String),
}

/// Ghost twin of [`Immediate`]: the constant name is a character sequence.
pub enum ImmModel {
    Value(u64),
    Constant(Seq<char>),
}

impl Immediate {
    /// The ghost value of this operand.
    pub open spec fn model(&self) -> ImmModel {
        match self {
            Immediate::Value(v) => ImmModel::Value(*v),
            Immediate::Constant(name) => ImmModel::Constant(name@),
        }
    }
}

/// The instruction catalog, as far as the lint passes tell instructions
/// apart.
///
/// The first group is the bare-assert family and its "with message"
/// siblings; the second is the literal-push family (instructions pushing a
/// list of values, or a whole word, carry no operand here because no pass
/// reads one); the remaining groups are the operators with an
/// immediate-operand form.  Every other instruction of the language is
/// `Other`.
#[derive(Debug, PartialEq, Eq)]
pub enum Instruction {
    // Verification instructions without a message, and their siblings that
    // carry one.
    Assert,
    AssertWithError(String),
    AssertEq,
    AssertEqWithError(String),
    AssertEqw,
    AssertEqwWithError(String),
    Assertz,
    AssertzWithError(String),
    U32Assert,
    U32AssertWithError(String),
    U32Assert2,
    U32Assert2WithError(String),
    U32AssertW,
    U32AssertWWithError(String),
    MTreeVerify,
    MTreeVerifyWithError(String),
    // The literal-push family.
    Push(Immediate),
    PushU8(u8),
    PushU16(u16),
    PushU32(u32),
    PushFelt(u64),
    PushU8List,
    PushU16List,
    PushU32List,
    PushFeltList,
    PushWord,
    // Field-element operators with an immediate variant.
    Add,
    Sub,
    Mul,
    Div,
    Exp,
    Eq,
    Neq,
    // Ordered comparisons: immediate-capable only through compact syntax.
    Lt,
    Lte,
    Gt,
    Gte,
    // Unsigned 32-bit arithmetic with an immediate variant.
    U32WrappingAdd,
    U32OverflowingAdd,
    U32WrappingSub,
    U32OverflowingSub,
    U32WrappingMul,
    U32OverflowingMul,
    U32Div,
    U32Mod,
    U32DivMod,
    // Unsigned 32-bit bitwise and ordered operators: immediate-capable only
    // through compact syntax.
    U32And,
    U32Or,
    U32Xor,
    U32Not,
    U32Shr,
    U32Shl,
    U32Rotr,
    U32Rotl,
    U32Lt,
    U32Lte,
    U32Gt,
    U32Gte,
    U32Min,
    U32Max,
    // Memory access with an immediate address variant.
    MemLoad,
    MemLoadW,
    MemStore,
    MemStoreW,
    // Any instruction no pass reacts to.
    Other,
}

/// Ghost twin of [`Instruction`]: message strings and constant names are
/// character sequences, so two instruction values are equal exactly when
/// their content is.
pub enum InstrModel {
    Assert,
    AssertWithError(Seq<char>),
    AssertEq,
    AssertEqWithError(Seq<char>),
    AssertEqw,
    AssertEqwWithError(Seq<char>),
    Assertz,
    AssertzWithError(Seq<char>),
    U32Assert,
    U32AssertWithError(Seq<char>),
    U32Assert2,
    U32Assert2WithError(Seq<char>),
    U32AssertW,
    U32AssertWWithError(Seq<char>),
    MTreeVerify,
    MTreeVerifyWithError(Seq<char>),
    Push(ImmModel),
    PushU8(u8),
    PushU16(u16),
    PushU32(u32),
    PushFelt(u64),
    PushU8List,
    PushU16List,
    PushU32List,
    PushFeltList,
    PushWord,
    Add,
    Sub,
    Mul,
    Div,
    Exp,
    Eq,
    Neq,
    Lt,
    Lte,
    Gt,
    Gte,
    U32WrappingAdd,
    U32OverflowingAdd,
    U32WrappingSub,
    U32OverflowingSub,
    U32WrappingMul,
    U32OverflowingMul,
    U32Div,
    U32Mod,
    U32DivMod,
    U32And,
    U32Or,
    U32Xor,
    U32Not,
    U32Shr,
    U32Shl,
    U32Rotr,
    U32Rotl,
    U32Lt,
    U32Lte,
    U32Gt,
    U32Gte,
    U32Min,
    U32Max,
    MemLoad,
    MemLoadW,
    MemStore,
    MemStoreW,
    Other,
}

impl Instruction {
    /// The ghost value of this instruction.
    pub open spec fn model(&self) -> InstrModel {
        match self {
            Instruction::Assert => InstrModel::Assert,
            Instruction::AssertWithError(m) => InstrModel::AssertWithError(m@),
            Instruction::AssertEq => InstrModel::AssertEq,
            Instruction::AssertEqWithError(m) => InstrModel::AssertEqWithError(m@),
            Instruction::AssertEqw => InstrModel::AssertEqw,
            Instruction::AssertEqwWithError(m) => InstrModel::AssertEqwWithError(m@),
            Instruction::Assertz => InstrModel::Assertz,
            Instruction::AssertzWithError(m) => InstrModel::AssertzWithError(m@),
            Instruction::U32Assert => InstrModel::U32Assert,
            Instruction::U32AssertWithError(m) => InstrModel::U32AssertWithError(m@),
            Instruction::U32Assert2 => InstrModel::U32Assert2,
            Instruction::U32Assert2WithError(m) => InstrModel::U32Assert2WithError(m@),
            Instruction::U32AssertW => InstrModel::U32AssertW,
            Instruction::U32AssertWWithError(m) => InstrModel::U32AssertWWithError(m@),
            Instruction::MTreeVerify => InstrModel::MTreeVerify,
            Instruction::MTreeVerifyWithError(m) => InstrModel::MTreeVerifyWithError(m@),
            Instruction::Push(imm) => InstrModel::Push(imm.model()),
            Instruction::PushU8(v) => InstrModel::PushU8(*v),
            Instruction::PushU16(v) => InstrModel::PushU16(*v),
            Instruction::PushU32(v) => InstrModel::PushU32(*v),
            Instruction::PushFelt(v) => InstrModel::PushFelt(*v),
            Instruction::PushU8List => InstrModel::PushU8List,
            Instruction::PushU16List => InstrModel::PushU16List,
            Instruction::PushU32List => InstrModel::PushU32List,
            Instruction::PushFeltList => InstrModel::PushFeltList,
            Instruction::PushWord => InstrModel::PushWord,
            Instruction::Add => InstrModel::Add,
            Instruction::Sub => InstrModel::Sub,
            Instruction::Mul => InstrModel::Mul,
            Instruction::Div => InstrModel::Div,
            Instruction::Exp => InstrModel::Exp,
            Instruction::Eq => InstrModel::Eq,
            Instruction::Neq => InstrModel::Neq,
            Instruction::Lt => InstrModel::Lt,
            Instruction::Lte => InstrModel::Lte,
            Instruction::Gt => InstrModel::Gt,
            Instruction::Gte => InstrModel::Gte,
            Instruction::U32WrappingAdd => InstrModel::U32WrappingAdd,
            Instruction::U32OverflowingAdd => InstrModel::U32OverflowingAdd,
            Instruction::U32WrappingSub => InstrModel::U32WrappingSub,
            Instruction::U32OverflowingSub => InstrModel::U32OverflowingSub,
            Instruction::U32WrappingMul => InstrModel::U32WrappingMul,
            Instruction::U32OverflowingMul => InstrModel::U32OverflowingMul,
            Instruction::U32Div => InstrModel::U32Div,
            Instruction::U32Mod => InstrModel::U32Mod,
            Instruction::U32DivMod => InstrModel::U32DivMod,
            Instruction::U32And => InstrModel::U32And,
            Instruction::U32Or => InstrModel::U32Or,
            Instruction::U32Xor => InstrModel::U32Xor,
            Instruction::U32Not => InstrModel::U32Not,
            Instruction::U32Shr => InstrModel::U32Shr,
            Instruction::U32Shl => InstrModel::U32Shl,
            Instruction::U32Rotr => InstrModel::U32Rotr,
            Instruction::U32Rotl => InstrModel::U32Rotl,
            Instruction::U32Lt => InstrModel::U32Lt,
            Instruction::U32Lte => InstrModel::U32Lte,
            Instruction::U32Gt => InstrModel::U32Gt,
            Instruction::U32Gte => InstrModel::U32Gte,
            Instruction::U32Min => InstrModel::U32Min,
            Instruction::U32Max => InstrModel::U32Max,
            Instruction::MemLoad => InstrModel::MemLoad,
            Instruction::MemLoadW => InstrModel::MemLoadW,
            Instruction::MemStore => InstrModel::MemStore,
            Instruction::MemStoreW => InstrModel::MemStoreW,
            Instruction::Other => InstrModel::Other,
        }
    }
}

/// An instruction occurrence, wrapped with its source span.
#[derive(Debug, PartialEq, Eq)]
pub struct SpannedInstruction {
    pub span: SourceSpan,
    pub inst: Instruction,
}

/// One operation of a procedure body: a plain instruction, or a structured
/// control node owning nested blocks.  Control nodes keep only their bodies;
/// no pass reads a loop count or a condition.
#[derive(Debug, PartialEq, Eq)]
pub enum Op {
    Inst(SpannedInstruction),
    If { then_blk: Block, else_blk: Block },
    While { body: Block },
    Repeat { body: Block },
}

/// An ordered sequence of operations.
#[derive(Debug, PartialEq, Eq)]
pub struct Block {
    pub ops: Vec<Op>,
}

/// An exported procedure: the linter walks its body.
#[derive(Debug, PartialEq, Eq)]
pub struct Procedure {
    pub body: Block,
}

/// A top-level declaration of a source unit.  Only procedures are walked;
/// every other kind of declaration is `Other`.
#[derive(Debug, PartialEq, Eq)]
pub enum Form {
    Procedure(Procedure),
    Other,
}

} // verus!
