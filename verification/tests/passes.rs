use masmlint::ast::{Block, Form, Immediate, Instruction, Op, Procedure, SourceSpan, SpannedInstruction};
use masmlint::lints::bare_assert::BareAssert;
use masmlint::lints::push_immediate::PushImmediate;
use masmlint::{LintError, LintPass, Linter, LinterError};

fn span(start: u32, end: u32) -> SourceSpan {
    SourceSpan { source_id: 0, start, end }
}

fn inst(i: Instruction, s: SourceSpan) -> Op {
    Op::Inst(SpannedInstruction { span: s, inst: i })
}

fn body(ops: Vec<Op>) -> Vec<Form> {
    vec![Form::Procedure(Procedure { body: Block { ops } })]
}

fn all_passes() -> Vec<LintPass> {
    vec![LintPass::BareAssert(BareAssert), LintPass::PushImmediate(PushImmediate::new())]
}

fn run(forms: &Vec<Form>) -> Result<(), LinterError> {
    Linter::new().lint(all_passes(), forms)
}

fn violations(forms: &Vec<Form>) -> Vec<LintError> {
    match run(forms) {
        Ok(()) => Vec::new(),
        Err(LinterError::Lints { errors }) => errors,
        Err(other) => panic!("unexpected error: {:?}", other),
    }
}

fn placeholder() -> String {
    "helpful error message".to_string()
}

#[test]
fn scenario_two_pushes_then_bare_assert() {
    let s1 = span(0, 6);
    let s2 = span(7, 13);
    let s3 = span(14, 20);
    let forms = body(vec![
        inst(Instruction::Push(Immediate::Value(1)), s1),
        inst(Instruction::Push(Immediate::Value(2)), s2),
        inst(Instruction::Assert, s3),
    ]);
    let errs = violations(&forms);
    assert_eq!(
        errs,
        vec![LintError::BareAssert {
            span: s3,
            assert_with_error: Instruction::AssertWithError(placeholder()),
        }]
    );
}

#[test]
fn scenario_push_then_add_distinct_spans() {
    let s1 = span(0, 6);
    let s2 = span(7, 10);
    let forms = body(vec![
        inst(Instruction::Push(Immediate::Value(5)), s1),
        inst(Instruction::Add, s2),
    ]);
    let errs = violations(&forms);
    assert_eq!(
        errs,
        vec![LintError::PushImmediate { span: span(0, 10), alternative: "add.5".to_string() }]
    );
}

#[test]
fn scenario_desugared_compact_lt_same_span() {
    let s = span(0, 4);
    let forms = body(vec![
        inst(Instruction::Push(Immediate::Value(5)), s),
        inst(Instruction::Lt, s),
    ]);
    assert_eq!(run(&forms), Ok(()));
}

#[test]
fn scenario_push_before_branch_does_not_fuse() {
    let s1 = span(0, 6);
    let s2 = span(12, 14);
    let forms = body(vec![
        inst(Instruction::Push(Immediate::Value(7)), s1),
        Op::If {
            then_blk: Block { ops: vec![inst(Instruction::Lt, s2)] },
            else_blk: Block { ops: vec![] },
        },
    ]);
    assert_eq!(run(&forms), Ok(()));
}

#[test]
fn bare_assert_flags_every_family_member() {
    let cases: Vec<(Instruction, Instruction)> = vec![
        (Instruction::Assert, Instruction::AssertWithError(placeholder())),
        (Instruction::AssertEq, Instruction::AssertEqWithError(placeholder())),
        (Instruction::AssertEqw, Instruction::AssertEqwWithError(placeholder())),
        (Instruction::Assertz, Instruction::AssertzWithError(placeholder())),
        (Instruction::U32Assert, Instruction::U32AssertWithError(placeholder())),
        (Instruction::U32Assert2, Instruction::U32Assert2WithError(placeholder())),
        (Instruction::U32AssertW, Instruction::U32AssertWWithError(placeholder())),
        (Instruction::MTreeVerify, Instruction::MTreeVerifyWithError(placeholder())),
    ];
    for (bare, with_error) in cases {
        let s = span(3, 9);
        let forms = body(vec![inst(bare, s)]);
        let errs = violations(&forms);
        assert_eq!(errs, vec![LintError::BareAssert { span: s, assert_with_error: with_error }]);
    }
}

#[test]
fn bare_assert_ignores_other_instructions() {
    let forms = body(vec![
        inst(Instruction::Add, span(0, 3)),
        inst(Instruction::AssertWithError("have a message".to_string()), span(4, 30)),
        inst(Instruction::Other, span(31, 35)),
    ]);
    assert_eq!(run(&forms), Ok(()));
}

#[test]
fn span_guarded_lt_fuses_on_distinct_spans() {
    let forms = body(vec![
        inst(Instruction::Push(Immediate::Value(2)), span(0, 6)),
        inst(Instruction::Lt, span(7, 9)),
    ]);
    let errs = violations(&forms);
    assert_eq!(
        errs,
        vec![LintError::PushImmediate { span: span(0, 9), alternative: "lt.2".to_string() }]
    );
}

#[test]
fn unconditional_add_fuses_even_on_same_span() {
    let s = span(0, 5);
    let forms = body(vec![
        inst(Instruction::Push(Immediate::Value(3)), s),
        inst(Instruction::Add, s),
    ]);
    let errs = violations(&forms);
    assert_eq!(
        errs,
        vec![LintError::PushImmediate { span: s, alternative: "add.3".to_string() }]
    );
}

#[test]
fn u32and_same_span_does_not_fuse() {
    let s = span(0, 8);
    let forms = body(vec![
        inst(Instruction::Push(Immediate::Value(3)), s),
        inst(Instruction::U32And, s),
    ]);
    assert_eq!(run(&forms), Ok(()));
}

#[test]
fn u32and_distinct_spans_fuses() {
    let forms = body(vec![
        inst(Instruction::Push(Immediate::Value(3)), span(0, 6)),
        inst(Instruction::U32And, span(7, 13)),
    ]);
    let errs = violations(&forms);
    assert_eq!(
        errs,
        vec![LintError::PushImmediate { span: span(0, 13), alternative: "u32and.3".to_string() }]
    );
}

#[test]
fn list_and_word_pushes_never_become_pending() {
    for push in [
        Instruction::PushU8List,
        Instruction::PushU16List,
        Instruction::PushU32List,
        Instruction::PushFeltList,
        Instruction::PushWord,
    ] {
        let forms = body(vec![inst(push, span(0, 6)), inst(Instruction::Add, span(7, 10))]);
        assert_eq!(run(&forms), Ok(()));
    }
}

#[test]
fn fixed_width_pushes_become_pending() {
    let cases: Vec<(Instruction, &str)> = vec![
        (Instruction::PushU8(9), "sub.9"),
        (Instruction::PushU16(300), "sub.300"),
        (Instruction::PushU32(70000), "sub.70000"),
        (Instruction::PushFelt(11), "sub.11"),
    ];
    for (push, expected) in cases {
        let forms = body(vec![inst(push, span(0, 6)), inst(Instruction::Sub, span(7, 10))]);
        let errs = violations(&forms);
        assert_eq!(
            errs,
            vec![LintError::PushImmediate { span: span(0, 10), alternative: expected.to_string() }]
        );
    }
}

#[test]
fn constant_operand_is_suggested_by_name() {
    let forms = body(vec![
        inst(Instruction::Push(Immediate::Constant("MY_CONST".to_string())), span(0, 13)),
        inst(Instruction::Add, span(14, 17)),
    ]);
    let errs = violations(&forms);
    assert_eq!(
        errs,
        vec![LintError::PushImmediate { span: span(0, 17), alternative: "add.MY_CONST".to_string() }]
    );
}

#[test]
fn large_operand_keeps_all_decimal_digits() {
    let forms = body(vec![
        inst(Instruction::Push(Immediate::Value(1234567890123456789)), span(0, 25)),
        inst(Instruction::Add, span(26, 29)),
    ]);
    let errs = violations(&forms);
    assert_eq!(
        errs,
        vec![LintError::PushImmediate {
            span: span(0, 29),
            alternative: "add.1234567890123456789".to_string(),
        }]
    );
}

#[test]
fn memory_ops_fuse_unconditionally() {
    let cases: Vec<(Instruction, &str)> = vec![
        (Instruction::MemLoad, "mem_load.8"),
        (Instruction::MemLoadW, "mem_loadw.8"),
        (Instruction::MemStore, "mem_store.8"),
        (Instruction::MemStoreW, "mem_storew.8"),
    ];
    for (op, expected) in cases {
        let s = span(0, 4);
        let forms = body(vec![inst(Instruction::Push(Immediate::Value(8)), s), inst(op, s)]);
        let errs = violations(&forms);
        assert_eq!(
            errs,
            vec![LintError::PushImmediate { span: s, alternative: expected.to_string() }]
        );
    }
}

#[test]
fn u32_arithmetic_fuses_unconditionally() {
    let cases: Vec<(Instruction, &str)> = vec![
        (Instruction::U32WrappingAdd, "u32wrapping_add.7"),
        (Instruction::U32OverflowingAdd, "u32overflowing_add.7"),
        (Instruction::U32WrappingSub, "u32wrapping_sub.7"),
        (Instruction::U32OverflowingSub, "u32overflowing_sub.7"),
        (Instruction::U32WrappingMul, "u32wrapping_mul.7"),
        (Instruction::U32OverflowingMul, "u32overflowing_mul.7"),
        (Instruction::U32Div, "u32div.7"),
        (Instruction::U32Mod, "u32mod.7"),
        (Instruction::U32DivMod, "u32divmod.7"),
    ];
    for (op, expected) in cases {
        let s = span(0, 4);
        let forms = body(vec![inst(Instruction::Push(Immediate::Value(7)), s), inst(op, s)]);
        let errs = violations(&forms);
        assert_eq!(
            errs,
            vec![LintError::PushImmediate { span: s, alternative: expected.to_string() }]
        );
    }
}

#[test]
fn pending_push_is_consumed_by_the_next_instruction_only() {
    let forms = body(vec![
        inst(Instruction::Push(Immediate::Value(5)), span(0, 6)),
        inst(Instruction::Add, span(7, 10)),
        inst(Instruction::Add, span(11, 14)),
    ]);
    let errs = violations(&forms);
    assert_eq!(
        errs,
        vec![LintError::PushImmediate { span: span(0, 10), alternative: "add.5".to_string() }]
    );
}

#[test]
fn only_the_latest_push_is_pending() {
    let forms = body(vec![
        inst(Instruction::Push(Immediate::Value(1)), span(0, 6)),
        inst(Instruction::Push(Immediate::Value(2)), span(7, 13)),
        inst(Instruction::Add, span(14, 17)),
    ]);
    let errs = violations(&forms);
    assert_eq!(
        errs,
        vec![LintError::PushImmediate { span: span(7, 17), alternative: "add.2".to_string() }]
    );
}

#[test]
fn non_push_instruction_clears_pending() {
    let forms = body(vec![
        inst(Instruction::Push(Immediate::Value(5)), span(0, 6)),
        inst(Instruction::Other, span(7, 11)),
        inst(Instruction::Add, span(12, 15)),
    ]);
    assert_eq!(run(&forms), Ok(()));
}

#[test]
fn fusion_applies_inside_loop_bodies() {
    let forms = body(vec![Op::While {
        body: Block {
            ops: vec![
                inst(Instruction::Push(Immediate::Value(5)), span(10, 16)),
                inst(Instruction::Add, span(17, 20)),
            ],
        },
    }]);
    let errs = violations(&forms);
    assert_eq!(
        errs,
        vec![LintError::PushImmediate { span: span(10, 20), alternative: "add.5".to_string() }]
    );
}

#[test]
fn push_does_not_leak_into_loop_or_repeat_bodies() {
    for wrap in 0..2 {
        let inner = Block { ops: vec![inst(Instruction::Add, span(12, 15))] };
        let node = if wrap == 0 {
            Op::While { body: inner }
        } else {
            Op::Repeat { body: inner }
        };
        let forms = body(vec![inst(Instruction::Push(Immediate::Value(5)), span(0, 6)), node]);
        assert_eq!(run(&forms), Ok(()));
    }
}

#[test]
fn violations_come_in_traversal_order() {
    let s1 = span(0, 6);
    let s2 = span(10, 16);
    let s3 = span(17, 20);
    let s4 = span(30, 36);
    let forms = body(vec![
        inst(Instruction::Assert, s1),
        Op::If {
            then_blk: Block {
                ops: vec![
                    inst(Instruction::Push(Immediate::Value(4)), s2),
                    inst(Instruction::Eq, s3),
                ],
            },
            else_blk: Block { ops: vec![inst(Instruction::Assertz, s4)] },
        },
    ]);
    let errs = violations(&forms);
    assert_eq!(
        errs,
        vec![
            LintError::BareAssert {
                span: s1,
                assert_with_error: Instruction::AssertWithError(placeholder()),
            },
            LintError::PushImmediate { span: span(10, 20), alternative: "eq.4".to_string() },
            LintError::BareAssert {
                span: s4,
                assert_with_error: Instruction::AssertzWithError(placeholder()),
            },
        ]
    );
}

#[test]
fn multiple_procedures_are_walked_in_order() {
    let s1 = span(0, 6);
    let s2 = span(20, 26);
    let forms = vec![
        Form::Procedure(Procedure {
            body: Block { ops: vec![inst(Instruction::Assert, s1)] },
        }),
        Form::Other,
        Form::Procedure(Procedure {
            body: Block { ops: vec![inst(Instruction::AssertEq, s2)] },
        }),
    ];
    let errs = violations(&forms);
    assert_eq!(
        errs,
        vec![
            LintError::BareAssert {
                span: s1,
                assert_with_error: Instruction::AssertWithError(placeholder()),
            },
            LintError::BareAssert {
                span: s2,
                assert_with_error: Instruction::AssertEqWithError(placeholder()),
            },
        ]
    );
}

#[test]
fn empty_program_has_no_findings() {
    assert_eq!(run(&vec![]), Ok(()));
    assert_eq!(run(&vec![Form::Other]), Ok(()));
    assert_eq!(run(&body(vec![])), Ok(()));
}
