use masmlint::ast::{Block, Form, Immediate, Instruction, Op, Procedure, SourceSpan, SpannedInstruction};
use masmlint::lints::bare_assert::BareAssert;
use masmlint::lints::push_immediate::PushImmediate;
use masmlint::{LintError, LintSelector, Linter, LinterError};

fn span(start: u32, end: u32) -> SourceSpan {
    SourceSpan { source_id: 0, start, end }
}

fn inst(i: Instruction, s: SourceSpan) -> Op {
    Op::Inst(SpannedInstruction { span: s, inst: i })
}

/// A body that trips both passes: a bare assert and a fusable push.
fn mixed_forms() -> Vec<Form> {
    vec![Form::Procedure(Procedure {
        body: Block {
            ops: vec![
                inst(Instruction::Assert, span(0, 6)),
                inst(Instruction::Push(Immediate::Value(5)), span(7, 13)),
                inst(Instruction::Add, span(14, 17)),
            ],
        },
    })]
}

fn names(list: &[&str]) -> Vec<String> {
    list.iter().map(|s| s.to_string()).collect()
}

#[test]
fn all_runs_every_pass() {
    let lints = LintSelector::All.select().unwrap();
    assert_eq!(lints.len(), 2);
    let errs = match Linter::new().lint(lints, &mixed_forms()) {
        Err(LinterError::Lints { errors }) => errors,
        other => panic!("expected lint findings, got {:?}", other),
    };
    assert_eq!(errs.len(), 2);
    assert!(matches!(errs[0], LintError::BareAssert { .. }));
    assert!(matches!(errs[1], LintError::PushImmediate { .. }));
}

#[test]
fn default_selection_is_all() {
    let lints = LintSelector::default().select().unwrap();
    assert_eq!(lints.len(), 2);
}

#[test]
fn select_runs_exactly_the_named_passes() {
    let lints = LintSelector::Select(names(&["push_immediate"])).select().unwrap();
    assert_eq!(lints.len(), 1);
    let errs = match Linter::new().lint(lints, &mixed_forms()) {
        Err(LinterError::Lints { errors }) => errors,
        other => panic!("expected lint findings, got {:?}", other),
    };
    assert_eq!(
        errs,
        vec![LintError::PushImmediate { span: span(7, 17), alternative: "add.5".to_string() }]
    );
}

#[test]
fn select_both_passes_by_name() {
    let lints = LintSelector::Select(names(&["push_immediate", "bare_assert"])).select().unwrap();
    assert_eq!(lints.len(), 2);
    // Selected passes come in catalog order, not in the order they were named.
    assert!(matches!(lints[0], masmlint::LintPass::BareAssert(_)));
    assert!(matches!(lints[1], masmlint::LintPass::PushImmediate(_)));
}

#[test]
fn select_unknown_name_fails() {
    let r = LintSelector::Select(names(&["bare_assert", "no_such_lint"])).select();
    match r {
        Err(LinterError::UnknownSelectedLint(name)) => assert_eq!(name, "no_such_lint"),
        other => panic!("expected a selection error, got {:?}", other.map(|v| v.len())),
    }
}

#[test]
fn select_duplicate_name_fails() {
    let r = LintSelector::Select(names(&["bare_assert", "bare_assert"])).select();
    match r {
        Err(LinterError::UnknownSelectedLint(name)) => assert_eq!(name, "bare_assert"),
        other => panic!("expected a selection error, got {:?}", other.map(|v| v.len())),
    }
}

#[test]
fn exclude_drops_the_named_pass() {
    let lints = LintSelector::Exclude(names(&["bare_assert"])).select().unwrap();
    assert_eq!(lints.len(), 1);
    let errs = match Linter::new().lint(lints, &mixed_forms()) {
        Err(LinterError::Lints { errors }) => errors,
        other => panic!("expected lint findings, got {:?}", other),
    };
    assert_eq!(
        errs,
        vec![LintError::PushImmediate { span: span(7, 17), alternative: "add.5".to_string() }]
    );
}

#[test]
fn exclude_everything_leaves_nothing_to_report() {
    let lints = LintSelector::Exclude(names(&["bare_assert", "push_immediate"])).select().unwrap();
    assert_eq!(lints.len(), 0);
    assert_eq!(Linter::new().lint(lints, &mixed_forms()), Ok(()));
}

#[test]
fn exclude_unknown_name_fails() {
    let r = LintSelector::Exclude(names(&["nope"])).select();
    match r {
        Err(LinterError::UnknownExcludedLint(name)) => assert_eq!(name, "nope"),
        other => panic!("expected a selection error, got {:?}", other.map(|v| v.len())),
    }
}

#[test]
fn pass_name_constants_match_the_catalog() {
    let lints =
        LintSelector::Select(vec![BareAssert::NAME.to_string(), PushImmediate::NAME.to_string()])
            .select()
            .unwrap();
    assert_eq!(lints.len(), 2);
}
