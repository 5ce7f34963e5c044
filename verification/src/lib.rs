//! A style linter for a stack-based assembly language.
//!
//! The crate consumes an already parsed program tree ([`ast::Form`]) and runs
//! a set of lint passes over every exported procedure body, collecting
//! structured violations.  Parsing source text and rendering diagnostics are
//! left to the caller.

pub mod ast;

pub mod errors;
pub use errors::{LintError, LinterError};

pub mod model;

pub mod laws;

pub mod lints;

pub mod lint_selector;
pub use lint_selector::LintSelector;

mod linter;
pub use linter::{EarlyContext, LintPass, Linter};

pub mod text;

pub mod files;
pub use files::is_masm_file;
