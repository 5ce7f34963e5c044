//! Resolving a requested subset of the built-in pass catalog by name.
//!
//! The catalog holds two passes, in name order: `bare_assert`, then
//! `push_immediate`.  `All` takes the whole catalog; `Select` takes exactly
//! the named passes, in the order they are named; `Exclude` takes the
//! catalog without the named passes.  A name that matches no pass still in
//! the catalog — an unknown name, or one named twice — is an error, and no
//! passes are returned.

use vstd::prelude::*;

use crate::errors::LinterError;
use crate::linter::{passes_model, LintPass};
use crate::lints::bare_assert::BareAssert;
use crate::lints::push_immediate::PushImmediate;
use crate::model::PassModel;

verus! {

/// How a caller chooses the active passes.
#[derive(Debug)]
pub enum LintSelector {
    /// Every built-in pass, in catalog order.
    All,
    /// Exactly the named passes, in the order they are named.
    Select(Vec<String>),
    /// Every built-in pass except the named ones, in catalog order.
    Exclude(Vec<String>),
}

/// The catalog name of the bare-assert pass.
pub open spec fn bare_assert_name() -> Seq<char> {
    "bare_assert"@
}

/// The catalog name of the push-immediate fusion pass.
pub open spec fn push_immediate_name() -> Seq<char> {
    "push_immediate"@
}

/// The views of a list of names.
pub open spec fn names_view(names: Seq<String>) -> Seq<Seq<char>> {
    names.map_values(|s: String| s@)
}

/// The still-available part of the catalog, in catalog order.
pub open spec fn catalog_passes(ba: bool, pi: bool) -> Seq<PassModel> {
    (if ba {
        seq![PassModel::BareAssert]
    } else {
        Seq::empty()
    }) + (if pi {
        seq![PassModel::PushImmediate(None)]
    } else {
        Seq::empty()
    })
}

/// Resolves `names` against a catalog where `ba` and `pi` say which entries
/// are still available: each name removes its pass from the catalog.  Yields
/// which entries are left, or the first name that matches no available pass
/// — an unknown name, or one named twice.
pub open spec fn remove_names(names: Seq<Seq<char>>, ba: bool, pi: bool) -> Result<
    (bool, bool),
    Seq<char>,
>
    decreases names.len(),
{
    if names.len() == 0 {
        Ok((ba, pi))
    } else if names[0] == bare_assert_name() && ba {
        remove_names(names.drop_first(), false, pi)
    } else if names[0] == push_immediate_name() && pi {
        remove_names(names.drop_first(), ba, false)
    } else {
        Err(names[0])
    }
}

/// The bare-assert pass, ready to run.
fn bare_assert() -> (r: LintPass)
    ensures
        r.model() == PassModel::BareAssert,
{
    LintPass::BareAssert(BareAssert)
}

/// The push-immediate fusion pass, ready to run.
fn push_immediate() -> (r: LintPass)
    ensures
        r.model() == PassModel::PushImmediate(None),
{
    LintPass::PushImmediate(PushImmediate::new())
}

/// The whole catalog, in catalog order.
fn all_lints() -> (r: Vec<LintPass>)
    ensures
        passes_model(r@) == catalog_passes(true, true),
{
    let mut r: Vec<LintPass> = Vec::new();
    r.push(bare_assert());
    r.push(push_immediate());
    proof {
        assert(passes_model(r@) =~= catalog_passes(true, true));
    }
    r
}

impl LintSelector {
    /// Resolves this selection against the catalog.
    ///
    /// Succeeds exactly when every requested name matches a distinct
    /// built-in pass; the first name that does not — unknown, or repeated —
    /// is returned as a selection error, and no traversal can start from
    /// it.  The passes come in catalog order: in select mode the named
    /// ones, in exclude mode the rest.
    pub fn select(self) -> (r: Result<Vec<LintPass>, LinterError>)
        ensures
            match self {
                LintSelector::All => r matches Ok(v) && passes_model(v@) == catalog_passes(
                    true,
                    true,
                ),
                LintSelector::Select(names) => match remove_names(names_view(names@), true, true) {
                    Ok(avail) => r matches Ok(v) && passes_model(v@) == catalog_passes(
                        !avail.0,
                        !avail.1,
                    ),
                    Err(n) => r matches Err(e) && e matches LinterError::UnknownSelectedLint(s)
                        && s@ == n,
                },
                LintSelector::Exclude(names) => match remove_names(
                    names_view(names@),
                    true,
                    true,
                ) {
                    Ok(avail) => r matches Ok(v) && passes_model(v@) == catalog_passes(
                        avail.0,
                        avail.1,
                    ),
                    Err(n) => r matches Err(e) && e matches LinterError::UnknownExcludedLint(s)
                        && s@ == n,
                },
            },
    {
        match self {
            LintSelector::All => Ok(all_lints()),
            LintSelector::Select(selected) => {
                let ghost nv = names_view(selected@);
                let ghost full = remove_names(nv, true, true);
                let mut ba = true;
                let mut pi = true;
                let n = selected.len();
                let mut i: usize = 0;
                proof {
                    assert(nv.skip(0) =~= nv);
                }
                while i < n
                    invariant
                        self == LintSelector::Select(selected),
                        n == selected@.len(),
                        i <= n,
                        nv == names_view(selected@),
                        full == remove_names(nv, true, true),
                        nv.len() == n,
                        remove_names(nv.skip(i as int), ba, pi) == full,
                    decreases n - i,
                {
                    proof {
                        assert(nv.skip(i as int)[0] == nv[i as int]);
                        assert(nv[i as int] == selected@[i as int]@);
                        assert(nv.skip(i as int).drop_first() =~= nv.skip(i as int + 1));
                    }
                    let name = &selected[i];
                    let ba_name = "bare_assert".to_owned();
                    let pi_name = "push_immediate".to_owned();
                    if ba && *name == ba_name {
                        ba = false;
                    } else if pi && *name == pi_name {
                        pi = false;
                    } else {
                        proof {
                            assert(remove_names(nv.skip(i as int), ba, pi) == Err::<
                                (bool, bool),
                                Seq<char>,
                            >(nv[i as int]));
                        }
                        return Err(LinterError::UnknownSelectedLint(name.clone()));
                    }
                    i += 1;
                }
                proof {
                    assert(nv.skip(n as int) =~= Seq::<Seq<char>>::empty());
                }
                let mut result: Vec<LintPass> = Vec::new();
                if !ba {
                    result.push(bare_assert());
                }
                if !pi {
                    result.push(push_immediate());
                }
                proof {
                    assert(passes_model(result@) =~= catalog_passes(!ba, !pi));
                }
                Ok(result)
            },
            LintSelector::Exclude(excluded) => {
                let ghost nv = names_view(excluded@);
                let ghost full = remove_names(nv, true, true);
                let mut ba = true;
                let mut pi = true;
                let n = excluded.len();
                let mut i: usize = 0;
                proof {
                    assert(nv.skip(0) =~= nv);
                }
                while i < n
                    invariant
                        self == LintSelector::Exclude(excluded),
                        n == excluded@.len(),
                        i <= n,
                        nv == names_view(excluded@),
                        full == remove_names(nv, true, true),
                        nv.len() == n,
                        remove_names(nv.skip(i as int), ba, pi) == full,
                    decreases n - i,
                {
                    proof {
                        assert(nv.skip(i as int)[0] == nv[i as int]);
                        assert(nv[i as int] == excluded@[i as int]@);
                        assert(nv.skip(i as int).drop_first() =~= nv.skip(i as int + 1));
                    }
                    let name = &excluded[i];
                    let ba_name = "bare_assert".to_owned();
                    let pi_name = "push_immediate".to_owned();
                    if ba && *name == ba_name {
                        ba = false;
                    } else if pi && *name == pi_name {
                        pi = false;
                    } else {
                        proof {
                            assert(remove_names(nv.skip(i as int), ba, pi) == Err::<
                                (bool, bool),
                                Seq<char>,
                            >(nv[i as int]));
                        }
                        return Err(LinterError::UnknownExcludedLint(name.clone()));
                    }
                    i += 1;
                }
                proof {
                    assert(nv.skip(n as int) =~= Seq::<Seq<char>>::empty());
                }
                let mut result: Vec<LintPass> = Vec::new();
                if ba {
                    result.push(bare_assert());
                }
                if pi {
                    result.push(push_immediate());
                }
                proof {
                    assert(passes_model(result@) =~= catalog_passes(ba, pi));
                }
                Ok(result)
            },
        }
    }
}

impl Default for LintSelector {
    /// The default selection runs every built-in pass.
    fn default() -> (r: Self)
        ensures
            r is All,
    {
        LintSelector::All
    }
}

} // verus!
