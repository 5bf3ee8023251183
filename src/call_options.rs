//! Execution hints that a caller may attach to an extended call request.

use vstd::prelude::*;

verus! {

/// Optional parameters of an extended call.
///
/// Each flag may be absent; consumers only ever see the resolved boolean,
/// where an absent flag reads as `false`.
#[derive(Debug, Clone, Copy, PartialEq, Eq, Structural)]
pub struct CallXArgs {
    /// Whether to skip log collection (a performance hint).
    pub ignore_logs: Option<bool>,
    /// Whether gas usage must be evaluated.
    pub eval_gas: Option<bool>,
}

/// The boolean that an optional flag stands for: its value, or `false` when absent.
pub open spec fn resolved(flag: Option<bool>) -> bool {
    match flag {
        Some(b) => b,
        None => false,
    }
}

impl CallXArgs {
    /// The value with no flag set, which is what an empty request decodes to.
    pub open spec fn spec_default() -> CallXArgs {
        CallXArgs { ignore_logs: None, eval_gas: None }
    }

    /// Whether logs are to be left out, with an absent flag read as `false`.
    pub open spec fn spec_should_ignore_logs(self) -> bool {
        resolved(self.ignore_logs)
    }

    /// Whether gas is to be evaluated, with an absent flag read as `false`.
    pub open spec fn spec_should_eval_gas(self) -> bool {
        resolved(self.eval_gas)
    }

    /// Returns true if logs should be ignored.
    pub fn should_ignore_logs(&self) -> (r: bool)
        ensures
            r == self.spec_should_ignore_logs(),
    {
        self.ignore_logs.unwrap_or(false)
    }

    /// Returns true if gas should be evaluated.
    pub fn should_eval_gas(&self) -> (r: bool)
        ensures
            r == self.spec_should_eval_gas(),
    {
        self.eval_gas.unwrap_or(false)
    }
}

impl Default for CallXArgs {
    fn default() -> (r: CallXArgs)
        ensures
            r == CallXArgs::spec_default(),
    {
        CallXArgs { ignore_logs: None, eval_gas: None }
    }
}

/// The default options collect logs and do not evaluate gas: both resolved
/// flags are `false`.
pub proof fn lemma_default_resolves_false()
    ensures
        !CallXArgs::spec_default().spec_should_ignore_logs(),
        !CallXArgs::spec_default().spec_should_eval_gas(),
{
}

/// Options with no flag present (what an empty request object decodes to)
/// resolve exactly as the default options do.
pub proof fn lemma_absent_flags_resolve_as_default(a: CallXArgs)
    requires
        a.ignore_logs is None,
        a.eval_gas is None,
    ensures
        a.spec_should_ignore_logs() == CallXArgs::spec_default().spec_should_ignore_logs(),
        a.spec_should_eval_gas() == CallXArgs::spec_default().spec_should_eval_gas(),
{
}

/// An explicit `false` and an absent flag resolve to the same boolean.
pub proof fn lemma_explicit_false_resolves_as_absent(a: CallXArgs, b: CallXArgs)
    requires
        a.ignore_logs is None || a.ignore_logs == Some(false),
        b.ignore_logs is None || b.ignore_logs == Some(false),
        a.eval_gas is None || a.eval_gas == Some(false),
        b.eval_gas is None || b.eval_gas == Some(false),
    ensures
        a.spec_should_ignore_logs() == b.spec_should_ignore_logs(),
        a.spec_should_eval_gas() == b.spec_should_eval_gas(),
{
}

} // verus!
