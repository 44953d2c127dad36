//! The process-hardening plan and its failure policy. The OS calls
//! themselves (resource limits, dumpability, no-new-privileges, memory
//! locking) happen at the unverified edge; what is fixed here is which
//! protections are applied, in what order, and which failures abort
//! startup rather than merely warn.

use vstd::prelude::*;

verus! {

/// One protection applied at startup, in plan order.
#[derive(Clone, Copy, Debug, PartialEq, Eq, Structural)]
pub enum HardeningStep {
    /// Lock virtual memory into RAM so secrets never reach swap.
    LockMemory,
    /// Set the core-dump size limit to zero.
    DisableCoreDumps,
    /// Clear the dumpable flag, refusing debugger attachment.
    DisableDumpable,
    /// Forbid gaining privileges across exec.
    NoNewPrivileges,
    /// Set the process-spawn limit to zero.
    RestrictProcesses,
    /// Lift the file-size limit so normal writes keep working.
    LiftFileSizeLimit,
}

/// What a failed protection means for startup.
#[derive(Clone, Copy, Debug, PartialEq, Eq, Structural)]
pub enum FailureAction {
    /// Startup must abort.
    Abort,
    /// Log and continue.
    Warn,
}

/// The fixed order in which the protections are applied.
pub open spec fn spec_plan() -> Seq<HardeningStep> {
    seq![
        HardeningStep::LockMemory,
        HardeningStep::DisableCoreDumps,
        HardeningStep::DisableDumpable,
        HardeningStep::NoNewPrivileges,
        HardeningStep::RestrictProcesses,
        HardeningStep::LiftFileSizeLimit,
    ]
}

/// The protections in application order.
pub fn hardening_plan() -> (r: Vec<HardeningStep>)
    ensures
        r@ == spec_plan(),
{
    let mut v: Vec<HardeningStep> = Vec::new();
    v.push(HardeningStep::LockMemory);
    v.push(HardeningStep::DisableCoreDumps);
    v.push(HardeningStep::DisableDumpable);
    v.push(HardeningStep::NoNewPrivileges);
    v.push(HardeningStep::RestrictProcesses);
    v.push(HardeningStep::LiftFileSizeLimit);
    proof {
        assert(v@ =~= spec_plan());
    }
    v
}

/// The failure policy: resource-limit steps always abort; the
/// best-effort protections abort only in strict mode.
pub open spec fn spec_failure_action(step: HardeningStep, strict: bool) -> FailureAction {
    match step {
        HardeningStep::LockMemory => if strict {
            FailureAction::Abort
        } else {
            FailureAction::Warn
        },
        HardeningStep::DisableDumpable => if strict {
            FailureAction::Abort
        } else {
            FailureAction::Warn
        },
        HardeningStep::NoNewPrivileges => if strict {
            FailureAction::Abort
        } else {
            FailureAction::Warn
        },
        _ => FailureAction::Abort,
    }
}

/// What a failed protection step requires of startup.
pub fn failure_action(step: HardeningStep, strict: bool) -> (a: FailureAction)
    ensures
        a == spec_failure_action(step, strict),
{
    match step {
        HardeningStep::LockMemory | HardeningStep::DisableDumpable
            | HardeningStep::NoNewPrivileges => {
            if strict {
                FailureAction::Abort
            } else {
                FailureAction::Warn
            }
        },
        _ => FailureAction::Abort,
    }
}

/// Strict mode refuses to run with effective uid zero.
pub fn abort_as_root(strict: bool, effective_uid: u32) -> (b: bool)
    ensures
        b == (strict && effective_uid == 0),
{
    strict && effective_uid == 0
}

} // verus!
