//! Decision core of the linkage-table patch probe: the protection-change
//! sequence is modelled as an explicit session, so that the
//! change-then-revert invariant — a bypassed page is left as it was found —
//! is stated and proved rather than hoped for.
//!
//! The caller performs the two protection-change operations on the resolved
//! page and reports their outcomes; the session decides the verdict and
//! tracks what the page's protection must be after each step.

use crate::elf::{PatchProbeError, SymbolSlot};
use crate::verdict::ProbeVerdict;
use vstd::prelude::*;

verus! {

/// Model of the target page's access protection.
#[derive(Clone, Copy, Debug, PartialEq, Eq, Structural)]
pub enum PageProtection {
    ReadOnly,
    ReadWrite,
}

/// Where one patch attempt stands.
#[derive(Clone, Copy, Debug, PartialEq, Eq, Structural)]
pub enum PatchPhase {
    /// About to attempt the write-enabling protection change.
    AwaitingEnable,
    /// The page was made writable; about to revert it to read-only.
    AwaitingRevert,
    /// The attempt is over and the verdict stands.
    Done,
}

/// One linkage-table patch attempt over a resolved slot.
pub struct PatchSession {
    pub phase: PatchPhase,
    /// Model of the target page's protection; read-only when the session
    /// starts, as linkage slots live on read-only pages after relocation.
    pub protection: PageProtection,
    pub verdict: Option<ProbeVerdict>,
    /// The protection change succeeded but the revert did not: a
    /// severity-elevated condition the caller must log; the verdict stands.
    pub restore_failed: bool,
}

impl PatchSession {
    pub open spec fn wf(self) -> bool {
        &&& (self.phase is AwaitingEnable ==> self.protection is ReadOnly && self.verdict
            is None && !self.restore_failed)
        &&& (self.phase is AwaitingRevert ==> self.protection is ReadWrite && self.verdict
            is None && !self.restore_failed)
        &&& (self.phase is Done ==> self.verdict is Some)
        &&& (match self.verdict {
            Some(v) => v is Bypassed || v is Blocked,
            None => true,
        })
        &&& (self.verdict == Some(ProbeVerdict::Blocked) ==> self.protection is ReadOnly
            && !self.restore_failed)
        &&& (self.restore_failed ==> self.protection is ReadWrite)
        &&& (self.verdict == Some(ProbeVerdict::Bypassed) && !self.restore_failed
            && self.phase is Done ==> self.protection is ReadOnly)
    }

    /// A fresh attempt over a read-only page.
    pub fn begin() -> (s: PatchSession)
        ensures
            s.wf(),
            s.phase is AwaitingEnable,
            s.protection is ReadOnly,
    {
        PatchSession {
            phase: PatchPhase::AwaitingEnable,
            protection: PageProtection::ReadOnly,
            verdict: None,
            restore_failed: false,
        }
    }

    /// Record the outcome of the write-enabling protection change. A denied
    /// change means the attack was stopped: verdict `Blocked`, the page
    /// untouched. A granted change leaves the page writable and the revert
    /// owed.
    pub fn record_enable(&mut self, changed: bool)
        requires
            old(self).wf(),
            old(self).phase is AwaitingEnable,
        ensures
            final(self).wf(),
            changed ==> final(self).phase is AwaitingRevert && final(self).protection
                is ReadWrite && final(self).verdict is None,
            !changed ==> final(self).phase is Done && final(self).verdict == Some(
                ProbeVerdict::Blocked,
            ) && final(self).protection == old(self).protection,
    {
        if changed {
            self.phase = PatchPhase::AwaitingRevert;
            self.protection = PageProtection::ReadWrite;
        } else {
            self.phase = PatchPhase::Done;
            self.verdict = Some(ProbeVerdict::Blocked);
        }
    }

    /// Record the outcome of the revert to read-only. The verdict is
    /// already `Bypassed` — the successful protection change is the measured
    /// event — and a failed revert is recorded so the caller can log it at
    /// elevated severity.
    pub fn record_revert(&mut self, reverted: bool)
        requires
            old(self).wf(),
            old(self).phase is AwaitingRevert,
        ensures
            final(self).wf(),
            final(self).phase is Done,
            final(self).verdict == Some(ProbeVerdict::Bypassed),
            final(self).restore_failed == !reverted,
            reverted ==> final(self).protection is ReadOnly,
            !reverted ==> final(self).protection is ReadWrite,
    {
        self.phase = PatchPhase::Done;
        self.verdict = Some(ProbeVerdict::Bypassed);
        if reverted {
            self.protection = PageProtection::ReadOnly;
            self.restore_failed = false;
        } else {
            self.restore_failed = true;
        }
    }
}

/// Every bypassed attempt whose revert went through leaves the page's
/// protection as it was found: read-only.
pub proof fn lemma_bypass_leaves_protection(s: PatchSession)
    requires
        s.wf(),
        s.verdict == Some(ProbeVerdict::Bypassed),
        s.phase is Done,
        !s.restore_failed,
    ensures
        s.protection is ReadOnly,
{
}

/// The verdict owed before any protection change: a failed resolution is an
/// invocation error — the technique could not even be attempted — and never
/// a bypass; a resolved slot leaves the verdict to the session.
pub fn resolution_verdict(r: &Result<SymbolSlot, PatchProbeError>) -> (v: Option<ProbeVerdict>)
    ensures
        r is Err <==> v == Some(ProbeVerdict::InvocationError),
        r is Ok <==> v is None,
{
    match r {
        Ok(_) => None,
        Err(_) => Some(ProbeVerdict::InvocationError),
    }
}

} // verus!
