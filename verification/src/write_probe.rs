//! Fault-isolated write probe: the fault trampoline's life cycle as an
//! explicit state machine. The caller saves the prior fault-handler
//! configuration, installs the trampoline's handler, marks the resumable
//! point, attempts the one-byte write and reports what happened; the
//! machine guarantees that the prior configuration is restored on every
//! path out of the armed state, and decides the verdict.
//!
//! The trampoline state the caller mirrors is process-wide, so at most one
//! such probe may be in flight at a time.

use crate::verdict::ProbeVerdict;
use vstd::prelude::*;

verus! {

#[derive(Clone, Copy, Debug, PartialEq, Eq, Structural)]
pub enum TrampolinePhase {
    /// Prior handler saved, trampoline handler installed, resumable point
    /// marked; about to attempt the write.
    Armed,
    /// The handler fired on the access violation and execution resumed at
    /// the marked point with the sentinel.
    Faulted,
    /// The prior fault-handler configuration is restored and the verdict
    /// stands.
    Completed,
}

/// The life cycle of one fault-isolated write attempt.
pub struct FaultTrampoline {
    pub phase: TrampolinePhase,
    /// Model: the probe's own fault handler is currently installed in
    /// place of the saved prior configuration.
    pub handler_installed: bool,
    /// Model: the attempted one-byte write landed, so the target byte
    /// holds the written value.
    pub wrote: bool,
    pub verdict: Option<ProbeVerdict>,
}

impl FaultTrampoline {
    pub open spec fn wf(self) -> bool {
        &&& (self.handler_installed <==> !(self.phase is Completed))
        &&& (!(self.phase is Completed) ==> self.verdict is None)
        &&& (self.phase is Completed ==> self.verdict is Some)
        &&& (!(self.phase is Armed) ==> (self.wrote <==> self.verdict == Some(
            ProbeVerdict::Bypassed,
        )))
        &&& (self.phase is Armed ==> !self.wrote)
        &&& (match self.verdict {
            Some(v) => v is Bypassed || v is Blocked,
            None => true,
        })
    }

    /// Arm the trampoline: the prior handler configuration is saved, the
    /// trampoline's handler installed, the resumable point marked.
    pub fn arm() -> (t: FaultTrampoline)
        ensures
            t.wf(),
            t.phase is Armed,
            t.handler_installed,
            !t.wrote,
    {
        FaultTrampoline {
            phase: TrampolinePhase::Armed,
            handler_installed: true,
            wrote: false,
            verdict: None,
        }
    }

    /// The write faulted: the handler transferred control back to the
    /// marked point with the sentinel. Nothing was written.
    pub fn observe_fault(&mut self)
        requires
            old(self).wf(),
            old(self).phase is Armed,
        ensures
            final(self).wf(),
            final(self).phase is Faulted,
            final(self).handler_installed,
            !final(self).wrote,
    {
        self.phase = TrampolinePhase::Faulted;
    }

    /// Resuming from the fault: the prior handler configuration is
    /// restored; the write was stopped before it landed.
    pub fn complete_blocked(&mut self)
        requires
            old(self).wf(),
            old(self).phase is Faulted,
        ensures
            final(self).wf(),
            final(self).phase is Completed,
            !final(self).handler_installed,
            !final(self).wrote,
            final(self).verdict == Some(ProbeVerdict::Blocked),
    {
        self.phase = TrampolinePhase::Completed;
        self.handler_installed = false;
        self.verdict = Some(ProbeVerdict::Blocked);
    }

    /// The write returned normally: the byte landed, the prior handler
    /// configuration is restored, and the protection did not hold.
    pub fn complete_written(&mut self)
        requires
            old(self).wf(),
            old(self).phase is Armed,
        ensures
            final(self).wf(),
            final(self).phase is Completed,
            !final(self).handler_installed,
            final(self).wrote,
            final(self).verdict == Some(ProbeVerdict::Bypassed),
    {
        self.phase = TrampolinePhase::Completed;
        self.handler_installed = false;
        self.wrote = true;
        self.verdict = Some(ProbeVerdict::Bypassed);
    }
}

/// A completed attempt never leaves the trampoline's handler installed,
/// so the process can service a subsequent call, and it always carries a
/// security verdict that tells the two outcomes apart by whether the byte
/// landed.
pub proof fn lemma_completed_restores_handler(t: FaultTrampoline)
    requires
        t.wf(),
        t.phase is Completed,
    ensures
        !t.handler_installed,
        t.verdict == Some(ProbeVerdict::Bypassed) <==> t.wrote,
        t.verdict == Some(ProbeVerdict::Blocked) <==> !t.wrote,
{
}

} // verus!
