//! Process-trace probe: attempt to attach a debugger-style trace to a
//! target process, detach at once on success, and report the outcome.

use crate::verdict::ProbeVerdict;
use vstd::prelude::*;

verus! {

/// Report of one trace attempt. `attach_errno` holds the OS error of a
/// failed attach; `detach_errno` the OS error of a failed detach after a
/// successful attach (a condition that is logged but never changes the
/// verdict).
pub struct TraceReport {
    pub verdict: ProbeVerdict,
    pub detach_attempted: bool,
    pub attach_errno: Option<i32>,
    pub detach_errno: Option<i32>,
}

/// The verdict an attach outcome maps to: an attachable target means the
/// protection did not hold; any failure (permission denied, already traced,
/// no such process) means the attack was stopped.
pub fn trace_verdict(attach_result: &Result<(), i32>) -> (v: ProbeVerdict)
    ensures
        v is Bypassed <==> attach_result is Ok,
        v is Blocked <==> attach_result is Err,
{
    match attach_result {
        Ok(_) => ProbeVerdict::Bypassed,
        Err(_) => ProbeVerdict::Blocked,
    }
}

/// Relies on nix::sys::ptrace::attach: one PTRACE_ATTACH on the target
/// process id, `Ok` exactly when the kernel granted the attach. The raw OS
/// error number is handed back on failure.
#[verifier::external_body]
fn ptrace_attach_raw(pid: i32) -> Result<(), i32> {
    nix::sys::ptrace::attach(nix::unistd::Pid::from_raw(pid)).map_err(|e| e as i32)
}

/// Relies on nix::sys::ptrace::detach: one PTRACE_DETACH, delivering no
/// signal, on the target process id.
#[verifier::external_body]
fn ptrace_detach_raw(pid: i32) -> Result<(), i32> {
    nix::sys::ptrace::detach(nix::unistd::Pid::from_raw(pid), None).map_err(|e| e as i32)
}

/// Attempt to attach a trace to the process `pid`. On a successful attach,
/// detach immediately — the measured event is attachability, not holding
/// the trace — and report `Bypassed`; on any attach failure report
/// `Blocked`. The report never carries an invocation error, and a detach is
/// attempted exactly when the attach succeeded, so a bypassed target is
/// left untraced.
pub fn attempt_process_trace(pid: i32) -> (report: TraceReport)
    ensures
        report.verdict is Bypassed || report.verdict is Blocked,
        report.verdict is Bypassed <==> report.attach_errno is None,
        report.detach_attempted <==> report.verdict is Bypassed,
        !report.detach_attempted ==> report.detach_errno is None,
{
    let attach = ptrace_attach_raw(pid);
    let verdict = trace_verdict(&attach);
    match attach {
        Ok(_) => {
            let detach_errno = match ptrace_detach_raw(pid) {
                Ok(_) => None,
                Err(e) => Some(e),
            };
            TraceReport { verdict, detach_attempted: true, attach_errno: None, detach_errno }
        },
        Err(e) => TraceReport {
            verdict,
            detach_attempted: false,
            attach_errno: Some(e),
            detach_errno: None,
        },
    }
}

} // verus!
