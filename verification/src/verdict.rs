use vstd::prelude::*;

verus! {

/// Tri-state result of one probe attempt.
#[derive(Clone, Copy, Debug, PartialEq, Eq, Structural)]
pub enum ProbeVerdict {
    /// The attack went through: the protection layer did not hold.
    Bypassed,
    /// The attack was stopped, the expected outcome under a working
    /// protection layer.
    Blocked,
    /// The probe could not even be attempted (target not found, setup
    /// failed); distinct from a security verdict.
    InvocationError,
}

/// The integer code handed across the native-call boundary: zero for a
/// bypass, minus one for anything else (the caller only distinguishes
/// bypass-success from non-bypass).
pub open spec fn spec_verdict_code(v: ProbeVerdict) -> i32 {
    match v {
        ProbeVerdict::Bypassed => 0i32,
        _ => -1i32,
    }
}

pub fn verdict_code(v: &ProbeVerdict) -> (code: i32)
    ensures
        code == spec_verdict_code(*v),
        code == 0 <==> *v is Bypassed,
{
    match v {
        ProbeVerdict::Bypassed => 0,
        ProbeVerdict::Blocked => -1,
        ProbeVerdict::InvocationError => -1,
    }
}

} // verus!
