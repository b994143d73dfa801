//! Probe engine for exercising a runtime application self-protection layer.
//!
//! Each probe attempts one concrete tampering technique — tracing a process,
//! re-protecting an executable page, writing through a raw address, or
//! scanning for instrumentation tooling — and reports a single verdict.

pub mod elf;
pub mod patch;
pub mod scan;
pub mod trace;
pub mod verdict;
pub mod write_probe;
