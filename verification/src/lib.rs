//! Accessors for the `intel_pstate` CPU frequency-scaling parameters that the
//! Linux kernel exposes as small text files in one sysfs directory.
//!
//! The library works on an explicit snapshot of that directory ([`store::SysDir`]):
//! each parameter file is held as plain bytes together with its access flags, so
//! that every read, parse, format and write decision is verified. A thin
//! unverified shell performs the actual filesystem traffic and converts between
//! the kernel files and the snapshot.

pub mod store;
pub mod text;

pub use store::{Field, FileSlot, GetCause, PState, PStateError, PStateValues, SetCause, SysDir, SysFiles};
