//! Host-version compatibility: where the running host exposes the
//! subtransaction-cache overflow status.
//!
//! Depending on the host's major version, the per-backend overflow flag
//! lives in one of two host-internal structures. The two forms are
//! semantically identical; the binding must read whichever the running
//! version has. The choice is a strategy resolved once at initialization,
//! and an unknown version fails closed — the module refuses to load rather
//! than silently reading wrong data.

use vstd::prelude::*;

verus! {

/// Lowest host major version whose overflow flag sits on the per-transaction
/// structure.
pub const XACT_FLAG_FIRST_VERSION: u32 = 12;

/// Lowest host major version whose overflow flag sits in the per-process
/// subtransaction-id status.
pub const PROC_STATUS_FIRST_VERSION: u32 = 14;

/// Highest host major version this module knows how to read.
pub const LAST_KNOWN_VERSION: u32 = 15;

/// Where the running host keeps the per-backend overflow flag.
#[derive(Clone, Copy, PartialEq, Eq, Structural, Debug)]
pub enum OverflowProbe {
    /// Older hosts: a flag on the backend's per-transaction structure.
    XactOverflowFlag,
    /// Newer hosts: the backend's per-process subtransaction-id status.
    ProcSubxidStatus,
}

/// The host version cannot be resolved to an overflow probe: a deployment
/// condition, fatal to loading the module.
#[derive(Clone, Copy, PartialEq, Eq, Structural, Debug)]
pub enum HostCompatError {
    UnsupportedVersion,
}

/// The probe a host major version calls for, if the version is known.
pub open spec fn probe_for_version(major_version: u32) -> Result<OverflowProbe, HostCompatError> {
    if XACT_FLAG_FIRST_VERSION <= major_version < PROC_STATUS_FIRST_VERSION {
        Ok(OverflowProbe::XactOverflowFlag)
    } else if PROC_STATUS_FIRST_VERSION <= major_version <= LAST_KNOWN_VERSION {
        Ok(OverflowProbe::ProcSubxidStatus)
    } else {
        Err(HostCompatError::UnsupportedVersion)
    }
}

/// Resolve, once at initialization, how to read the overflow status on the
/// running host. Succeeds exactly on the known major versions; any other
/// version is refused so that the module fails closed at load time.
pub fn select_overflow_probe(major_version: u32) -> (r: Result<OverflowProbe, HostCompatError>)
    ensures
        r == probe_for_version(major_version),
{
    if XACT_FLAG_FIRST_VERSION <= major_version && major_version < PROC_STATUS_FIRST_VERSION {
        Ok(OverflowProbe::XactOverflowFlag)
    } else if PROC_STATUS_FIRST_VERSION <= major_version && major_version <= LAST_KNOWN_VERSION {
        Ok(OverflowProbe::ProcSubxidStatus)
    } else {
        Err(HostCompatError::UnsupportedVersion)
    }
}

} // verus!
