//! Time spent in each phase of a commit.

use vstd::prelude::*;
use crate::sys::MDBX_commit_latency;
use std::time::Duration;

verus! {

/// Nanoseconds in one engine time unit (1/65536 s), rounded down.
pub const NANOS_PER_UNIT: u64 = 15258;

/// Latency of the phases of a commit.
#[derive(Clone, Copy, Debug)]
pub struct CommitLatency(pub MDBX_commit_latency);

/// Relies on `Duration::from_nanos`: a duration of the given nanoseconds.
#[verifier::external_body]
fn duration_from_nanos(nanos: u64) -> Duration {
    Duration::from_nanos(nanos)
}

/// An engine time, in units of 1/65536 s, as nanoseconds.
pub fn time_to_nanos(time: u32) -> (r: u64)
    ensures
        r == time * NANOS_PER_UNIT,
{
    assert(time * NANOS_PER_UNIT <= 0xffff_ffff * 15258) by (nonlinear_arith)
        requires
            time <= 0xffff_ffff,
    ;
    time as u64 * NANOS_PER_UNIT
}

impl CommitLatency {
    /// A record with every phase at zero.
    pub fn new() -> (r: Self)
        ensures
            r.0 == (MDBX_commit_latency {
                preparation: 0,
                gc_wallclock: 0,
                audit: 0,
                write: 0,
                sync: 0,
                ending: 0,
                whole: 0,
                gc_cputime: 0,
            }),
    {
        CommitLatency(
            MDBX_commit_latency {
                preparation: 0,
                gc_wallclock: 0,
                audit: 0,
                write: 0,
                sync: 0,
                ending: 0,
                whole: 0,
                gc_cputime: 0,
            },
        )
    }

    /// Preparation: committing children, updating table records, closing
    /// cursors.
    pub fn preparation(&self) -> Duration {
        duration_from_nanos(time_to_nanos(self.0.preparation))
    }

    /// Wall-clock time spent updating the free list.
    pub fn gc_wallclock(&self) -> Duration {
        duration_from_nanos(time_to_nanos(self.0.gc_wallclock))
    }

    /// Internal audit, if enabled.
    pub fn audit(&self) -> Duration {
        duration_from_nanos(time_to_nanos(self.0.audit))
    }

    /// Writing dirty pages to the file system.
    pub fn write(&self) -> Duration {
        duration_from_nanos(time_to_nanos(self.0.write))
    }

    /// Syncing written data to the storage.
    pub fn sync(&self) -> Duration {
        duration_from_nanos(time_to_nanos(self.0.sync))
    }

    /// Ending the transaction and releasing resources.
    pub fn ending(&self) -> Duration {
        duration_from_nanos(time_to_nanos(self.0.ending))
    }

    /// The whole commit.
    pub fn whole(&self) -> Duration {
        duration_from_nanos(time_to_nanos(self.0.whole))
    }

    /// User-mode CPU time spent updating the free list.
    pub fn gc_cputime(&self) -> Duration {
        duration_from_nanos(time_to_nanos(self.0.gc_cputime))
    }
}

} // verus!
