//! The records that carry scheduling parameters to and from the operating
//! system.

use vstd::prelude::*;

verus! {

/// The native handle of a thread. The library never makes one: the caller
/// supplies it.
pub type ThreadId = libc::pthread_t;

/// The size in bytes of the kernel's attribute record as `SchedAttr` mirrors
/// it.
pub const SCHED_ATTR_SIZE: u32 = 56;

/// The parameter block of the POSIX scheduling calls, reduced to the one field
/// that every C library has.
#[derive(Debug, Copy, Clone, Eq, PartialEq, Hash, Structural)]
pub struct ScheduleParams {
    /// The priority number.
    pub sched_priority: libc::c_int,
}

/// The fields of the kernel's extended scheduling attribute record.
#[derive(Debug, Copy, Clone, Eq, PartialEq, Hash, Structural)]
pub struct SchedAttr {
    /// The size of the record in bytes.
    pub size: u32,
    /// The policy number.
    pub sched_policy: u32,
    /// Flags of the deadline policy.
    pub sched_flags: u64,
    /// The nice value, for the normal and batch policies.
    pub sched_nice: i32,
    /// The priority, for the first-in-first-out and round-robin policies.
    pub sched_priority: u32,
    /// The runtime in nanoseconds, for the deadline policy.
    pub sched_runtime: u64,
    /// The deadline in nanoseconds, for the deadline policy.
    pub sched_deadline: u64,
    /// The period in nanoseconds, for the deadline policy.
    pub sched_period: u64,
    /// Utilization hint, lower end.
    pub sched_util_min: u32,
    /// Utilization hint, upper end.
    pub sched_util_max: u32,
}

impl SchedAttr {
    /// The record with every field zero.
    pub open spec fn zeroed() -> SchedAttr {
        SchedAttr {
            size: 0,
            sched_policy: 0,
            sched_flags: 0,
            sched_nice: 0,
            sched_priority: 0,
            sched_runtime: 0,
            sched_deadline: 0,
            sched_period: 0,
            sched_util_min: 0,
            sched_util_max: 0,
        }
    }
}

impl Default for SchedAttr {
    fn default() -> (attr: SchedAttr)
        ensures
            attr == SchedAttr::zeroed(),
    {
        SchedAttr {
            size: 0,
            sched_policy: 0,
            sched_flags: 0,
            sched_nice: 0,
            sched_priority: 0,
            sched_runtime: 0,
            sched_deadline: 0,
            sched_period: 0,
            sched_util_min: 0,
            sched_util_max: 0,
        }
    }
}

} // verus!
