//! Thread priorities, and their translation to the priority number of a
//! POSIX scheduler.

use vstd::prelude::*;
use crate::error::Error;
use crate::params::ScheduleParams;
use crate::policy::ThreadSchedulePolicy;

verus! {

/// A portable priority. Valid values lie between `MIN` and `MAX`.
#[derive(Debug, Copy, Clone, Eq, PartialEq, Ord, PartialOrd, Hash, Structural)]
pub struct ThreadPriorityValue(pub u8);

/// A priority as the operating system counts it.
#[derive(Debug, Copy, Clone, Eq, PartialEq, Ord, PartialOrd, Hash, Structural)]
pub struct ThreadPriorityOsValue(pub u32);

/// Flags that adjust deadline scheduling.
#[derive(Debug, Copy, Clone, Eq, PartialEq, Ord, PartialOrd, Hash, Structural)]
pub enum DeadlineFlags {
    /// Children created by fork do not inherit privileged policies.
    ResetOnFork,
    /// The thread may reclaim bandwidth that other real-time threads leave unused.
    Reclaim,
    /// The thread asks for a signal when it overruns its deadline.
    DeadlineOverrun,
}

/// How important a thread is.
#[derive(Debug, Copy, Clone, Eq, PartialEq, Ord, PartialOrd, Hash, Structural)]
pub enum ThreadPriority {
    /// The lowest priority that the policy in effect admits.
    Min,
    /// A portable priority, still read in the light of the policy.
    Crossplatform(ThreadPriorityValue),
    /// A priority in the operating system's own numbers.
    Os(ThreadPriorityOsValue),
    /// Runtime, deadline and period in nanoseconds, and flags. Goes with the
    /// deadline policy and with no other.
    Deadline(u64, u64, u64, Option<DeadlineFlags>),
    /// The highest priority that the policy in effect admits.
    Max,
}

/// The message for a portable priority above `ThreadPriorityValue::MAX`.
pub open spec fn value_range_message() -> &'static str {
    "The thread priority value must be in range of [0; 100]."
}

/// The message for a conventional priority under the deadline policy.
pub open spec fn deadline_policy_message() -> &'static str {
    "Deadline scheduling must use deadline priority."
}

/// The message for a deadline priority under any other policy.
pub open spec fn deadline_priority_message() -> &'static str {
    "Deadline is non-POSIX and cannot be converted."
}

/// The message for a real-time priority outside 1 to 99.
pub open spec fn realtime_range_message() -> &'static str {
    "The value is out of range [0; 99]"
}

/// The message for a priority other than zero under a normal policy.
pub open spec fn normal_range_message() -> &'static str {
    "The value can be only 0 for normal scheduling policy"
}

/// What a plain number resolves to under a policy that is not the deadline
/// policy: under a real-time policy the number itself if it lies in 1 to 99,
/// under a normal policy zero if it is zero.
pub open spec fn resolve_number(p: int, policy: ThreadSchedulePolicy) -> Result<i32, Error> {
    if policy is Realtime {
        if 1 <= p <= 99 {
            Ok(p as i32)
        } else {
            Err(Error::Priority(realtime_range_message()))
        }
    } else {
        if p == 0 {
            Ok(0i32)
        } else {
            Err(Error::Priority(normal_range_message()))
        }
    }
}

/// The low byte of a number: what is left of it modulo 256.
pub open spec fn low_byte(p: i32) -> u8 {
    ((p as int) % 256) as u8
}

impl ThreadPriorityValue {
    /// The lowest portable priority.
    pub const MIN: u8 = 0;

    /// The highest portable priority.
    pub const MAX: u8 = 100;

    /// Whether the value lies in the portable range.
    pub open spec fn is_valid(self) -> bool {
        self.0 <= 100
    }
}

impl DeadlineFlags {
    /// The bit that the kernel knows the flag by.
    pub open spec fn spec_bits(self) -> u64 {
        match self {
            DeadlineFlags::ResetOnFork => 1,
            DeadlineFlags::Reclaim => 2,
            DeadlineFlags::DeadlineOverrun => 4,
        }
    }

    /// The bit that the kernel knows the flag by.
    pub fn bits(self) -> (b: u64)
        ensures
            b == self.spec_bits(),
    {
        match self {
            DeadlineFlags::ResetOnFork => 1,
            DeadlineFlags::Reclaim => 2,
            DeadlineFlags::DeadlineOverrun => 4,
        }
    }
}

impl ThreadPriority {
    /// The priority number for the scheduler that this priority resolves to
    /// under `policy`, or the error that refuses the pair.
    ///
    /// The deadline policy goes with a deadline priority only, and the other
    /// way round; that pair resolves to zero, since its parameters do not
    /// travel in the priority field. `Min` and `Max` are the ends of the
    /// policy's range.
    pub open spec fn resolve(self, policy: ThreadSchedulePolicy) -> Result<i32, Error> {
        if policy.is_deadline() {
            if self is Deadline {
                Ok(0i32)
            } else {
                Err(Error::Priority(deadline_policy_message()))
            }
        } else {
            match self {
                ThreadPriority::Deadline(_, _, _, _) => Err(
                    Error::Priority(deadline_priority_message()),
                ),
                ThreadPriority::Min => if policy is Realtime {
                    Ok(1i32)
                } else {
                    Ok(0i32)
                },
                ThreadPriority::Max => if policy is Realtime {
                    Ok(99i32)
                } else {
                    Ok(0i32)
                },
                ThreadPriority::Crossplatform(v) => resolve_number(v.0 as int, policy),
                ThreadPriority::Os(v) => resolve_number(v.0 as int, policy),
            }
        }
    }

    /// The priority that `try_from` makes of a number.
    pub open spec fn checked(value: u8) -> Result<ThreadPriority, &'static str> {
        if value <= 100 {
            Ok(ThreadPriority::Crossplatform(ThreadPriorityValue(value)))
        } else {
            Err(value_range_message())
        }
    }

    /// A portable priority of the given value. Fails exactly on the values
    /// above 100.
    pub fn try_from(value: u8) -> (r: Result<ThreadPriority, &'static str>)
        ensures
            r == Self::checked(value),
            r is Ok <==> value <= 100,
            r matches Ok(p) ==> p == ThreadPriority::Crossplatform(ThreadPriorityValue(value))
                && ThreadPriorityValue(value).is_valid(),
    {
        if value <= ThreadPriorityValue::MAX {
            Ok(ThreadPriority::Crossplatform(ThreadPriorityValue(value)))
        } else {
            Err("The thread priority value must be in range of [0; 100].")
        }
    }

    /// Resolves the priority under `policy` to the number for the scheduler.
    /// No number can be given without the policy: the valid range depends on
    /// both.
    pub fn to_posix(self, policy: ThreadSchedulePolicy) -> (r: Result<libc::c_int, Error>)
        ensures
            r == self.resolve(policy),
    {
        let deadline = policy.uses_deadline();
        match self {
            ThreadPriority::Deadline(_, _, _, _) => {
                if deadline {
                    Ok(0)
                } else {
                    Err(Error::Priority("Deadline is non-POSIX and cannot be converted."))
                }
            },
            _ if deadline => Err(
                Error::Priority("Deadline scheduling must use deadline priority."),
            ),
            ThreadPriority::Min => match policy {
                ThreadSchedulePolicy::Realtime(_) => Ok(1),
                ThreadSchedulePolicy::Normal(_) => Ok(0),
            },
            ThreadPriority::Max => match policy {
                ThreadSchedulePolicy::Realtime(_) => Ok(99),
                ThreadSchedulePolicy::Normal(_) => Ok(0),
            },
            ThreadPriority::Crossplatform(ThreadPriorityValue(p)) => number_to_posix(
                p as u32,
                policy,
            ),
            ThreadPriority::Os(ThreadPriorityOsValue(p)) => number_to_posix(p, policy),
        }
    }

    /// The priority that a parameter block read from the scheduler stands
    /// for: always a portable value, the low byte of the block's priority,
    /// which is the priority itself wherever the scheduler handed out one of
    /// its own. What it means depends on the policy, which the block does
    /// not hold.
    pub fn from_posix(params: ScheduleParams) -> (r: ThreadPriority)
        ensures
            r == ThreadPriority::Crossplatform(
                ThreadPriorityValue(low_byte(params.sched_priority)),
            ),
            0 <= params.sched_priority <= 255 ==> (r matches ThreadPriority::Crossplatform(v)
                && v.0 == params.sched_priority),
    {
        let p: libc::c_int = params.sched_priority;
        let low: u8 = #[verifier::truncate] (p as u8);
        assert(low as int == (p as int) % 256) by (bit_vector)
            requires
                low == p as u8,
        ;
        ThreadPriority::Crossplatform(ThreadPriorityValue(low))
    }
}

/// Resolves a plain number under a policy that is not the deadline policy.
fn number_to_posix(p: u32, policy: ThreadSchedulePolicy) -> (r: Result<libc::c_int, Error>)
    ensures
        r == resolve_number(p as int, policy),
{
    match policy {
        ThreadSchedulePolicy::Realtime(_) => {
            if p == 0 || p > 99 {
                Err(Error::Priority("The value is out of range [0; 99]"))
            } else {
                Ok(p as libc::c_int)
            }
        },
        ThreadSchedulePolicy::Normal(_) => {
            if p != 0 {
                Err(Error::Priority("The value can be only 0 for normal scheduling policy"))
            } else {
                Ok(0)
            }
        },
    }
}

} // verus!
