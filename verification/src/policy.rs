//! Scheduling policies and their numeric encoding.

use vstd::prelude::*;
use crate::error::Error;

verus! {

/// Policies for time-critical threads, which the scheduler always prefers to
/// threads under a normal policy.
#[derive(Debug, Copy, Clone, Eq, PartialEq, Ord, PartialOrd, Hash, Structural)]
pub enum RealtimeThreadSchedulePolicy {
    /// First in, first out.
    Fifo,
    /// Round robin.
    RoundRobin,
    /// Deadline scheduling: a runtime, a deadline and a period take the place
    /// of a priority. Not a POSIX policy; the thread is addressed by its
    /// kernel thread id.
    Deadline,
}

/// The usual time-sharing policies.
#[derive(Debug, Copy, Clone, Eq, PartialEq, Ord, PartialOrd, Hash, Structural)]
pub enum NormalThreadSchedulePolicy {
    /// For background jobs of very low priority.
    Idle,
    /// For batch-style execution.
    Batch,
    /// The standard time-sharing policy.
    Other,
    /// The standard time-sharing policy, under its other name.
    Normal,
}

/// A scheduling policy.
#[derive(Debug, Copy, Clone, Eq, PartialEq, Ord, PartialOrd, Hash, Structural)]
pub enum ThreadSchedulePolicy {
    /// A time-sharing policy.
    Normal(NormalThreadSchedulePolicy),
    /// A real-time policy.
    Realtime(RealtimeThreadSchedulePolicy),
}

/// The message of the error for a number that encodes no policy.
pub open spec fn unknown_policy_message() -> &'static str {
    "Can't parse schedule policy from posix"
}

impl RealtimeThreadSchedulePolicy {
    /// The number that the scheduler knows this policy by.
    pub open spec fn posix_code(self) -> i32 {
        match self {
            RealtimeThreadSchedulePolicy::Fifo => 1,
            RealtimeThreadSchedulePolicy::RoundRobin => 2,
            RealtimeThreadSchedulePolicy::Deadline => 6,
        }
    }

    /// Encodes the policy for the scheduler.
    pub fn to_posix(self) -> (code: libc::c_int)
        ensures
            code == self.posix_code(),
    {
        match self {
            RealtimeThreadSchedulePolicy::Fifo => 1,
            RealtimeThreadSchedulePolicy::RoundRobin => 2,
            RealtimeThreadSchedulePolicy::Deadline => 6,
        }
    }
}

impl NormalThreadSchedulePolicy {
    /// The number that the scheduler knows this policy by. `Other` and
    /// `Normal` share one.
    pub open spec fn posix_code(self) -> i32 {
        match self {
            NormalThreadSchedulePolicy::Idle => 5,
            NormalThreadSchedulePolicy::Batch => 3,
            NormalThreadSchedulePolicy::Other => 0,
            NormalThreadSchedulePolicy::Normal => 0,
        }
    }

    /// Encodes the policy for the scheduler.
    pub fn to_posix(self) -> (code: libc::c_int)
        ensures
            code == self.posix_code(),
    {
        match self {
            NormalThreadSchedulePolicy::Idle => 5,
            NormalThreadSchedulePolicy::Batch => 3,
            NormalThreadSchedulePolicy::Other | NormalThreadSchedulePolicy::Normal => 0,
        }
    }
}

impl ThreadSchedulePolicy {
    /// The number that the scheduler knows this policy by.
    pub open spec fn posix_code(self) -> i32 {
        match self {
            ThreadSchedulePolicy::Normal(p) => p.posix_code(),
            ThreadSchedulePolicy::Realtime(p) => p.posix_code(),
        }
    }

    /// Whether this is the deadline policy.
    pub open spec fn is_deadline(self) -> bool {
        self == ThreadSchedulePolicy::Realtime(RealtimeThreadSchedulePolicy::Deadline)
    }

    /// The policy that a number stands for, if any. Zero is read as `Normal`,
    /// never as `Other`.
    pub open spec fn decode(code: i32) -> Option<ThreadSchedulePolicy> {
        if code == 0 {
            Some(ThreadSchedulePolicy::Normal(NormalThreadSchedulePolicy::Normal))
        } else if code == 1 {
            Some(ThreadSchedulePolicy::Realtime(RealtimeThreadSchedulePolicy::Fifo))
        } else if code == 2 {
            Some(ThreadSchedulePolicy::Realtime(RealtimeThreadSchedulePolicy::RoundRobin))
        } else if code == 3 {
            Some(ThreadSchedulePolicy::Normal(NormalThreadSchedulePolicy::Batch))
        } else if code == 5 {
            Some(ThreadSchedulePolicy::Normal(NormalThreadSchedulePolicy::Idle))
        } else if code == 6 {
            Some(ThreadSchedulePolicy::Realtime(RealtimeThreadSchedulePolicy::Deadline))
        } else {
            None
        }
    }

    /// What `from_posix` returns for a number.
    pub open spec fn decoded(code: i32) -> Result<ThreadSchedulePolicy, Error> {
        match Self::decode(code) {
            Some(policy) => Ok(policy),
            None => Err(Error::Ffi(unknown_policy_message())),
        }
    }

    /// Whether this is the deadline policy.
    pub fn uses_deadline(self) -> (r: bool)
        ensures
            r == self.is_deadline(),
    {
        match self {
            ThreadSchedulePolicy::Realtime(RealtimeThreadSchedulePolicy::Deadline) => true,
            _ => false,
        }
    }

    /// Encodes the policy for the scheduler.
    pub fn to_posix(self) -> (code: libc::c_int)
        ensures
            code == self.posix_code(),
    {
        match self {
            ThreadSchedulePolicy::Normal(p) => p.to_posix(),
            ThreadSchedulePolicy::Realtime(p) => p.to_posix(),
        }
    }

    /// Decodes a policy number. Fails, with `Error::Ffi`, exactly on the
    /// numbers that encode no policy.
    pub fn from_posix(policy: libc::c_int) -> (r: Result<ThreadSchedulePolicy, Error>)
        ensures
            r == Self::decoded(policy),
    {
        match policy {
            0 => Ok(ThreadSchedulePolicy::Normal(NormalThreadSchedulePolicy::Normal)),
            3 => Ok(ThreadSchedulePolicy::Normal(NormalThreadSchedulePolicy::Batch)),
            5 => Ok(ThreadSchedulePolicy::Normal(NormalThreadSchedulePolicy::Idle)),
            1 => Ok(ThreadSchedulePolicy::Realtime(RealtimeThreadSchedulePolicy::Fifo)),
            2 => Ok(ThreadSchedulePolicy::Realtime(RealtimeThreadSchedulePolicy::RoundRobin)),
            6 => Ok(ThreadSchedulePolicy::Realtime(RealtimeThreadSchedulePolicy::Deadline)),
            _ => Err(Error::Ffi("Can't parse schedule policy from posix")),
        }
    }
}

} // verus!
