//! The two halves of every exchange with the scheduler: what to ask of it,
//! and what its answer means.
//!
//! A write is planned as a [`SchedCall`]; the caller performs it and hands
//! the status to [`check_status`]. A read is performed by the caller, and
//! its answer is decoded here.

use vstd::prelude::*;
use crate::error::Error;
use crate::params::{SchedAttr, ScheduleParams, ThreadId, SCHED_ATTR_SIZE};
use crate::policy::ThreadSchedulePolicy;
use crate::priority::{DeadlineFlags, ThreadPriority};

verus! {

/// One call that sets a thread's scheduling, ready to be made.
#[derive(Debug, Copy, Clone, Eq, PartialEq, Hash, Structural)]
pub enum SchedCall {
    /// The POSIX call that sets policy and parameter block of a thread.
    SetSchedParam {
        /// The thread to set.
        native: ThreadId,
        /// The policy number.
        policy: libc::c_int,
        /// The parameter block.
        params: ScheduleParams,
    },
    /// The kernel's own call that sets an attribute record. It addresses the
    /// thread by its kernel thread id, not by its POSIX handle.
    SetAttr {
        /// The kernel thread id; zero is the calling thread.
        tid: libc::pid_t,
        /// The attribute record.
        attr: SchedAttr,
        /// The flags argument of the call.
        flags: i32,
    },
}

/// What the POSIX call that reads a thread's scheduling gave back.
#[derive(Debug, Copy, Clone, Eq, PartialEq, Hash, Structural)]
pub struct SchedParamReply {
    /// The status that the call returned; zero on success.
    pub status: libc::c_int,
    /// The policy number that it stored.
    pub policy: libc::c_int,
    /// The parameter block that it stored.
    pub params: ScheduleParams,
}

/// The message for the deadline policy without a deadline priority.
pub open spec fn missing_deadline_message() -> &'static str {
    "Deadline policy given without deadline priority."
}

/// The bits of an optional flag; zero without one.
pub open spec fn flag_bits(flags: Option<DeadlineFlags>) -> u64 {
    match flags {
        None => 0,
        Some(flag) => flag.spec_bits(),
    }
}

/// The kernel thread id that a handle is read as under the deadline policy:
/// its low 32 bits, which is the handle itself wherever it is a thread id.
pub open spec fn kernel_thread_id(native: ThreadId) -> libc::pid_t {
    native as libc::pid_t
}

/// The attribute record for deadline scheduling with the given parameters:
/// sized, marked with the deadline policy's number, and zero wherever the
/// deadline policy has no say.
pub open spec fn deadline_attr(
    runtime: u64,
    deadline: u64,
    period: u64,
    flags: Option<DeadlineFlags>,
) -> SchedAttr {
    SchedAttr {
        size: SCHED_ATTR_SIZE,
        sched_policy: 6,
        sched_flags: flag_bits(flags),
        sched_nice: 0,
        sched_priority: 0,
        sched_runtime: runtime,
        sched_deadline: deadline,
        sched_period: period,
        sched_util_min: 0,
        sched_util_max: 0,
    }
}

/// The call that sets `policy` on `native`, or the reason why there is none.
///
/// Under the deadline policy the parameters are those of the deadline
/// priority, in an attribute record, and `params` is not looked at; the
/// handle is cut down to a kernel thread id. Under every other policy the
/// call carries `params` as given, and `priority` is not looked at.
pub open spec fn planned_call(
    native: ThreadId,
    policy: ThreadSchedulePolicy,
    params: ScheduleParams,
    priority: ThreadPriority,
) -> Result<SchedCall, Error> {
    if policy.is_deadline() {
        match priority {
            ThreadPriority::Deadline(runtime, deadline, period, flags) => Ok(
                SchedCall::SetAttr {
                    tid: kernel_thread_id(native),
                    attr: deadline_attr(runtime, deadline, period, flags),
                    flags: flag_bits(flags) as i32,
                },
            ),
            _ => Err(Error::Priority(missing_deadline_message())),
        }
    } else {
        Ok(SchedCall::SetSchedParam { native, policy: policy.posix_code(), params })
    }
}

/// What a status returned by the scheduler means.
pub open spec fn status_result(status: libc::c_int) -> Result<(), Error> {
    if status == 0 {
        Ok(())
    } else {
        Err(Error::OS(status))
    }
}

/// What a reply to the POSIX read means: the error of a nonzero status, else
/// the error of an unknown policy number, else policy and parameter block.
pub open spec fn reply_result(reply: SchedParamReply) -> Result<
    (ThreadSchedulePolicy, ScheduleParams),
    Error,
> {
    if reply.status != 0 {
        Err(Error::OS(reply.status))
    } else {
        match ThreadSchedulePolicy::decoded(reply.policy) {
            Ok(policy) => Ok((policy, reply.params)),
            Err(e) => Err(e),
        }
    }
}

/// Plans the call that sets the schedule policy of a thread.
///
/// Performing the call may require privileges. The deadline policy wants a
/// kernel thread id: under it `native` is read as one.
pub fn set_thread_schedule_policy(
    native: ThreadId,
    policy: ThreadSchedulePolicy,
    params: ScheduleParams,
    priority: ThreadPriority,
) -> (r: Result<SchedCall, Error>)
    ensures
        r == planned_call(native, policy, params, priority),
        r is Err <==> policy.is_deadline() && !(priority is Deadline),
{
    if policy.uses_deadline() {
        match priority {
            ThreadPriority::Deadline(runtime, deadline, period, flags) => {
                let bits: u64 = match flags {
                    None => 0,
                    Some(flag) => flag.bits(),
                };
                let tid: libc::pid_t = #[verifier::truncate] (native as libc::pid_t);
                let attr = SchedAttr {
                    size: SCHED_ATTR_SIZE,
                    sched_policy: policy.to_posix() as u32,
                    sched_flags: bits,
                    sched_runtime: runtime,
                    sched_deadline: deadline,
                    sched_period: period,
                    ..SchedAttr::default()
                };
                Ok(SchedCall::SetAttr { tid, attr, flags: bits as i32 })
            },
            _ => Err(Error::Priority("Deadline policy given without deadline priority.")),
        }
    } else {
        Ok(SchedCall::SetSchedParam { native, policy: policy.to_posix(), params })
    }
}

/// Reads the status that a planned call returned: zero is success, and any
/// other status is handed on as it came.
pub fn check_status(status: libc::c_int) -> (r: Result<(), Error>)
    ensures
        r == status_result(status),
{
    match status {
        0 => Ok(()),
        e => Err(Error::OS(e)),
    }
}

/// The schedule policy that the number returned by the scheduler for the
/// current process stands for.
pub fn thread_schedule_policy(raw: libc::c_int) -> (r: Result<ThreadSchedulePolicy, Error>)
    ensures
        r == ThreadSchedulePolicy::decoded(raw),
{
    ThreadSchedulePolicy::from_posix(raw)
}

/// The schedule policy and parameter block that a reply to the POSIX read
/// stands for.
pub fn thread_schedule_policy_param(reply: SchedParamReply) -> (r: Result<
    (ThreadSchedulePolicy, ScheduleParams),
    Error,
>)
    ensures
        r == reply_result(reply),
        r is Ok <==> reply.status == 0 && ThreadSchedulePolicy::decode(reply.policy) is Some,
{
    match reply.status {
        0 => match ThreadSchedulePolicy::from_posix(reply.policy) {
            Ok(policy) => Ok((policy, reply.params)),
            Err(e) => Err(e),
        },
        e => Err(Error::OS(e)),
    }
}

} // verus!
