//! The operations on a thread's priority, composed from codec and gateway.

use vstd::prelude::*;
use crate::error::Error;
use crate::gateway::{
    planned_call,
    reply_result,
    set_thread_schedule_policy,
    thread_schedule_policy_param,
    SchedCall,
    SchedParamReply,
};
use crate::params::{ScheduleParams, ThreadId};
use crate::policy::{NormalThreadSchedulePolicy, ThreadSchedulePolicy};
use crate::priority::{low_byte, ThreadPriority, ThreadPriorityValue};

verus! {

/// The call that sets `priority` and `policy` on `native`, or the error that
/// refuses the pair. The priority is resolved under the policy first, so a
/// pair that breaks the range rules never yields a call. Under the deadline
/// policy the priority field is zero.
pub open spec fn planned_write(
    native: ThreadId,
    priority: ThreadPriority,
    policy: ThreadSchedulePolicy,
) -> Result<SchedCall, Error> {
    if policy.is_deadline() {
        planned_call(native, policy, ScheduleParams { sched_priority: 0 }, priority)
    } else {
        match priority.resolve(policy) {
            Ok(p) => planned_call(native, policy, ScheduleParams { sched_priority: p }, priority),
            Err(e) => Err(e),
        }
    }
}

/// The policy under which a priority alone is set.
pub open spec fn default_policy() -> ThreadSchedulePolicy {
    ThreadSchedulePolicy::Normal(NormalThreadSchedulePolicy::Normal)
}

/// Plans the call that sets a thread's priority and schedule policy.
///
/// Performing the call may require privileges.
pub fn set_thread_priority_and_policy(
    native: ThreadId,
    priority: ThreadPriority,
    policy: ThreadSchedulePolicy,
) -> (r: Result<SchedCall, Error>)
    ensures
        r == planned_write(native, priority, policy),
        r is Ok <==> priority.resolve(policy) is Ok,
{
    let sched_priority: libc::c_int = if policy.uses_deadline() {
        0
    } else {
        match priority.to_posix(policy) {
            Ok(p) => p,
            Err(e) => {
                return Err(e);
            },
        }
    };
    set_thread_schedule_policy(native, policy, ScheduleParams { sched_priority }, priority)
}

/// Plans the call that sets the priority of the current thread, whose handle
/// is `native`. The priority is always resolved under the standard
/// time-sharing policy, which the call sets too.
pub fn set_current_thread_priority(native: ThreadId, priority: ThreadPriority) -> (r: Result<
    SchedCall,
    Error,
>)
    ensures
        r == planned_write(native, priority, default_policy()),
        r is Ok <==> priority.resolve(default_policy()) is Ok,
        r is Ok ==> r == Ok::<SchedCall, Error>(
            SchedCall::SetSchedParam {
                native,
                policy: 0,
                params: ScheduleParams { sched_priority: 0 },
            },
        ),
{
    let policy = ThreadSchedulePolicy::Normal(NormalThreadSchedulePolicy::Normal);
    set_thread_priority_and_policy(native, priority, policy)
}

/// What a reply to the POSIX read says of the thread's priority: the error
/// of the reply, or the low byte of the parameter block's priority as a
/// portable value.
pub open spec fn reply_priority(reply: SchedParamReply) -> Result<ThreadPriority, Error> {
    match reply_result(reply) {
        Ok((_, params)) => Ok(
            ThreadPriority::Crossplatform(ThreadPriorityValue(low_byte(params.sched_priority))),
        ),
        Err(e) => Err(e),
    }
}

/// The priority of the current thread, from the reply to the POSIX read of
/// its scheduling. Fails exactly where the reply gives no policy and
/// parameter block.
pub fn thread_priority(reply: SchedParamReply) -> (r: Result<ThreadPriority, Error>)
    ensures
        r == reply_priority(reply),
        r is Ok <==> reply.status == 0 && ThreadSchedulePolicy::decode(reply.policy) is Some,
{
    match thread_schedule_policy_param(reply) {
        Ok((_, params)) => Ok(ThreadPriority::from_posix(params)),
        Err(e) => Err(e),
    }
}

} // verus!
