//! What holds of the codec and the gateway for every input, stated over the
//! spec functions that the contracts of the executable functions use.

use vstd::prelude::*;
use crate::error::Error;
use crate::facade::{planned_write, reply_priority};
use crate::gateway::{
    flag_bits, kernel_thread_id, missing_deadline_message, planned_call, reply_result, SchedCall,
    SchedParamReply,
};
use crate::params::{ScheduleParams, ThreadId, SCHED_ATTR_SIZE};
use crate::policy::{NormalThreadSchedulePolicy, RealtimeThreadSchedulePolicy, ThreadSchedulePolicy};
use crate::priority::{value_range_message, DeadlineFlags, ThreadPriority, ThreadPriorityValue};

verus! {

/// The number inside a portable or native priority.
pub open spec fn plain_number(priority: ThreadPriority) -> int
    recommends
        priority is Crossplatform || priority is Os,
{
    match priority {
        ThreadPriority::Crossplatform(v) => v.0 as int,
        ThreadPriority::Os(v) => v.0 as int,
        _ => 0,
    }
}

/// Every value from 0 to 100 makes a portable priority of that value, which
/// is valid; every value above 100 is refused with the range message.
pub proof fn portable_priority_range(value: u8)
    ensures
        value <= 100 ==> ThreadPriority::checked(value) == Ok::<ThreadPriority, &'static str>(
            ThreadPriority::Crossplatform(ThreadPriorityValue(value)),
        ) && ThreadPriorityValue(value).is_valid(),
        value > 100 ==> ThreadPriority::checked(value) == Err::<ThreadPriority, &'static str>(
            value_range_message(),
        ),
{
}

/// Under a real-time policy other than the deadline policy, `Min` resolves
/// to 1 and `Max` to 99. Under a normal policy both resolve to 0.
pub proof fn extremes_resolve_to_range_ends(policy: ThreadSchedulePolicy)
    requires
        !policy.is_deadline(),
    ensures
        policy is Realtime ==> ThreadPriority::Min.resolve(policy) == Ok::<i32, Error>(1)
            && ThreadPriority::Max.resolve(policy) == Ok::<i32, Error>(99),
        policy is Normal ==> ThreadPriority::Min.resolve(policy) == Ok::<i32, Error>(0)
            && ThreadPriority::Max.resolve(policy) == Ok::<i32, Error>(0),
{
}

/// Under a real-time policy other than the deadline policy, a portable or
/// native priority resolves exactly if its number lies in 1 to 99. Under a
/// normal policy it resolves exactly if its number is 0. Where it resolves,
/// it resolves to its number.
pub proof fn numbers_resolve_within_range(priority: ThreadPriority, policy: ThreadSchedulePolicy)
    requires
        priority is Crossplatform || priority is Os,
        !policy.is_deadline(),
    ensures
        policy is Realtime ==> (priority.resolve(policy) is Ok <==> 1 <= plain_number(priority)
            <= 99),
        policy is Normal ==> (priority.resolve(policy) is Ok <==> plain_number(priority) == 0),
        priority.resolve(policy) matches Ok(p) ==> p == plain_number(priority),
{
}

/// The deadline policy refuses every priority but a deadline priority, and
/// a deadline priority is refused by every policy but the deadline policy.
/// The two together resolve to zero.
pub proof fn deadline_goes_with_deadline(priority: ThreadPriority, policy: ThreadSchedulePolicy)
    ensures
        policy.is_deadline() && !(priority is Deadline) ==> priority.resolve(policy) is Err,
        priority is Deadline && !policy.is_deadline() ==> priority.resolve(policy) is Err,
        policy.is_deadline() && priority is Deadline ==> priority.resolve(policy) == Ok::<
            i32,
            Error,
        >(0),
{
}

/// Decoding the number of a policy gives the policy back. `Other` is left
/// out: it shares its number with `Normal`, and the number is read as
/// `Normal`.
pub proof fn policy_survives_encoding(policy: ThreadSchedulePolicy)
    requires
        policy != ThreadSchedulePolicy::Normal(NormalThreadSchedulePolicy::Other),
    ensures
        ThreadSchedulePolicy::decode(policy.posix_code()) == Some(policy),
        ThreadSchedulePolicy::decoded(policy.posix_code()) == Ok::<ThreadSchedulePolicy, Error>(
            policy,
        ),
{
}

/// `Other` does not survive encoding: it comes back as `Normal`.
pub proof fn other_decodes_as_normal()
    ensures
        ThreadSchedulePolicy::decode(
            ThreadSchedulePolicy::Normal(NormalThreadSchedulePolicy::Other).posix_code(),
        ) == Some(ThreadSchedulePolicy::Normal(NormalThreadSchedulePolicy::Normal)),
{
}

/// Encoding the policy that a number decodes to gives the number back, and
/// the numbers that decode are 0, 1, 2, 3, 5 and 6.
pub proof fn number_survives_decoding(code: i32)
    ensures
        ThreadSchedulePolicy::decode(code) matches Some(policy) ==> policy.posix_code() == code,
        ThreadSchedulePolicy::decode(code) is Some <==> code == 0 || code == 1 || code == 2
            || code == 3 || code == 5 || code == 6,
{
}

/// A write under the deadline policy with any other priority than a deadline
/// priority is refused with the mismatch message, whatever the thread and
/// the parameter block: no call is planned.
pub proof fn deadline_write_wants_deadline_priority(
    native: ThreadId,
    params: ScheduleParams,
    priority: ThreadPriority,
)
    requires
        !(priority is Deadline),
    ensures
        planned_call(
            native,
            ThreadSchedulePolicy::Realtime(RealtimeThreadSchedulePolicy::Deadline),
            params,
            priority,
        ) == Err::<SchedCall, Error>(Error::Priority(missing_deadline_message())),
        planned_write(
            native,
            priority,
            ThreadSchedulePolicy::Realtime(RealtimeThreadSchedulePolicy::Deadline),
        ) == Err::<SchedCall, Error>(Error::Priority(missing_deadline_message())),
{
}

/// A write of a deadline priority under the deadline policy is planned as
/// one call with an attribute record that carries runtime, deadline and
/// period as given, the deadline policy's number, the record's size, and
/// the bits of the flag if there is one.
pub proof fn deadline_write_carries_its_parameters(
    native: ThreadId,
    runtime: u64,
    deadline: u64,
    period: u64,
    flags: Option<DeadlineFlags>,
)
    ensures
        planned_write(
            native,
            ThreadPriority::Deadline(runtime, deadline, period, flags),
            ThreadSchedulePolicy::Realtime(RealtimeThreadSchedulePolicy::Deadline),
        ) matches Ok(SchedCall::SetAttr { tid, attr, flags: call_flags }) && tid
            == kernel_thread_id(native) && attr.sched_runtime == runtime && attr.sched_deadline
            == deadline && attr.sched_period == period && attr.sched_policy
            == RealtimeThreadSchedulePolicy::Deadline.posix_code() && attr.size == SCHED_ATTR_SIZE
            && attr.sched_flags == flag_bits(flags) && call_flags == flag_bits(flags)
            && (flags is None ==> attr.sched_flags == 0 && call_flags == 0),
{
}

/// A call is planned exactly for the pairs of priority and policy that
/// resolve; a pair that breaks the range rules is refused with the error of
/// its resolution, unless the policy is the deadline policy.
pub proof fn calls_are_planned_for_valid_pairs(
    native: ThreadId,
    priority: ThreadPriority,
    policy: ThreadSchedulePolicy,
)
    ensures
        planned_write(native, priority, policy) is Ok <==> priority.resolve(policy) is Ok,
        !policy.is_deadline() ==> (priority.resolve(policy) matches Err(e) ==> planned_write(
            native,
            priority,
            policy,
        ) == Err::<SchedCall, Error>(e)),
        !policy.is_deadline() ==> (priority.resolve(policy) matches Ok(p) ==> planned_write(
            native,
            priority,
            policy,
        ) == Ok::<SchedCall, Error>(
            SchedCall::SetSchedParam {
                native,
                policy: policy.posix_code(),
                params: ScheduleParams { sched_priority: p },
            },
        )),
{
}

/// A handle that is a kernel thread id is addressed as itself under the
/// deadline policy.
pub proof fn thread_ids_are_kept(native: ThreadId)
    requires
        native <= i32::MAX,
    ensures
        kernel_thread_id(native) == native,
{
}

/// A priority that the scheduler handed out is read back as it is: a
/// successful reply whose priority lies in 0 to 255 gives the portable
/// priority of that value.
pub proof fn read_priority_is_the_stored_one(reply: SchedParamReply)
    requires
        reply.status == 0,
        ThreadSchedulePolicy::decode(reply.policy) is Some,
        0 <= reply.params.sched_priority <= 255,
    ensures
        reply_priority(reply) matches Ok(ThreadPriority::Crossplatform(v)) && v.0
            == reply.params.sched_priority,
{
}

/// A priority set under a policy is read back as it was resolved: the
/// parameter block of the planned call, stored and returned by the
/// scheduler with the policy's number, decodes to the resolved priority as
/// a portable value, and to the policy unless that was `Other`.
pub proof fn written_priority_is_read_back(
    native: ThreadId,
    priority: ThreadPriority,
    policy: ThreadSchedulePolicy,
)
    requires
        !policy.is_deadline(),
        priority.resolve(policy) is Ok,
    ensures
        planned_write(native, priority, policy) matches Ok(
            SchedCall::SetSchedParam { native: thread, policy: code, params },
        ) && thread == native && ({
            let reply = SchedParamReply { status: 0, policy: code, params };
            &&& reply_priority(reply) matches Ok(ThreadPriority::Crossplatform(v)) && Ok::<
                i32,
                Error,
            >(v.0 as i32) == priority.resolve(policy)
            &&& reply_result(reply) matches Ok((read, block)) && block == params && (policy
                != ThreadSchedulePolicy::Normal(NormalThreadSchedulePolicy::Other) ==> read
                == policy)
        }),
{
}

} // verus!
