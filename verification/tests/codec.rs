use thread_priority::{
    DeadlineFlags, Error, NormalThreadSchedulePolicy, RealtimeThreadSchedulePolicy,
    ScheduleParams, ThreadPriority, ThreadPriorityOsValue, ThreadPriorityValue,
    ThreadSchedulePolicy,
};

const DEADLINE: ThreadSchedulePolicy =
    ThreadSchedulePolicy::Realtime(RealtimeThreadSchedulePolicy::Deadline);

fn realtime_policies() -> Vec<ThreadSchedulePolicy> {
    vec![
        ThreadSchedulePolicy::Realtime(RealtimeThreadSchedulePolicy::Fifo),
        ThreadSchedulePolicy::Realtime(RealtimeThreadSchedulePolicy::RoundRobin),
    ]
}

fn normal_policies() -> Vec<ThreadSchedulePolicy> {
    vec![
        ThreadSchedulePolicy::Normal(NormalThreadSchedulePolicy::Idle),
        ThreadSchedulePolicy::Normal(NormalThreadSchedulePolicy::Batch),
        ThreadSchedulePolicy::Normal(NormalThreadSchedulePolicy::Other),
        ThreadSchedulePolicy::Normal(NormalThreadSchedulePolicy::Normal),
    ]
}

fn deadline_priority() -> ThreadPriority {
    ThreadPriority::Deadline(1_000_000, 10_000_000, 100_000_000, None)
}

#[test]
fn try_from_accepts_zero_to_hundred() {
    for p in 0u8..=100 {
        assert_eq!(
            ThreadPriority::try_from(p),
            Ok(ThreadPriority::Crossplatform(ThreadPriorityValue(p)))
        );
    }
    assert_eq!(ThreadPriorityValue::MIN, 0);
    assert_eq!(ThreadPriorityValue::MAX, 100);
}

#[test]
fn try_from_refuses_above_hundred() {
    for p in 101u8..=255 {
        assert_eq!(
            ThreadPriority::try_from(p),
            Err("The thread priority value must be in range of [0; 100].")
        );
    }
}

#[test]
fn min_and_max_under_realtime() {
    for policy in realtime_policies() {
        assert_eq!(ThreadPriority::Min.to_posix(policy), Ok(1));
        assert_eq!(ThreadPriority::Max.to_posix(policy), Ok(99));
    }
}

#[test]
fn min_and_max_under_normal() {
    for policy in normal_policies() {
        assert_eq!(ThreadPriority::Min.to_posix(policy), Ok(0));
        assert_eq!(ThreadPriority::Max.to_posix(policy), Ok(0));
    }
}

#[test]
fn crossplatform_under_realtime_wants_one_to_ninety_nine() {
    for policy in realtime_policies() {
        for p in 0u8..=255 {
            let r = ThreadPriority::Crossplatform(ThreadPriorityValue(p)).to_posix(policy);
            if (1..=99).contains(&p) {
                assert_eq!(r, Ok(i32::from(p)));
            } else {
                assert_eq!(r, Err(Error::Priority("The value is out of range [0; 99]")));
            }
        }
    }
}

#[test]
fn os_value_under_realtime_wants_one_to_ninety_nine() {
    for policy in realtime_policies() {
        for p in [0u32, 1, 2, 50, 98, 99, 100, 101, 255, 256, 65_536, u32::MAX] {
            let r = ThreadPriority::Os(ThreadPriorityOsValue(p)).to_posix(policy);
            if (1..=99).contains(&p) {
                assert_eq!(r, Ok(p as i32));
            } else {
                assert_eq!(r, Err(Error::Priority("The value is out of range [0; 99]")));
            }
        }
    }
}

#[test]
fn numbers_under_normal_want_zero() {
    let refused = Err(Error::Priority(
        "The value can be only 0 for normal scheduling policy",
    ));
    for policy in normal_policies() {
        assert_eq!(
            ThreadPriority::Crossplatform(ThreadPriorityValue(0)).to_posix(policy),
            Ok(0)
        );
        assert_eq!(ThreadPriority::Os(ThreadPriorityOsValue(0)).to_posix(policy), Ok(0));
        for p in [1u8, 50, 99, 100, 255] {
            assert_eq!(
                ThreadPriority::Crossplatform(ThreadPriorityValue(p)).to_posix(policy),
                refused
            );
            assert_eq!(
                ThreadPriority::Os(ThreadPriorityOsValue(u32::from(p))).to_posix(policy),
                refused
            );
        }
        assert_eq!(
            ThreadPriority::Os(ThreadPriorityOsValue(u32::MAX)).to_posix(policy),
            refused
        );
    }
}

#[test]
fn deadline_policy_refuses_conventional_priorities() {
    let refused = Err(Error::Priority(
        "Deadline scheduling must use deadline priority.",
    ));
    assert_eq!(ThreadPriority::Min.to_posix(DEADLINE), refused);
    assert_eq!(ThreadPriority::Max.to_posix(DEADLINE), refused);
    assert_eq!(
        ThreadPriority::Crossplatform(ThreadPriorityValue(50)).to_posix(DEADLINE),
        refused
    );
    assert_eq!(
        ThreadPriority::Crossplatform(ThreadPriorityValue(0)).to_posix(DEADLINE),
        refused
    );
    assert_eq!(ThreadPriority::Os(ThreadPriorityOsValue(50)).to_posix(DEADLINE), refused);
}

#[test]
fn deadline_priority_refused_by_other_policies() {
    let refused = Err(Error::Priority(
        "Deadline is non-POSIX and cannot be converted.",
    ));
    for policy in realtime_policies() {
        assert_eq!(deadline_priority().to_posix(policy), refused);
    }
    for policy in normal_policies() {
        assert_eq!(deadline_priority().to_posix(policy), refused);
    }
}

#[test]
fn deadline_priority_under_deadline_policy_is_zero() {
    assert_eq!(deadline_priority().to_posix(DEADLINE), Ok(0));
    assert_eq!(
        ThreadPriority::Deadline(1, 2, 3, Some(DeadlineFlags::Reclaim)).to_posix(DEADLINE),
        Ok(0)
    );
}

#[test]
fn policy_numbers_are_fixed() {
    assert_eq!(NormalThreadSchedulePolicy::Other.to_posix(), 0);
    assert_eq!(NormalThreadSchedulePolicy::Normal.to_posix(), 0);
    assert_eq!(RealtimeThreadSchedulePolicy::Fifo.to_posix(), 1);
    assert_eq!(RealtimeThreadSchedulePolicy::RoundRobin.to_posix(), 2);
    assert_eq!(NormalThreadSchedulePolicy::Batch.to_posix(), 3);
    assert_eq!(NormalThreadSchedulePolicy::Idle.to_posix(), 5);
    assert_eq!(RealtimeThreadSchedulePolicy::Deadline.to_posix(), 6);
    assert_eq!(
        ThreadSchedulePolicy::Normal(NormalThreadSchedulePolicy::Idle).to_posix(),
        5
    );
    assert_eq!(DEADLINE.to_posix(), 6);
}

#[test]
fn policy_round_trip() {
    let mut all = realtime_policies();
    all.push(DEADLINE);
    all.push(ThreadSchedulePolicy::Normal(NormalThreadSchedulePolicy::Idle));
    all.push(ThreadSchedulePolicy::Normal(NormalThreadSchedulePolicy::Batch));
    all.push(ThreadSchedulePolicy::Normal(NormalThreadSchedulePolicy::Normal));
    for policy in all {
        assert_eq!(ThreadSchedulePolicy::from_posix(policy.to_posix()), Ok(policy));
    }
}

#[test]
fn other_comes_back_as_normal() {
    let other = ThreadSchedulePolicy::Normal(NormalThreadSchedulePolicy::Other);
    assert_eq!(
        ThreadSchedulePolicy::from_posix(other.to_posix()),
        Ok(ThreadSchedulePolicy::Normal(NormalThreadSchedulePolicy::Normal))
    );
}

#[test]
fn number_round_trip() {
    for code in -10i32..=20 {
        match ThreadSchedulePolicy::from_posix(code) {
            Ok(policy) => {
                assert!([0, 1, 2, 3, 5, 6].contains(&code));
                assert_eq!(policy.to_posix(), code);
            }
            Err(e) => {
                assert!(![0, 1, 2, 3, 5, 6].contains(&code));
                assert_eq!(e, Error::Ffi("Can't parse schedule policy from posix"));
            }
        }
    }
}

#[test]
fn unknown_policy_numbers() {
    let unknown = Err(Error::Ffi("Can't parse schedule policy from posix"));
    assert_eq!(ThreadSchedulePolicy::from_posix(4), unknown);
    assert_eq!(ThreadSchedulePolicy::from_posix(7), unknown);
    assert_eq!(ThreadSchedulePolicy::from_posix(-1), unknown);
    assert_eq!(ThreadSchedulePolicy::from_posix(i32::MAX), unknown);
    assert_eq!(ThreadSchedulePolicy::from_posix(i32::MIN), unknown);
}

#[test]
fn uses_deadline_only_for_deadline() {
    assert!(DEADLINE.uses_deadline());
    for policy in realtime_policies() {
        assert!(!policy.uses_deadline());
    }
    for policy in normal_policies() {
        assert!(!policy.uses_deadline());
    }
}

#[test]
fn from_posix_gives_portable_value() {
    for p in [0, 1, 50, 99, 100, 255] {
        assert_eq!(
            ThreadPriority::from_posix(ScheduleParams { sched_priority: p }),
            ThreadPriority::Crossplatform(ThreadPriorityValue(p as u8))
        );
    }
}

#[test]
fn from_posix_keeps_low_byte() {
    assert_eq!(
        ThreadPriority::from_posix(ScheduleParams { sched_priority: 300 }),
        ThreadPriority::Crossplatform(ThreadPriorityValue(44))
    );
    assert_eq!(
        ThreadPriority::from_posix(ScheduleParams { sched_priority: 256 }),
        ThreadPriority::Crossplatform(ThreadPriorityValue(0))
    );
    assert_eq!(
        ThreadPriority::from_posix(ScheduleParams { sched_priority: -1 }),
        ThreadPriority::Crossplatform(ThreadPriorityValue(255))
    );
}

#[test]
fn deadline_flag_bits() {
    assert_eq!(DeadlineFlags::ResetOnFork.bits(), 1);
    assert_eq!(DeadlineFlags::Reclaim.bits(), 2);
    assert_eq!(DeadlineFlags::DeadlineOverrun.bits(), 4);
}
