//! Portable model of thread scheduling policies and priorities, with the
//! translation to and from the numbers that a POSIX scheduler understands.
//!
//! The library decides and validates; it never talks to the operating
//! system. A write is planned here as a [`SchedCall`] that the caller
//! performs, and what the operating system answered is decoded here.

pub mod error;
pub mod facade;
pub mod gateway;
pub mod laws;
pub mod params;
pub mod policy;
pub mod priority;

pub use error::Error;
pub use facade::{set_current_thread_priority, set_thread_priority_and_policy, thread_priority};
pub use gateway::{
    check_status, set_thread_schedule_policy, thread_schedule_policy,
    thread_schedule_policy_param, SchedCall, SchedParamReply,
};
pub use params::{SchedAttr, ScheduleParams, ThreadId, SCHED_ATTR_SIZE};
pub use policy::{NormalThreadSchedulePolicy, RealtimeThreadSchedulePolicy, ThreadSchedulePolicy};
pub use priority::{DeadlineFlags, ThreadPriority, ThreadPriorityOsValue, ThreadPriorityValue};
