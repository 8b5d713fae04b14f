//! Types shared between the kernel and user tasks: priorities, scheduling
//! states, fault records and error codes.

use vstd::prelude::*;

use crate::task::{NextTask, TaskID};

verus! {

/// Response code handed to a task that addressed a peer through a stale
/// generation.
pub const DEAD: u32 = 0xFFFF_FFFF;

/// Scheduling priority of a task. A numerically lower value is more
/// important.
#[derive(Clone, Copy, Debug, PartialEq, Eq, Structural)]
pub struct Priority(pub u8);

impl Priority {
    /// The order the scheduler uses: strictly more important than `other`.
    pub open spec fn more_important(self, other: Priority) -> bool {
        self.0 < other.0
    }

    pub fn is_more_important_than(self, other: Self) -> (r: bool)
        ensures
            r == self.more_important(other),
    {
        self.0 < other.0
    }
}

/// Kernel time, in ticks since boot.
#[derive(Clone, Copy, Debug, PartialEq, Eq, Structural)]
pub struct Timestamp(pub u64);

/// Scheduling state of a healthy task.
#[derive(Clone, Copy, Debug, PartialEq, Eq, Structural)]
pub enum SchedState {
    /// Not started, or stopped by the supervisor.
    Stopped,
    /// Ready to run whenever it is the best choice.
    Runnable,
    /// Blocked sending to the given task.
    InSend(TaskID),
    /// Blocked awaiting a reply from the given task.
    InReply(TaskID),
    /// Blocked in receive; `None` is an open receive, willing to take a
    /// message from any sender, the kernel included.
    InRecv(Option<TaskID>),
}

/// Where a memory fault was detected.
#[derive(Clone, Copy, Debug, PartialEq, Eq, Structural)]
pub enum FaultSource {
    User,
    Kernel,
}

/// Ways a task can misuse a system call.
#[derive(Clone, Copy, Debug, PartialEq, Eq, Structural)]
pub enum UsageError {
    BadSyscallNumber,
    InvalidSlice,
    TaskOutOfRange,
    IllegalTask,
    LeaseOutOfRange,
    OffsetOutOfRange,
    NoIrq,
    BadKernelMessage,
}

/// Why a task was faulted.
#[allow(inconsistent_fields)]
#[derive(Clone, Copy, Debug, PartialEq, Eq, Structural)]
pub enum FaultInfo {
    MemoryAccess { address: Option<u32>, source: FaultSource },
    StackOverflow { address: u32 },
    BusError { address: Option<u32>, source: FaultSource },
    DivideByZero,
    IllegalText,
    IllegalInstruction,
    InvalidOperation(u32),
    SyscallUsage(UsageError),
    Panic,
    Injected(TaskID),
}

/// Lifecycle state of a task.
#[derive(Clone, Copy, Debug, PartialEq, Eq, Structural)]
pub enum TaskState {
    Healthy(SchedState),
    /// Faulted; `original_state` is the state the task was in when it first
    /// faulted, kept across further faults.
    Faulted { fault: FaultInfo, original_state: SchedState },
}

/// Failure of a kernel operation on behalf of a task.
#[derive(Clone, Debug, PartialEq, Eq, Structural)]
pub enum UserError {
    /// Reported to the task as a response code; the task keeps running.
    Recoverable(u32, NextTask),
    /// The task is to be faulted.
    Unrecoverable(FaultInfo),
}

impl From<FaultInfo> for UserError {
    fn from(f: FaultInfo) -> (r: UserError)
        ensures
            r == UserError::Unrecoverable(f),
    {
        UserError::Unrecoverable(f)
    }
}

impl vstd::std_specs::convert::FromSpecImpl<FaultInfo> for UserError {
    open spec fn obeys_from_spec() -> bool {
        true
    }

    open spec fn from_spec(f: FaultInfo) -> UserError {
        UserError::Unrecoverable(f)
    }
}

} // verus!
