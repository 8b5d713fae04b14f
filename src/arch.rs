//! Access to a task's saved machine registers, and typed views that decode
//! each system call's argument registers.

use vstd::prelude::*;

use crate::abi::{Timestamp, UsageError};
use crate::region::TaskDesc;
use crate::task::{NotificationSet, TaskID};
use crate::umem::{ULease, USlice};

verus! {

/// Number of argument registers of a system call.
pub const ARG_COUNT: usize = 7;

/// Number of return registers of a system call.
pub const RET_COUNT: usize = 6;

/// Architecture-independent access to a task's saved machine state.
///
/// An architecture provides the register accessors; the argument views and
/// the response setters are built on them.
pub trait ArchState: Sized {
    /// Contents of the argument registers `arg0 ..= arg6`.
    spec fn arg_regs(&self) -> Seq<u32>;

    /// Contents of the return registers `ret0 ..= ret5`.
    spec fn ret_regs(&self) -> Seq<u32>;

    spec fn spec_syscall_descriptor(&self) -> u32;

    spec fn spec_stack_pointer(&self) -> u32;

    /// Where the task resumes.
    spec fn spec_program_counter(&self) -> u32;

    /// The state is the one a task starts from under `desc`.
    spec fn at_entry(&self, desc: &TaskDesc) -> bool;

    proof fn lemma_register_counts(&self)
        ensures
            self.arg_regs().len() == ARG_COUNT,
            self.ret_regs().len() == RET_COUNT,
    ;

    fn stack_pointer(&self) -> (r: u32)
        ensures
            r == self.spec_stack_pointer(),
    ;

    fn arg0(&self) -> (r: u32)
        ensures
            r == self.arg_regs()[0],
    ;

    fn arg1(&self) -> (r: u32)
        ensures
            r == self.arg_regs()[1],
    ;

    fn arg2(&self) -> (r: u32)
        ensures
            r == self.arg_regs()[2],
    ;

    fn arg3(&self) -> (r: u32)
        ensures
            r == self.arg_regs()[3],
    ;

    fn arg4(&self) -> (r: u32)
        ensures
            r == self.arg_regs()[4],
    ;

    fn arg5(&self) -> (r: u32)
        ensures
            r == self.arg_regs()[5],
    ;

    fn arg6(&self) -> (r: u32)
        ensures
            r == self.arg_regs()[6],
    ;

    fn syscall_descriptor(&self) -> (r: u32)
        ensures
            r == self.spec_syscall_descriptor(),
    ;

    fn ret0(&mut self, v: u32)
        ensures
            final(self).arg_regs() == old(self).arg_regs(),
            final(self).spec_syscall_descriptor() == old(self).spec_syscall_descriptor(),
            final(self).spec_stack_pointer() == old(self).spec_stack_pointer(),
            final(self).spec_program_counter() == old(self).spec_program_counter(),
            final(self).ret_regs() == old(self).ret_regs().update(0, v),
    ;

    fn ret1(&mut self, v: u32)
        ensures
            final(self).arg_regs() == old(self).arg_regs(),
            final(self).spec_syscall_descriptor() == old(self).spec_syscall_descriptor(),
            final(self).spec_stack_pointer() == old(self).spec_stack_pointer(),
            final(self).spec_program_counter() == old(self).spec_program_counter(),
            final(self).ret_regs() == old(self).ret_regs().update(1, v),
    ;

    fn ret2(&mut self, v: u32)
        ensures
            final(self).arg_regs() == old(self).arg_regs(),
            final(self).spec_syscall_descriptor() == old(self).spec_syscall_descriptor(),
            final(self).spec_stack_pointer() == old(self).spec_stack_pointer(),
            final(self).spec_program_counter() == old(self).spec_program_counter(),
            final(self).ret_regs() == old(self).ret_regs().update(2, v),
    ;

    fn ret3(&mut self, v: u32)
        ensures
            final(self).arg_regs() == old(self).arg_regs(),
            final(self).spec_syscall_descriptor() == old(self).spec_syscall_descriptor(),
            final(self).spec_stack_pointer() == old(self).spec_stack_pointer(),
            final(self).spec_program_counter() == old(self).spec_program_counter(),
            final(self).ret_regs() == old(self).ret_regs().update(3, v),
    ;

    fn ret4(&mut self, v: u32)
        ensures
            final(self).arg_regs() == old(self).arg_regs(),
            final(self).spec_syscall_descriptor() == old(self).spec_syscall_descriptor(),
            final(self).spec_stack_pointer() == old(self).spec_stack_pointer(),
            final(self).spec_program_counter() == old(self).spec_program_counter(),
            final(self).ret_regs() == old(self).ret_regs().update(4, v),
    ;

    fn ret5(&mut self, v: u32)
        ensures
            final(self).arg_regs() == old(self).arg_regs(),
            final(self).spec_syscall_descriptor() == old(self).spec_syscall_descriptor(),
            final(self).spec_stack_pointer() == old(self).spec_stack_pointer(),
            final(self).spec_program_counter() == old(self).spec_program_counter(),
            final(self).ret_regs() == old(self).ret_regs().update(5, v),
    ;

    /// Resets the state to the entry conditions of the task `desc` describes.
    fn reinitialize(&mut self, desc: &TaskDesc)
        ensures
            final(self).at_entry(desc),
    ;

    /// View naming the SEND arguments.
    fn as_send_args(&self) -> (r: AsSendArgs<&Self>)
        ensures
            r.0 == self,
    {
        AsSendArgs(self)
    }

    /// View naming the RECV arguments.
    fn as_recv_args(&self) -> (r: AsRecvArgs<&Self>)
        ensures
            r.0 == self,
    {
        AsRecvArgs(self)
    }

    /// View naming the REPLY arguments.
    fn as_reply_args(&self) -> (r: AsReplyArgs<&Self>)
        ensures
            r.0 == self,
    {
        AsReplyArgs(self)
    }

    /// View naming the TIMER arguments.
    fn as_timer_args(&self) -> (r: AsTimerArgs<&Self>)
        ensures
            r.0 == self,
    {
        AsTimerArgs(self)
    }

    /// View naming the BORROW_* arguments.
    fn as_borrow_args(&self) -> (r: AsBorrowArgs<&Self>)
        ensures
            r.0 == self,
    {
        AsBorrowArgs(self)
    }

    /// View naming the IRQ_CONTROL arguments.
    fn as_irq_args(&self) -> (r: AsIrqArgs<&Self>)
        ensures
            r.0 == self,
    {
        AsIrqArgs(self)
    }

    /// View naming the PANIC arguments.
    fn as_panic_args(&self) -> (r: AsPanicArgs<&Self>)
        ensures
            r.0 == self,
    {
        AsPanicArgs(self)
    }

    /// Reports a recoverable error code.
    fn set_error_response(&mut self, resp: u32)
        ensures
            final(self).arg_regs() == old(self).arg_regs(),
            final(self).spec_syscall_descriptor() == old(self).spec_syscall_descriptor(),
            final(self).spec_stack_pointer() == old(self).spec_stack_pointer(),
            final(self).spec_program_counter() == old(self).spec_program_counter(),
            final(self).ret_regs() == old(self).ret_regs().update(0, resp).update(1, 0),
    {
        self.ret0(resp);
        self.ret1(0);
    }

    /// Reports the response code and length of a SEND.
    fn set_send_response_and_length(&mut self, resp: u32, len: usize)
        ensures
            final(self).arg_regs() == old(self).arg_regs(),
            final(self).spec_syscall_descriptor() == old(self).spec_syscall_descriptor(),
            final(self).spec_stack_pointer() == old(self).spec_stack_pointer(),
            final(self).spec_program_counter() == old(self).spec_program_counter(),
            final(self).ret_regs() == old(self).ret_regs().update(0, resp).update(1, len as u32),
    {
        self.ret0(resp);
        self.ret1(len as u32);
    }

    /// Reports the results of a RECV. `ret0` is reserved and set to zero.
    fn set_recv_result(
        &mut self,
        sender: TaskID,
        operation: u32,
        length: usize,
        response_capacity: usize,
        lease_count: usize,
    )
        ensures
            final(self).arg_regs() == old(self).arg_regs(),
            final(self).spec_syscall_descriptor() == old(self).spec_syscall_descriptor(),
            final(self).spec_stack_pointer() == old(self).spec_stack_pointer(),
            final(self).spec_program_counter() == old(self).spec_program_counter(),
            final(self).ret_regs() == old(self).ret_regs().update(0, 0).update(1, sender.0 as u32).update(2, operation).update(3, length as u32).update(4, response_capacity as u32).update(5, lease_count as u32),
    {
        self.ret0(0);
        self.ret1(sender.0 as u32);
        self.ret2(operation);
        self.ret3(length as u32);
        self.ret4(response_capacity as u32);
        self.ret5(lease_count as u32);
    }

    /// Reports the response code and length of a BORROW_*.
    fn set_borrow_response_and_length(&mut self, resp: u32, len: usize)
        ensures
            final(self).arg_regs() == old(self).arg_regs(),
            final(self).spec_syscall_descriptor() == old(self).spec_syscall_descriptor(),
            final(self).spec_stack_pointer() == old(self).spec_stack_pointer(),
            final(self).spec_program_counter() == old(self).spec_program_counter(),
            final(self).ret_regs() == old(self).ret_regs().update(0, resp).update(1, len as u32),
    {
        self.ret0(resp);
        self.ret1(len as u32);
    }

    /// Reports the attributes and length of a lease, for BORROW_INFO.
    fn set_borrow_info(&mut self, atts: u32, len: usize)
        ensures
            final(self).arg_regs() == old(self).arg_regs(),
            final(self).spec_syscall_descriptor() == old(self).spec_syscall_descriptor(),
            final(self).spec_stack_pointer() == old(self).spec_stack_pointer(),
            final(self).spec_program_counter() == old(self).spec_program_counter(),
            final(self).ret_regs() == old(self).ret_regs().update(0, 0).update(1, atts).update(2, len as u32),
    {
        self.ret0(0);
        self.ret1(atts);
        self.ret2(len as u32);
    }
}

/// Saved registers of a task, as the context switch leaves them.
#[derive(Clone, Copy, Debug, PartialEq, Eq)]
pub struct SavedState {
    pub args: [u32; ARG_COUNT],
    pub rets: [u32; RET_COUNT],
    pub descriptor: u32,
    pub stack_pointer: u32,
    pub program_counter: u32,
}

impl SavedState {
    /// A state with every register zero.
    pub fn zeroed() -> (r: SavedState)
        ensures
            forall|i: int| 0 <= i < ARG_COUNT ==> r.args@[i] == 0,
            forall|i: int| 0 <= i < RET_COUNT ==> r.rets@[i] == 0,
            r.descriptor == 0,
            r.stack_pointer == 0,
            r.program_counter == 0,
    {
        SavedState {
            args: [0; ARG_COUNT],
            rets: [0; RET_COUNT],
            descriptor: 0,
            stack_pointer: 0,
            program_counter: 0,
        }
    }
}

impl ArchState for SavedState {
    open spec fn arg_regs(&self) -> Seq<u32> {
        self.args@
    }

    open spec fn ret_regs(&self) -> Seq<u32> {
        self.rets@
    }

    open spec fn spec_syscall_descriptor(&self) -> u32 {
        self.descriptor
    }

    open spec fn spec_stack_pointer(&self) -> u32 {
        self.stack_pointer
    }

    open spec fn spec_program_counter(&self) -> u32 {
        self.program_counter
    }

    /// Registers cleared, the stack pointer at the initial stack and the
    /// program counter at the entry point.
    open spec fn at_entry(&self, desc: &TaskDesc) -> bool {
        &&& forall|i: int| 0 <= i < ARG_COUNT ==> self.args@[i] == 0
        &&& forall|i: int| 0 <= i < RET_COUNT ==> self.rets@[i] == 0
        &&& self.descriptor == 0
        &&& self.stack_pointer == desc.initial_stack
        &&& self.program_counter == desc.entry_point
    }

    proof fn lemma_register_counts(&self) {
    }

    fn stack_pointer(&self) -> (r: u32) {
        self.stack_pointer
    }

    fn arg0(&self) -> (r: u32) {
        self.args[0]
    }

    fn arg1(&self) -> (r: u32) {
        self.args[1]
    }

    fn arg2(&self) -> (r: u32) {
        self.args[2]
    }

    fn arg3(&self) -> (r: u32) {
        self.args[3]
    }

    fn arg4(&self) -> (r: u32) {
        self.args[4]
    }

    fn arg5(&self) -> (r: u32) {
        self.args[5]
    }

    fn arg6(&self) -> (r: u32) {
        self.args[6]
    }

    fn syscall_descriptor(&self) -> (r: u32) {
        self.descriptor
    }

    fn ret0(&mut self, v: u32) {
        self.rets[0] = v;
    }

    fn ret1(&mut self, v: u32) {
        self.rets[1] = v;
    }

    fn ret2(&mut self, v: u32) {
        self.rets[2] = v;
    }

    fn ret3(&mut self, v: u32) {
        self.rets[3] = v;
    }

    fn ret4(&mut self, v: u32) {
        self.rets[4] = v;
    }

    fn ret5(&mut self, v: u32) {
        self.rets[5] = v;
    }

    fn reinitialize(&mut self, desc: &TaskDesc) {
        *self = SavedState::zeroed();
        self.stack_pointer = desc.initial_stack;
        self.program_counter = desc.entry_point;
    }
}

/// View of the SEND argument registers.
pub struct AsSendArgs<T>(pub T);

impl<'a, T: ArchState> AsSendArgs<&'a T> {
    /// The task the caller sends to: the high half of `arg0`.
    pub fn callee(&self) -> (r: TaskID)
        ensures
            r.0 == self.0.arg_regs()[0] / 0x1_0000,
    {
        let a = self.0.arg0();
        assert(a >> 16u32 == a / 0x1_0000) by (bit_vector);
        TaskID((a >> 16u32) as u16)
    }

    /// The operation code: the low half of `arg0`.
    pub fn operation(&self) -> (r: u16)
        ensures
            r == self.0.arg_regs()[0] % 0x1_0000,
    {
        let a = self.0.arg0();
        assert(a as u16 == a % 0x1_0000) by (bit_vector);
        a as u16
    }

    /// The message: `(arg1, arg2)` as base and length.
    pub fn message(&self) -> (r: Result<USlice<u8>, UsageError>)
        ensures
            USlice::<u8>::from_raw_outcome(r, self.0.arg_regs()[1] as int, self.0.arg_regs()[2] as int),
    {
        USlice::from_raw(self.0.arg1() as usize, self.0.arg2() as usize)
    }

    /// The response buffer: `(arg3, arg4)` as base and length.
    pub fn response_buffer(&self) -> (r: Result<USlice<u8>, UsageError>)
        ensures
            USlice::<u8>::from_raw_outcome(r, self.0.arg_regs()[3] as int, self.0.arg_regs()[4] as int),
    {
        USlice::from_raw(self.0.arg3() as usize, self.0.arg4() as usize)
    }

    /// The lease table: `(arg5, arg6)` as base and length in bytes, which
    /// must hold whole lease records.
    pub fn lease_table(&self) -> (r: Result<USlice<ULease>, UsageError>)
        ensures
            USlice::<ULease>::from_raw_outcome(r, self.0.arg_regs()[5] as int, self.0.arg_regs()[6] as int),
    {
        USlice::from_raw(self.0.arg5() as usize, self.0.arg6() as usize)
    }
}

/// View of the RECV argument registers.
pub struct AsRecvArgs<T>(pub T);

impl<'a, T: ArchState> AsRecvArgs<&'a T> {
    /// The receive buffer: `(arg0, arg1)` as base and length.
    pub fn buffer(&self) -> (r: Result<USlice<u8>, UsageError>)
        ensures
            USlice::<u8>::from_raw_outcome(r, self.0.arg_regs()[0] as int, self.0.arg_regs()[1] as int),
    {
        USlice::from_raw(self.0.arg0() as usize, self.0.arg1() as usize)
    }

    /// The notification mask: `arg2`.
    pub fn notification_mask(&self) -> (r: u32)
        ensures
            r == self.0.arg_regs()[2],
    {
        self.0.arg2()
    }
}

/// View of the REPLY argument registers.
pub struct AsReplyArgs<T>(pub T);

impl<'a, T: ArchState> AsReplyArgs<&'a T> {
    /// The task replied to: the low half of `arg0`.
    pub fn callee(&self) -> (r: TaskID)
        ensures
            r.0 == self.0.arg_regs()[0] % 0x1_0000,
    {
        let a = self.0.arg0();
        assert(a as u16 == a % 0x1_0000) by (bit_vector);
        TaskID(a as u16)
    }

    /// The response code: `arg1`.
    pub fn response_code(&self) -> (r: u32)
        ensures
            r == self.0.arg_regs()[1],
    {
        self.0.arg1()
    }

    /// The reply message: `(arg2, arg3)` as base and length.
    pub fn message(&self) -> (r: Result<USlice<u8>, UsageError>)
        ensures
            USlice::<u8>::from_raw_outcome(r, self.0.arg_regs()[2] as int, self.0.arg_regs()[3] as int),
    {
        USlice::from_raw(self.0.arg2() as usize, self.0.arg3() as usize)
    }
}

/// View of the TIMER argument registers.
pub struct AsTimerArgs<T>(pub T);

impl<'a, T: ArchState> AsTimerArgs<&'a T> {
    /// The deadline: none when `arg0` is zero, else `arg2:arg1` as a 64-bit
    /// time.
    pub fn deadline(&self) -> (r: Option<Timestamp>)
        ensures
            r == (if self.0.arg_regs()[0] != 0 {
                Some(Timestamp((self.0.arg_regs()[2] as int * 0x1_0000_0000 + self.0.arg_regs()[1] as int) as u64))
            } else {
                None
            }),
    {
        if self.0.arg0() != 0 {
            let lo = self.0.arg1();
            let hi = self.0.arg2();
            let t: u64 = (hi as u64) << 32u64 | (lo as u64);
            assert(t == (hi as int * 0x1_0000_0000 + lo as int) as u64) by (bit_vector)
                requires
                    t == (hi as u64) << 32u64 | (lo as u64),
            ;
            Some(Timestamp(t))
        } else {
            None
        }
    }

    /// The notifications to post when the timer fires: `arg3`.
    pub fn notification(&self) -> (r: NotificationSet)
        ensures
            r.0 == self.0.arg_regs()[3],
    {
        NotificationSet(self.0.arg3())
    }
}

/// View of the BORROW_* argument registers.
pub struct AsBorrowArgs<T>(pub T);

impl<'a, T: ArchState> AsBorrowArgs<&'a T> {
    /// The lender: the low half of `arg0`.
    pub fn lender(&self) -> (r: TaskID)
        ensures
            r.0 == self.0.arg_regs()[0] % 0x1_0000,
    {
        let a = self.0.arg0();
        assert(a as u16 == a % 0x1_0000) by (bit_vector);
        TaskID(a as u16)
    }

    /// The lease index: `arg1`.
    pub fn lease_number(&self) -> (r: usize)
        ensures
            r == self.0.arg_regs()[1],
    {
        self.0.arg1() as usize
    }

    /// The offset into the borrowed area: `arg2`.
    pub fn offset(&self) -> (r: usize)
        ensures
            r == self.0.arg_regs()[2],
    {
        self.0.arg2() as usize
    }

    /// The caller's buffer: `(arg3, arg4)` as base and length.
    pub fn buffer(&self) -> (r: Result<USlice<u8>, UsageError>)
        ensures
            USlice::<u8>::from_raw_outcome(r, self.0.arg_regs()[3] as int, self.0.arg_regs()[4] as int),
    {
        USlice::from_raw(self.0.arg3() as usize, self.0.arg4() as usize)
    }
}

/// View of the IRQ_CONTROL argument registers.
pub struct AsIrqArgs<T>(pub T);

impl<'a, T: ArchState> AsIrqArgs<&'a T> {
    /// The notification bits of the interrupt: `arg0`.
    pub fn notification_bitmask(&self) -> (r: u32)
        ensures
            r == self.0.arg_regs()[0],
    {
        self.0.arg0()
    }

    /// The control word (0 disables, 1 enables): `arg1`.
    pub fn control(&self) -> (r: u32)
        ensures
            r == self.0.arg_regs()[1],
    {
        self.0.arg1()
    }
}

/// View of the PANIC argument registers.
pub struct AsPanicArgs<T>(pub T);

impl<'a, T: ArchState> AsPanicArgs<&'a T> {
    /// The panic message: `(arg0, arg1)` as base and length.
    pub fn message(&self) -> (r: Result<USlice<u8>, UsageError>)
        ensures
            USlice::<u8>::from_raw_outcome(r, self.0.arg_regs()[0] as int, self.0.arg_regs()[1] as int),
    {
        USlice::from_raw(self.0.arg0() as usize, self.0.arg1() as usize)
    }
}

} // verus!
