//! Task identifiers, scheduling hints and the task record.

use vstd::prelude::*;

use crate::abi::{FaultInfo, Priority, SchedState, TaskState, Timestamp, UsageError, UserError, DEAD};
use crate::arch::{ArchState, SavedState};
use crate::region::{RegionDesc, TaskDesc, DEVICE, READ, WRITE};
use crate::umem::USlice;

verus! {

/// Number of index bits in a `TaskID`; the remaining high bits hold the
/// generation.
pub const IDX_BITS: u32 = 10;

/// Mask selecting the index part of a `TaskID`.
pub const IDX_MASK: u16 = 0x3FF;

/// Number of distinct generations (the generation field is 6 bits wide).
pub const GENERATION_COUNT: u8 = 64;

/// Generation number of a task's current incarnation.
#[derive(Clone, Copy, Debug, PartialEq, Eq, Structural, Default)]
pub struct Generation(pub u8);

impl Generation {
    /// A generation that fits in the 6-bit field of a `TaskID`.
    pub open spec fn is_valid(self) -> bool {
        self.0 < GENERATION_COUNT
    }

    /// The following generation, wrapping within 6 bits.
    pub open spec fn spec_next(self) -> Generation {
        Generation(((self.0 as int + 1) % (GENERATION_COUNT as int)) as u8)
    }

    pub fn next(self) -> (r: Self)
        ensures
            r == self.spec_next(),
            r.is_valid(),
    {
        let b: u8 = self.0;
        let w: u8 = b.wrapping_add(1);
        let v: u8 = w & 0x3F;
        assert(v == ((b as int + 1) % 64) as u8) by (bit_vector)
            requires
                b < 255 ==> w == b + 1,
                b == 255 ==> w == 0,
                v == w & 0x3F,
        ;
        Generation(v)
    }
}

/// `g` advanced by `n` calls of `next`.
pub open spec fn advance(g: Generation, n: nat) -> Generation
    decreases n,
{
    if n == 0 {
        g
    } else {
        advance(g, (n - 1) as nat).spec_next()
    }
}

proof fn lemma_advance_value(g: Generation, n: nat)
    requires
        g.is_valid(),
    ensures
        advance(g, n).0 == (g.0 + n) % (GENERATION_COUNT as int),
    decreases n,
{
    if n > 0 {
        lemma_advance_value(g, (n - 1) as nat);
        let m = (n - 1) as nat;
        assert(((g.0 + m) % 64 + 1) % 64 == (g.0 + m + 1) % 64) by {
            vstd::arithmetic::div_mod::lemma_add_mod_noop(g.0 + m, 1, 64);
        }
    }
}

/// A generation returns to itself after as many increments as there are
/// generations: the counter wraps in 6 bits.
pub proof fn lemma_generation_wraps(g: Generation)
    requires
        g.is_valid(),
    ensures
        advance(g, GENERATION_COUNT as nat) == g,
{
    lemma_advance_value(g, GENERATION_COUNT as nat);
}

/// Name of a task at the system-call boundary: `generation:6 | index:10`.
#[derive(Clone, Copy, Debug, PartialEq, Eq, Structural)]
pub struct TaskID(pub u16);

/// Raw value of the sentinel ID naming the kernel itself; its index part is
/// never a valid table slot.
pub const KERNEL_ID: u16 = 0xFFFF;

impl TaskID {
    /// The sentinel ID naming the kernel.
    pub fn kernel() -> (r: Self)
        ensures
            r.0 == KERNEL_ID,
    {
        TaskID(KERNEL_ID)
    }

    /// The ID that packs `index` and `gen`, each truncated to its field.
    pub open spec fn packed(index: usize, gen: Generation) -> TaskID {
        TaskID(((gen.0 as int % 64) * 1024 + index as int % 1024) as u16)
    }

    pub open spec fn spec_index(self) -> int {
        self.0 as int % 1024
    }

    pub open spec fn spec_generation(self) -> Generation {
        Generation((self.0 as int / 1024) as u8)
    }

    /// Fabricates a `TaskID` for the given index and generation.
    pub fn from_index_and_gen(index: usize, gen: Generation) -> (r: Self)
        ensures
            r == TaskID::packed(index, gen),
    {
        let i: u16 = index as u16;
        let g: u16 = gen.0 as u16;
        let v: u16 = g << IDX_BITS | (i & IDX_MASK);
        assert(v == ((g as int % 64) * 1024 + i as int % 1024) as u16) by (bit_vector)
            requires
                v == g << 10u32 | (i & 0x3FF),
        ;
        assert(i as int % 1024 == index as int % 1024) by (bit_vector)
            requires
                i == index as u16,
        ;
        TaskID(v)
    }

    /// Extracts the index part of this ID.
    pub fn index(&self) -> (r: usize)
        ensures
            r == self.spec_index(),
    {
        let raw: u16 = self.0;
        let v: u16 = raw & IDX_MASK;
        assert(v == raw % 1024) by (bit_vector)
            requires
                v == raw & 0x3FF,
        ;
        v as usize
    }

    /// Extracts the generation part of this ID.
    pub fn generation(&self) -> (r: Generation)
        ensures
            r == self.spec_generation(),
            r.is_valid(),
    {
        let raw: u16 = self.0;
        let v: u16 = raw >> IDX_BITS;
        assert(v == raw / 1024 && v < 64) by (bit_vector)
            requires
                v == raw >> 10u32,
        ;
        Generation(v as u8)
    }
}

/// Packing an index and a generation that fit their fields, then taking the
/// ID apart, gives them back.
pub proof fn lemma_task_id_round_trip(index: usize, gen: Generation)
    requires
        index < 1024,
        gen.is_valid(),
    ensures
        TaskID::packed(index, gen).spec_index() == index,
        TaskID::packed(index, gen).spec_generation() == gen,
{
    let v = gen.0 as int * 1024 + index as int;
    assert(v % 1024 == index as int) by (nonlinear_arith)
        requires
            v == gen.0 as int * 1024 + index as int,
            0 <= index < 1024,
    ;
    assert(v / 1024 == gen.0 as int) by (nonlinear_arith)
        requires
            v == gen.0 as int * 1024 + index as int,
            0 <= index < 1024,
    ;
}

/// Set of notification bits posted to a task.
#[derive(Clone, Copy, Debug, PartialEq, Eq, Structural, Default)]
pub struct NotificationSet(pub u32);

/// Scheduling hint returned by operations that may call for a context switch.
#[derive(Clone, Copy, Debug, PartialEq, Eq, Structural)]
#[must_use]
pub enum NextTask {
    /// Keep running the current task.
    Same,
    /// Switch tasks; the scheduler must decide which.
    Other,
    /// Switch to the task at this index.
    Specific(usize),
}

impl NextTask {
    /// The composition of two hints: agreement is kept, a lone `Specific`
    /// wins, two different `Specific`s degrade to `Other`, and any `Other`
    /// beats `Same`.
    pub open spec fn combined(self, other: NextTask) -> NextTask {
        if self == other {
            self
        } else {
            match (self, other) {
                (NextTask::Specific(_), NextTask::Specific(_)) => NextTask::Other,
                (NextTask::Specific(x), _) => NextTask::Specific(x),
                (_, NextTask::Specific(y)) => NextTask::Specific(y),
                _ => NextTask::Other,
            }
        }
    }

    pub fn combine(self, other: Self) -> (r: Self)
        ensures
            r == self.combined(other),
    {
        match (self, other) {
            (x, y) if x == y => x,
            (NextTask::Specific(_), NextTask::Specific(_)) => NextTask::Other,
            (NextTask::Specific(x), _) | (_, NextTask::Specific(x)) => NextTask::Specific(x),
            (NextTask::Other, _) | (_, NextTask::Other) => NextTask::Other,
            (NextTask::Same, NextTask::Same) => NextTask::Same,
        }
    }
}

/// Combining hints does not depend on their order, and a hint combined with
/// itself is unchanged.
pub proof fn lemma_combine_commutative_idempotent(a: NextTask, b: NextTask)
    ensures
        a.combined(b) == b.combined(a),
        a.combined(a) == a,
{
}

/// State of a task's one-shot timer.
#[derive(Clone, Copy, Debug, PartialEq, Eq, Structural)]
pub struct TimerState {
    /// Kernel time at which the timer fires; `None` when disabled.
    pub deadline: Option<Timestamp>,
    /// Notification bits posted to the task when the timer fires.
    pub to_post: NotificationSet,
}

impl Default for TimerState {
    /// A disabled timer with nothing to post.
    fn default() -> (r: Self)
        ensures
            r.deadline.is_none(),
            r.to_post.0 == 0,
    {
        TimerState { deadline: None, to_post: NotificationSet(0) }
    }
}

/// The kernel's record of one task.
#[derive(Debug)]
pub struct Task {
    /// Saved machine state of the user program.
    pub save: SavedState,
    /// Current priority of the task.
    pub priority: Priority,
    /// State used to make status and scheduling decisions.
    pub state: TaskState,
    /// State of the task's timer.
    pub timer: TimerState,
    /// Generation of this incarnation, advanced at each restart so that
    /// peers notice they are talking to a new copy.
    pub generation: Generation,
    /// Static table of the task's memory regions.
    pub region_table: &'static [&'static RegionDesc],
    /// Pending notification bits.
    pub notifications: u32,
    /// Notification bits that fire when pending.
    pub notification_mask: u32,
    /// Descriptor the task is restarted from.
    pub descriptor: &'static TaskDesc,
}

impl Task {
    /// Some region of the task grants `bits` over `slice` (and is not
    /// device memory).
    pub open spec fn some_region_grants<T>(&self, slice: &USlice<T>, bits: u32) -> bool {
        exists|i: int|
            0 <= i < self.region_table@.len() && (#[trigger] self.region_table@[i]).grants(slice, bits)
    }

    /// The kernel may access `slice` on the task's behalf as normal memory
    /// carrying `bits`: it is empty, or some region grants it.
    pub open spec fn may_access<T>(&self, slice: &USlice<T>, bits: u32) -> bool {
        slice.spec_len() == 0 || self.some_region_grants(slice, bits)
    }

    fn region_scan<T>(&self, slice: &USlice<T>, bits: u32) -> (r: bool)
        ensures
            r == self.some_region_grants(slice, bits),
    {
        let mut i: usize = 0;
        while i < self.region_table.len()
            invariant
                i <= self.region_table@.len(),
                forall|j: int| 0 <= j < i ==> !(#[trigger] self.region_table@[j]).grants(slice, bits),
            decreases self.region_table@.len() - i,
        {
            let region: &RegionDesc = self.region_table[i];
            if region.covers(slice) && region.attributes.contains(bits) && !region.attributes.contains(
                DEVICE,
            ) {
                return true;
            }
            i = i + 1;
        }
        false
    }

    /// Tests whether the task has read access to `slice` as normal memory.
    pub fn can_read<T>(&self, slice: &USlice<T>) -> (r: bool)
        ensures
            r == self.may_access(slice, READ),
    {
        if slice.is_empty() {
            return true;
        }
        self.region_scan(slice, READ)
    }

    /// Tests whether the task has write access to `slice` as normal memory.
    pub fn can_write<T>(&self, slice: &USlice<T>) -> (r: bool)
        ensures
            r == self.may_access(slice, WRITE),
    {
        if slice.is_empty() {
            return true;
        }
        self.region_scan(slice, WRITE)
    }

    /// The task is in an open receive, waiting for any sender.
    pub open spec fn in_open_receive(&self) -> bool {
        self.state == TaskState::Healthy(SchedState::InRecv(None))
    }

    pub open spec fn spec_runnable(&self) -> bool {
        self.state == TaskState::Healthy(SchedState::Runnable)
    }

    /// Pending bits once `n` is posted.
    pub open spec fn pending_after(&self, n: NotificationSet) -> u32 {
        self.notifications | n.0
    }

    /// Bits firing once `n` is posted.
    pub open spec fn firing_after(&self, n: NotificationSet) -> u32 {
        self.pending_after(n) & self.notification_mask
    }

    /// Posting `n` wakes the task: something fires and it is in open receive.
    pub open spec fn wakes(&self, n: NotificationSet) -> bool {
        self.firing_after(n) != 0 && self.in_open_receive()
    }

    /// Everything but the state, the pending bits and the saved registers
    /// is the same in `other`.
    pub open spec fn same_settings(&self, other: &Task) -> bool {
        &&& other.priority == self.priority
        &&& other.timer == self.timer
        &&& other.generation == self.generation
        &&& other.region_table == self.region_table
        &&& other.notification_mask == self.notification_mask
        &&& other.descriptor == self.descriptor
    }

    /// `new` is the task after `n` is posted to it. A task that wakes gets
    /// a receive result from the kernel whose operation is the firing bits,
    /// becomes runnable, and has its masked bits acknowledged; any other task
    /// only accumulates the bits.
    pub open spec fn posted(&self, n: NotificationSet, new: &Task) -> bool {
        &&& self.same_settings(new)
        &&& if self.wakes(n) {
            &&& new.state == TaskState::Healthy(SchedState::Runnable)
            &&& new.notifications == self.pending_after(n) & !self.notification_mask
            &&& new.save.rets@ == seq![0u32, KERNEL_ID as u32, self.firing_after(n), 0, 0, 0]
            &&& new.save.args == self.save.args
            &&& new.save.descriptor == self.save.descriptor
            &&& new.save.stack_pointer == self.save.stack_pointer
            &&& new.save.program_counter == self.save.program_counter
        } else {
            &&& new.state == self.state
            &&& new.notifications == self.pending_after(n)
            &&& new.save == self.save
        }
    }

    /// Posts a set of notification bits (which might be empty) to the task.
    /// Returns `true` when the task was woken from an open receive, so that a
    /// context switch may be needed.
    #[must_use]
    pub fn post(&mut self, n: NotificationSet) -> (r: bool)
        ensures
            r == old(self).wakes(n),
            old(self).posted(n, final(self)),
    {
        let ghost before = *self;
        self.notifications = self.notifications | n.0;
        let firing = self.notifications & self.notification_mask;
        if firing != 0 {
            if self.state == TaskState::Healthy(SchedState::InRecv(None)) {
                self.save.set_recv_result(TaskID::kernel(), firing, 0, 0, 0);
                self.state = TaskState::Healthy(SchedState::Runnable);
                self.acknowledge_notifications();
                assert(self.save.rets@ =~= seq![0u32, KERNEL_ID as u32, firing, 0, 0, 0]);
                assert(self.save.args@ =~= before.save.args@);
                assert(self.save.args == before.save.args);
                assert(before.posted(n, self));
                return true;
            }
        }
        false
    }

    /// Sets the notification mask. Returns the bits that now fire, if any,
    /// without acknowledging them.
    #[must_use]
    pub fn update_mask(&mut self, m: u32) -> (r: Option<u32>)
        ensures
            final(self).notification_mask == m,
            final(self).notifications == old(self).notifications,
            final(self).state == old(self).state,
            final(self).save == old(self).save,
            final(self).priority == old(self).priority,
            final(self).timer == old(self).timer,
            final(self).generation == old(self).generation,
            final(self).region_table == old(self).region_table,
            final(self).descriptor == old(self).descriptor,
            r == (if old(self).notifications & m != 0 {
                Some(old(self).notifications & m)
            } else {
                None
            }),
    {
        self.notification_mask = m;
        let firing = self.notifications & self.notification_mask;
        if firing != 0 {
            Some(firing)
        } else {
            None
        }
    }

    /// Clears the pending bits that the mask covers, as delivered.
    pub fn acknowledge_notifications(&mut self)
        ensures
            final(self).notifications == old(self).notifications & !old(self).notification_mask,
            old(self).same_settings(final(self)),
            final(self).state == old(self).state,
            final(self).save == old(self).save,
    {
        self.notifications = self.notifications & !self.notification_mask;
    }

    /// Checks if the task is in a potentially schedulable state.
    pub fn is_runnable(&self) -> (r: bool)
        ensures
            r == self.spec_runnable(),
    {
        self.state == TaskState::Healthy(SchedState::Runnable)
    }

    /// Configures the timer: it fires at `deadline` (never, if `None`) and
    /// then posts `notifications`.
    pub fn set_timer(&mut self, deadline: Option<Timestamp>, notifications: NotificationSet)
        ensures
            final(self).timer == (TimerState { deadline, to_post: notifications }),
            final(self).state == old(self).state,
            final(self).save == old(self).save,
            final(self).notifications == old(self).notifications,
            final(self).notification_mask == old(self).notification_mask,
            final(self).priority == old(self).priority,
            final(self).generation == old(self).generation,
            final(self).region_table == old(self).region_table,
            final(self).descriptor == old(self).descriptor,
    {
        self.timer.deadline = deadline;
        self.timer.to_post = notifications;
    }

    /// Restarts the task: a new generation, timer and notifications cleared,
    /// runnable, and its registers reset to the entry conditions of its
    /// descriptor.
    pub fn reinitialize(&mut self)
        ensures
            final(self).generation == old(self).generation.spec_next(),
            final(self).timer.deadline.is_none(),
            final(self).timer.to_post.0 == 0,
            final(self).notifications == 0,
            final(self).notification_mask == 0,
            final(self).state == TaskState::Healthy(SchedState::Runnable),
            final(self).save.at_entry(old(self).descriptor),
            final(self).priority == old(self).priority,
            final(self).region_table == old(self).region_table,
            final(self).descriptor == old(self).descriptor,
    {
        self.generation = self.generation.next();
        self.timer = TimerState::default();
        self.notifications = 0;
        self.notification_mask = 0;
        self.state = TaskState::Healthy(SchedState::Runnable);
        let desc: &TaskDesc = self.descriptor;
        self.save.reinitialize(desc);
    }
}

/// The task with its timer disabled.
pub open spec fn with_timer_disabled(t: Task) -> Task {
    Task { timer: TimerState { deadline: None, ..t.timer }, ..t }
}

/// The task's timer has a deadline no later than `now`.
pub open spec fn timer_expired(t: Task, now: Timestamp) -> bool {
    match t.timer.deadline {
        Some(d) => d.0 <= now.0,
        None => false,
    }
}

/// Hint gathered from the expired timers among the first `k` tasks, in
/// table order: a woken task contributes `Specific(index)`, any other
/// expired one `Same`.
pub open spec fn timers_hint(tasks: Seq<Task>, now: Timestamp, k: int) -> NextTask
    decreases k,
{
    if k <= 0 {
        NextTask::Same
    } else {
        let prev = timers_hint(tasks, now, k - 1);
        let t = tasks[k - 1];
        if timer_expired(t, now) {
            prev.combined(
                if t.wakes(t.timer.to_post) {
                    NextTask::Specific((k - 1) as usize)
                } else {
                    NextTask::Same
                },
            )
        } else {
            prev
        }
    }
}

/// `after` is task `before` once the timers have been processed at `now`:
/// an expired timer is disabled and its notifications posted.
pub open spec fn timer_processed(before: Task, now: Timestamp, after: Task) -> bool {
    if timer_expired(before, now) {
        with_timer_disabled(before).posted(before.timer.to_post, &after)
    } else {
        after == before
    }
}

/// Processes every enabled timer whose deadline is no later than
/// `current_time`: disables it and posts its notifications to its task, in
/// table order. Returns the combined scheduling hint.
pub fn process_timers(tasks: &mut [Task], current_time: Timestamp) -> (r: NextTask)
    ensures
        final(tasks)@.len() == old(tasks)@.len(),
        forall|i: int|
            0 <= i < old(tasks)@.len() ==> timer_processed(
                #[trigger] old(tasks)@[i],
                current_time,
                final(tasks)@[i],
            ),
        r == timers_hint(old(tasks)@, current_time, old(tasks)@.len() as int),
{
    let ghost before = tasks@;
    let mut sched_hint = NextTask::Same;
    let mut index: usize = 0;
    while index < tasks.len()
        invariant
            tasks@.len() == before.len(),
            index <= before.len(),
            forall|i: int| 0 <= i < index ==> timer_processed(#[trigger] before[i], current_time, tasks@[i]),
            forall|i: int| index <= i < before.len() ==> #[trigger] tasks@[i] == before[i],
            sched_hint == timers_hint(before, current_time, index as int),
        decreases before.len() - index,
    {
        let task = &mut tasks[index];
        if let Some(deadline) = task.timer.deadline {
            if deadline.0 <= current_time.0 {
                task.timer.deadline = None;
                let to_post = task.timer.to_post;
                let task_hint = if task.post(to_post) {
                    NextTask::Specific(index)
                } else {
                    NextTask::Same
                };
                sched_hint = sched_hint.combine(task_hint);
            }
        }
        index = index + 1;
    }
    sched_hint
}

/// Checks a user-supplied `TaskID` against `table`. On success the result is
/// an index that can be used on `table`.
pub fn check_task_id_against_table(table: &[Task], id: TaskID) -> (r: Result<usize, UserError>)
    ensures
        id.spec_index() >= table@.len() ==> r == Err::<usize, UserError>(
            UserError::Unrecoverable(FaultInfo::SyscallUsage(UsageError::TaskOutOfRange)),
        ),
        id.spec_index() < table@.len() && table@[id.spec_index()].generation != id.spec_generation()
            ==> r == Err::<usize, UserError>(UserError::Recoverable(DEAD, NextTask::Same)),
        id.spec_index() < table@.len() && table@[id.spec_index()].generation == id.spec_generation()
            ==> r == Ok::<usize, UserError>(id.spec_index() as usize),
{
    let index = id.index();
    if index >= table.len() {
        return Err(UserError::from(FaultInfo::SyscallUsage(UsageError::TaskOutOfRange)));
    }
    if table[index].generation != id.generation() {
        return Err(UserError::Recoverable(DEAD, NextTask::Same));
    }
    Ok(index)
}

/// The notification bits posted to the supervisor when a task faults. It is
/// zero until set, normally once at boot.
pub struct FaultNotification {
    bits: u32,
}

impl FaultNotification {
    pub closed spec fn spec_bits(&self) -> u32 {
        self.bits
    }

    pub fn new() -> (r: Self)
        ensures
            r.spec_bits() == 0,
    {
        FaultNotification { bits: 0 }
    }
}

/// Sets the notification bits posted to the supervisor on a fault.
pub fn set_fault_notification(word: &mut FaultNotification, mask: u32)
    ensures
        final(word).spec_bits() == mask,
{
    word.bits = mask;
}

/// The state of a task after `fault`: a healthy task keeps its schedulable
/// state as the original one; an already faulted task keeps its original
/// state and records the latest fault.
pub open spec fn faulted_state(state: TaskState, fault: FaultInfo) -> TaskState {
    match state {
        TaskState::Healthy(sched) => TaskState::Faulted { fault, original_state: sched },
        TaskState::Faulted { original_state, .. } => TaskState::Faulted { fault, original_state },
    }
}

/// The table once task `index` has been given `fault`, before the
/// supervisor is told.
pub open spec fn with_fault(tasks: Seq<Task>, index: int, fault: FaultInfo) -> Seq<Task> {
    tasks.update(index, Task { state: faulted_state(tasks[index].state, fault), ..tasks[index] })
}

/// Puts task `index` into a faulted state and posts the fault notification
/// to the supervisor, task 0. Returns `Specific(0)` if that woke the
/// supervisor, else `Other`.
pub fn force_fault(
    tasks: &mut [Task],
    index: usize,
    fault: FaultInfo,
    notification: &FaultNotification,
) -> (r: NextTask)
    requires
        index < old(tasks)@.len(),
    ensures
        final(tasks)@.len() == old(tasks)@.len(),
        ({
            let mid = with_fault(old(tasks)@, index as int, fault);
            let n = NotificationSet(notification.spec_bits());
            &&& mid[0].posted(n, &final(tasks)@[0])
            &&& forall|i: int| 0 < i < mid.len() ==> #[trigger] final(tasks)@[i] == mid[i]
            &&& r == if mid[0].wakes(n) {
                NextTask::Specific(0)
            } else {
                NextTask::Other
            }
        }),
{
    let task = &mut tasks[index];
    task.state = match task.state {
        TaskState::Healthy(sched) => TaskState::Faulted { original_state: sched, fault },
        TaskState::Faulted { original_state, .. } => {
            // Double fault: the earlier fault is replaced, the state before
            // the first one is kept.
            TaskState::Faulted { fault, original_state }
        },
    };
    let supervisor_awoken = tasks[0].post(NotificationSet(notification.bits));
    if supervisor_awoken {
        NextTask::Specific(0)
    } else {
        NextTask::Other
    }
}

/// Place of index `i` in the scan of a table of `len` tasks that starts just
/// after `previous` and wraps around.
pub open spec fn scan_position(previous: int, len: int, i: int) -> int {
    if i > previous {
        i - previous - 1
    } else {
        i + len - previous - 1
    }
}

/// Choosing task `i` over task `j` is right: `j` is not more important, and
/// at equal priority `i` comes no later in the scan after `previous`.
pub open spec fn preferred(tasks: Seq<Task>, previous: int, i: int, j: int) -> bool {
    &&& !tasks[j].priority.more_important(tasks[i].priority)
    &&& tasks[j].priority == tasks[i].priority ==> scan_position(previous, tasks.len() as int, i)
        <= scan_position(previous, tasks.len() as int, j)
}

/// `i` is the task the scheduler runs after `previous`: a runnable task
/// preferred over every runnable task.
pub open spec fn scheduled(tasks: Seq<Task>, previous: int, i: int) -> bool {
    &&& 0 <= i < tasks.len()
    &&& tasks[i].spec_runnable()
    &&& forall|j: int|
        0 <= j < tasks.len() && (#[trigger] tasks[j]).spec_runnable() ==> preferred(
            tasks,
            previous,
            i,
            j,
        )
}

/// `pred` was seen to give some answer for task `j`, and if that answer was
/// yes, task `i` is preferred over it.
pub open spec fn outranks_when_chosen<F: Fn(&Task) -> bool>(
    pred: F,
    tasks: Seq<Task>,
    previous: int,
    i: int,
    j: int,
) -> bool {
    exists|b: bool| #[trigger] pred.ensures((&tasks[j],), b) && (b ==> preferred(tasks, previous, i, j))
}

/// Scans `tasks`, starting after `previous` and wrapping around, for the most
/// important task that satisfies `pred`; among equally important ones the
/// first in scan order wins. Each task is tested once, and the result is
/// stated over what `pred` returned for it.
pub fn priority_scan<F: Fn(&Task) -> bool>(previous: usize, tasks: &[Task], pred: F) -> (r: Option<
    usize,
>)
    requires
        previous < tasks@.len(),
        forall|t: &Task| pred.requires((t,)),
    ensures
        match r {
            Some(i) => {
                &&& i < tasks@.len()
                &&& pred.ensures((&tasks@[i as int],), true)
                &&& forall|j: int|
                    0 <= j < tasks@.len() ==> #[trigger] outranks_when_chosen(
                        pred,
                        tasks@,
                        previous as int,
                        i as int,
                        j,
                    )
            },
            None => forall|j: int| 0 <= j < tasks@.len() ==> pred.ensures((&tasks@[j],), false),
        },
{
    let len = tasks.len();
    let ghost prev = previous as int;
    let ghost n = len as int;
    let ghost mut seen: Seq<bool> = Seq::new(len as nat, |j: int| false);
    let mut choice: Option<(usize, Priority)> = None;
    let mut k: usize = 0;
    while k < len
        invariant
            len == tasks@.len(),
            n == len,
            prev == previous,
            previous < len,
            k <= len,
            forall|t: &Task| pred.requires((t,)),
            seen.len() == len,
            forall|j: int|
                0 <= j < n && scan_position(prev, n, j) < k ==> pred.ensures(
                    (&tasks@[j],),
                    #[trigger] seen[j],
                ),
            match choice {
                Some((c, p)) => {
                    &&& c < len
                    &&& p == tasks@[c as int].priority
                    &&& scan_position(prev, n, c as int) < k
                    &&& seen[c as int]
                    &&& forall|j: int|
                        0 <= j < n && scan_position(prev, n, j) < k && #[trigger] seen[j]
                            ==> preferred(tasks@, prev, c as int, j)
                },
                None => forall|j: int| 0 <= j < n && scan_position(prev, n, j) < k ==> !#[trigger] seen[j],
            },
        decreases len - k,
    {
        let i: usize = if k < len - previous - 1 {
            previous + 1 + k
        } else {
            k - (len - previous - 1)
        };
        assert(scan_position(prev, n, i as int) == k);
        let b = pred(&tasks[i]);
        proof {
            seen = seen.update(i as int, b);
        }
        if b {
            match choice {
                Some((_, prio)) => {
                    if tasks[i].priority.is_more_important_than(prio) {
                        choice = Some((i, tasks[i].priority));
                    }
                },
                None => {
                    choice = Some((i, tasks[i].priority));
                },
            }
        }
        k = k + 1;
    }
    proof {
        assert forall|j: int| 0 <= j < n implies 0 <= #[trigger] scan_position(prev, n, j) < n by {}
    }
    match choice {
        Some((c, _)) => {
            proof {
                assert(pred.ensures((&tasks@[c as int],), seen[c as int]));
                assert forall|j: int| 0 <= j < tasks@.len() implies #[trigger] outranks_when_chosen(
                    pred,
                    tasks@,
                    previous as int,
                    c as int,
                    j,
                ) by {
                    assert(scan_position(prev, n, j) < n);
                    assert(pred.ensures((&tasks@[j],), seen[j]));
                }
            }
            Some(c)
        },
        None => {
            proof {
                assert forall|j: int| 0 <= j < tasks@.len() implies pred.ensures(
                    (&tasks@[j],),
                    false,
                ) by {
                    assert(scan_position(prev, n, j) < n);
                    assert(pred.ensures((&tasks@[j],), seen[j]));
                }
            }
            None
        },
    }
}

/// Selects the task to run after `previous`: the most important runnable
/// task, ties going to the first after `previous` in table order, wrapping
/// around. Some task must be runnable (the idle task always is).
pub fn select(previous: usize, tasks: &[Task]) -> (r: usize)
    requires
        previous < tasks@.len(),
        exists|j: int| 0 <= j < tasks@.len() && (#[trigger] tasks@[j]).spec_runnable(),
    ensures
        scheduled(tasks@, previous as int, r as int),
{
    let runnable = (|t: &Task| -> (b: bool)
        ensures
            b == t.spec_runnable(),
        { t.is_runnable() });
    let found = priority_scan(previous, tasks, runnable);
    match found {
        Some(i) => {
            proof {
                assert forall|j: int|
                    0 <= j < tasks@.len() && (#[trigger] tasks@[j]).spec_runnable() implies preferred(
                    tasks@,
                    previous as int,
                    i as int,
                    j,
                ) by {
                    assert(outranks_when_chosen(runnable, tasks@, previous as int, i as int, j));
                }
            }
            i
        },
        None => {
            proof {
                let j = choose|j: int| 0 <= j < tasks@.len() && (#[trigger] tasks@[j]).spec_runnable();
                assert(runnable.ensures((&tasks@[j],), false));
            }
            0
        },
    }
}

/// Two tasks found to be the scheduler's choice after the same `previous`
/// are the same task.
pub proof fn lemma_scheduled_unique(tasks: Seq<Task>, previous: int, i: int, j: int)
    requires
        0 <= previous < tasks.len(),
        scheduled(tasks, previous, i),
        scheduled(tasks, previous, j),
    ensures
        i == j,
{
    assert(preferred(tasks, previous, i, j));
    assert(preferred(tasks, previous, j, i));
}

/// The scheduler always picks a task of the most important priority among
/// the runnable ones.
pub proof fn lemma_select_most_important(tasks: Seq<Task>, previous: int, i: int, k: int)
    requires
        scheduled(tasks, previous, i),
        0 <= k < tasks.len(),
        tasks[k].spec_runnable(),
        forall|j: int|
            0 <= j < tasks.len() && (#[trigger] tasks[j]).spec_runnable()
                ==> !tasks[j].priority.more_important(tasks[k].priority),
    ensures
        tasks[i].priority == tasks[k].priority,
{
    assert(preferred(tasks, previous, i, k));
    assert(!tasks[i].priority.more_important(tasks[k].priority));
}

/// Two runnable tasks `a < b` of the same priority, more important than every
/// other runnable task, take turns: after `a` runs `b`, after `b` runs `a`,
/// and after any `previous` the first of them in scan order.
pub proof fn lemma_round_robin(tasks: Seq<Task>, previous: int, a: int, b: int)
    requires
        0 <= previous < tasks.len(),
        0 <= a < b < tasks.len(),
        tasks[a].spec_runnable(),
        tasks[b].spec_runnable(),
        tasks[a].priority == tasks[b].priority,
        forall|j: int|
            0 <= j < tasks.len() && j != a && j != b && (#[trigger] tasks[j]).spec_runnable()
                ==> tasks[a].priority.more_important(tasks[j].priority),
    ensures
        forall|i: int| scheduled(tasks, a, i) <==> i == b,
        forall|i: int| scheduled(tasks, b, i) <==> i == a,
        forall|i: int|
            scheduled(tasks, previous, i) <==> i == (if scan_position(previous, tasks.len() as int, a)
                < scan_position(previous, tasks.len() as int, b) {
                a
            } else {
                b
            }),
{
    let n = tasks.len() as int;
    assert(scheduled(tasks, a, b));
    assert(scheduled(tasks, b, a));
    let first = if scan_position(previous, n, a) < scan_position(previous, n, b) {
        a
    } else {
        b
    };
    assert(scheduled(tasks, previous, first));
    assert forall|i: int| scheduled(tasks, a, i) <==> i == b by {
        if scheduled(tasks, a, i) {
            lemma_scheduled_unique(tasks, a, i, b);
        }
    }
    assert forall|i: int| scheduled(tasks, b, i) <==> i == a by {
        if scheduled(tasks, b, i) {
            lemma_scheduled_unique(tasks, b, i, a);
        }
    }
    assert forall|i: int| scheduled(tasks, previous, i) <==> i == first by {
        if scheduled(tasks, previous, i) {
            lemma_scheduled_unique(tasks, previous, i, first);
        }
    }
}

/// Posting a set of bits leaves all of them pending, together with the bits
/// that were pending before, except those the mask covers when the post woke
/// the task (those were acknowledged by the delivery).
pub proof fn lemma_post_keeps_bits(t: Task, n: NotificationSet, after: Task)
    requires
        t.posted(n, &after),
    ensures
        after.notifications == (t.notifications | n.0) & !(if t.wakes(n) {
            t.notification_mask
        } else {
            0u32
        }),
{
    let p = t.notifications | n.0;
    assert(p & !0u32 == p) by (bit_vector);
}

/// Posting the empty set changes nothing and reports no switch, unless the
/// task sits in open receive with bits already firing (it is then woken).
pub proof fn lemma_post_empty(t: Task, after: Task)
    requires
        t.posted(NotificationSet(0), &after),
        !(t.in_open_receive() && t.notifications & t.notification_mask != 0),
    ensures
        !t.wakes(NotificationSet(0)),
        after.state == t.state,
        after.notifications == t.notifications,
        after.save == t.save,
{
    let p = t.notifications;
    assert(p | 0u32 == p) by (bit_vector);
}

/// A task in open receive with a bit firing is woken by the post: it becomes
/// runnable, and its receive result names the kernel as sender and the
/// firing bits as operation.
pub proof fn lemma_post_wakes_receiver(t: Task, n: NotificationSet, after: Task)
    requires
        t.posted(n, &after),
        t.in_open_receive(),
        t.notification_mask & (t.notifications | n.0) != 0,
    ensures
        t.wakes(n),
        after.state == TaskState::Healthy(SchedState::Runnable),
        after.save.rets@[1] == KERNEL_ID as u32,
        after.save.rets@[2] == t.firing_after(n),
        t.firing_after(n) == (t.notifications | n.0) & t.notification_mask,
{
    let m = t.notification_mask;
    let p = t.notifications | n.0;
    assert(m & p == p & m) by (bit_vector);
}

/// A post never changes the state of a task that is not in open receive.
pub proof fn lemma_post_keeps_state(t: Task, n: NotificationSet, after: Task)
    requires
        t.posted(n, &after),
        !t.in_open_receive(),
    ensures
        after.state == t.state,
{
}

/// The kernel may always access an empty slice.
pub proof fn lemma_empty_slice_accessible<T>(t: Task, slice: USlice<T>)
    requires
        slice.spec_len() == 0,
    ensures
        t.may_access(&slice, READ),
        t.may_access(&slice, WRITE),
{
}

/// A slice inside a readable region of the task that is not device memory
/// can be read.
pub proof fn lemma_covered_slice_readable<T>(t: Task, i: int, slice: USlice<T>)
    requires
        0 <= i < t.region_table@.len(),
        t.region_table@[i].spec_covers(&slice),
        t.region_table@[i].attributes.has(READ),
        !t.region_table@[i].attributes.has(DEVICE),
    ensures
        t.may_access(&slice, READ),
{
    assert(t.region_table@[i].grants(&slice, READ));
}

} // verus!
