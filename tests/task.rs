use kern::abi::{FaultInfo, Priority, SchedState, TaskState, Timestamp, UsageError, UserError, DEAD};
use kern::arch::SavedState;
use kern::region::{RegionAttributes, RegionDesc, TaskDesc, DEVICE, READ, WRITE};
use kern::task::{
    check_task_id_against_table, force_fault, priority_scan, process_timers, select,
    set_fault_notification, FaultNotification, Generation, NextTask, NotificationSet, Task, TaskID,
    TimerState, KERNEL_ID,
};
use kern::umem::USlice;

fn desc() -> &'static TaskDesc {
    Box::leak(Box::new(TaskDesc { entry_point: 0x0800_1001, initial_stack: 0x2000_4000, priority: 1 }))
}

fn regions(list: Vec<RegionDesc>) -> &'static [&'static RegionDesc] {
    let refs: Vec<&'static RegionDesc> = list.into_iter().map(|r| &*Box::leak(Box::new(r))).collect();
    Box::leak(refs.into_boxed_slice())
}

fn task(priority: u8, state: TaskState) -> Task {
    Task {
        save: SavedState::zeroed(),
        priority: Priority(priority),
        state,
        timer: TimerState::default(),
        generation: Generation(0),
        region_table: regions(vec![]),
        notifications: 0,
        notification_mask: 0,
        descriptor: desc(),
    }
}

fn runnable(priority: u8) -> Task {
    task(priority, TaskState::Healthy(SchedState::Runnable))
}

fn open_receive() -> TaskState {
    TaskState::Healthy(SchedState::InRecv(None))
}

#[test]
fn post_wakes_open_receiver() {
    let mut t = task(3, open_receive());
    t.notification_mask = 0x0000_0004;
    assert!(t.post(NotificationSet(0x0000_0006)));
    assert_eq!(t.notifications, 0x0000_0002);
    assert_eq!(t.state, TaskState::Healthy(SchedState::Runnable));
    assert_eq!(t.save.rets, [0, 0xFFFF, 0x0000_0004, 0, 0, 0]);
}

#[test]
fn masked_notification_stays_pending() {
    let mut t = task(3, open_receive());
    assert!(!t.post(NotificationSet(0xDEAD_BEEF)));
    assert_eq!(t.notifications, 0xDEAD_BEEF);
    assert_eq!(t.state, open_receive());
    assert_eq!(t.update_mask(0x0000_00FF), Some(0x0000_00EF));
    assert_eq!(t.notifications, 0xDEAD_BEEF);
}

#[test]
fn update_mask_with_nothing_firing() {
    let mut t = task(3, open_receive());
    t.notifications = 0x10;
    assert_eq!(t.update_mask(0x01), None);
    assert_eq!(t.notification_mask, 0x01);
}

#[test]
fn post_keeps_posted_bits() {
    let mut t = task(3, TaskState::Healthy(SchedState::InReply(TaskID(5))));
    t.notifications = 0x100;
    t.notification_mask = 0x1;
    assert!(!t.post(NotificationSet(0x3)));
    assert_eq!(t.notifications, 0x103);
}

#[test]
fn post_empty_set_changes_nothing() {
    let mut t = task(3, open_receive());
    t.notifications = 0x8;
    t.notification_mask = 0x1;
    assert!(!t.post(NotificationSet(0)));
    assert_eq!(t.state, open_receive());
    assert_eq!(t.notifications, 0x8);
    assert_eq!(t.save, SavedState::zeroed());
}

#[test]
fn post_does_not_wake_closed_receiver() {
    let mut t = task(3, TaskState::Healthy(SchedState::InRecv(Some(TaskID(2)))));
    t.notification_mask = 0xFF;
    assert!(!t.post(NotificationSet(0x1)));
    assert_eq!(t.state, TaskState::Healthy(SchedState::InRecv(Some(TaskID(2)))));
    assert_eq!(t.notifications, 0x1);
}

#[test]
fn post_does_not_wake_faulted_task() {
    let state = TaskState::Faulted { fault: FaultInfo::Panic, original_state: SchedState::InRecv(None) };
    let mut t = task(3, state);
    t.notification_mask = 0xFF;
    assert!(!t.post(NotificationSet(0x1)));
    assert_eq!(t.state, state);
}

#[test]
fn acknowledge_clears_only_masked_bits() {
    let mut t = task(3, open_receive());
    t.notifications = 0b1011;
    t.notification_mask = 0b0011;
    t.acknowledge_notifications();
    assert_eq!(t.notifications, 0b1000);
    t.acknowledge_notifications();
    assert_eq!(t.notifications, 0b1000);
}

#[test]
fn set_timer_and_reinitialize() {
    let mut t = task(3, TaskState::Faulted { fault: FaultInfo::Panic, original_state: SchedState::Runnable });
    t.generation = Generation(63);
    t.notifications = 7;
    t.notification_mask = 3;
    t.save.args[2] = 9;
    t.set_timer(Some(Timestamp(10)), NotificationSet(4));
    assert_eq!(t.timer, TimerState { deadline: Some(Timestamp(10)), to_post: NotificationSet(4) });
    t.reinitialize();
    assert_eq!(t.generation, Generation(0));
    assert_eq!(t.timer, TimerState { deadline: None, to_post: NotificationSet(0) });
    assert_eq!(t.notifications, 0);
    assert_eq!(t.notification_mask, 0);
    assert!(t.is_runnable());
    assert_eq!(t.save.args, [0; 7]);
    assert_eq!(t.save.stack_pointer, 0x2000_4000);
    assert_eq!(t.save.program_counter, 0x0800_1001);
}

#[test]
fn select_ties_round_robin() {
    let tasks = vec![runnable(5), runnable(5), runnable(5)];
    assert_eq!(select(0, &tasks), 1);
    assert_eq!(select(1, &tasks), 2);
    assert_eq!(select(2, &tasks), 0);
}

#[test]
fn select_picks_most_important() {
    let tasks = vec![runnable(10), runnable(3), runnable(7)];
    for prev in 0..3 {
        assert_eq!(select(prev, &tasks), 1);
    }
}

#[test]
fn select_skips_blocked_and_faulted() {
    let tasks = vec![
        runnable(9),
        task(0, TaskState::Faulted { fault: FaultInfo::DivideByZero, original_state: SchedState::Runnable }),
        task(1, open_receive()),
        runnable(4),
    ];
    assert_eq!(select(3, &tasks), 3);
    assert_eq!(select(0, &tasks), 3);
}

#[test]
fn select_alternates_two_equal_tasks() {
    let tasks = vec![runnable(9), runnable(2), runnable(6), runnable(2)];
    let mut prev = 0;
    let mut seen = vec![];
    for _ in 0..4 {
        prev = select(prev, &tasks);
        seen.push(prev);
    }
    assert_eq!(seen, vec![1, 3, 1, 3]);
}

#[test]
fn priority_scan_with_predicate() {
    let tasks = vec![runnable(5), task(1, open_receive()), runnable(2), task(1, open_receive())];
    let receiving = |t: &Task| t.state == TaskState::Healthy(SchedState::InRecv(None));
    assert_eq!(priority_scan(1, &tasks, receiving), Some(3));
    assert_eq!(priority_scan(3, &tasks, receiving), Some(1));
    assert_eq!(priority_scan(0, &tasks, |_t: &Task| false), None);
}

#[test]
fn combine_rules() {
    let (same, other) = (NextTask::Same, NextTask::Other);
    assert_eq!(same.combine(same), same);
    assert_eq!(same.combine(other), other);
    assert_eq!(other.combine(same), other);
    assert_eq!(NextTask::Specific(3).combine(NextTask::Specific(3)), NextTask::Specific(3));
    assert_eq!(NextTask::Specific(3).combine(NextTask::Specific(4)), other);
    assert_eq!(NextTask::Specific(3).combine(other), NextTask::Specific(3));
    assert_eq!(same.combine(NextTask::Specific(2)), NextTask::Specific(2));
    let all = [same, other, NextTask::Specific(1), NextTask::Specific(2)];
    for a in all {
        assert_eq!(a.combine(a), a);
        for b in all {
            assert_eq!(a.combine(b), b.combine(a));
        }
    }
}

#[test]
fn generation_wraps_after_sixty_four() {
    for start in 0..64u8 {
        let mut g = Generation(start);
        for _ in 0..64 {
            g = g.next();
        }
        assert_eq!(g, Generation(start));
    }
    assert_eq!(Generation(63).next(), Generation(0));
    assert_eq!(Generation(5).next(), Generation(6));
}

#[test]
fn task_id_packing() {
    let id = TaskID::from_index_and_gen(0x123, Generation(0x2A));
    assert_eq!(id.0, (0x2A << 10) | 0x123);
    assert_eq!(id.0, 0xA923);
    assert_eq!(id.index(), 0x123);
    assert_eq!(id.generation().0, 0x2A);
}

#[test]
fn task_id_round_trip() {
    for index in [0usize, 1, 511, 1023] {
        for gen in [0u8, 1, 33, 63] {
            let id = TaskID::from_index_and_gen(index, Generation(gen));
            assert_eq!(id.index(), index);
            assert_eq!(id.generation(), Generation(gen));
        }
    }
    assert_eq!(TaskID::kernel().0, KERNEL_ID);
    assert_eq!(TaskID::kernel().index(), 1023);
}

#[test]
fn check_task_id_outcomes() {
    let mut tasks = vec![runnable(1), runnable(2)];
    tasks[1].generation = Generation(3);
    let good = TaskID::from_index_and_gen(1, Generation(3));
    assert_eq!(check_task_id_against_table(&tasks, good), Ok(1));
    let stale = TaskID::from_index_and_gen(1, Generation(2));
    assert_eq!(
        check_task_id_against_table(&tasks, stale),
        Err(UserError::Recoverable(DEAD, NextTask::Same))
    );
    let out_of_range = TaskID::from_index_and_gen(2, Generation(3));
    assert_eq!(
        check_task_id_against_table(&tasks, out_of_range),
        Err(UserError::Unrecoverable(FaultInfo::SyscallUsage(UsageError::TaskOutOfRange)))
    );
    assert_eq!(
        check_task_id_against_table(&tasks, TaskID::kernel()),
        Err(UserError::Unrecoverable(FaultInfo::SyscallUsage(UsageError::TaskOutOfRange)))
    );
}

#[test]
fn double_fault_keeps_original_state() {
    let t2 = TaskID::from_index_and_gen(2, Generation(0));
    let mut tasks = vec![runnable(0), task(1, TaskState::Healthy(SchedState::InRecv(Some(t2))))];
    let word = FaultNotification::new();
    let fault_a = FaultInfo::SyscallUsage(UsageError::InvalidSlice);
    let fault_b = FaultInfo::StackOverflow { address: 0x2000_0000 };
    assert_eq!(force_fault(&mut tasks, 1, fault_a, &word), NextTask::Other);
    assert_eq!(
        tasks[1].state,
        TaskState::Faulted { fault: fault_a, original_state: SchedState::InRecv(Some(t2)) }
    );
    assert_eq!(force_fault(&mut tasks, 1, fault_b, &word), NextTask::Other);
    assert_eq!(
        tasks[1].state,
        TaskState::Faulted { fault: fault_b, original_state: SchedState::InRecv(Some(t2)) }
    );
}

#[test]
fn fault_wakes_supervisor() {
    let mut tasks = vec![task(0, open_receive()), runnable(1)];
    tasks[0].notification_mask = 0x1;
    let mut word = FaultNotification::new();
    set_fault_notification(&mut word, 0x1);
    assert_eq!(force_fault(&mut tasks, 1, FaultInfo::IllegalInstruction, &word), NextTask::Specific(0));
    assert!(tasks[0].is_runnable());
    assert_eq!(tasks[0].save.rets[2], 0x1);
    assert!(!tasks[1].is_runnable());
}

#[test]
fn timer_fires_and_wakes() {
    let mut tasks = vec![runnable(0), runnable(1), task(2, open_receive())];
    tasks[2].notification_mask = 1;
    tasks[2].set_timer(Some(Timestamp(100)), NotificationSet(1));
    assert_eq!(process_timers(&mut tasks, Timestamp(150)), NextTask::Specific(2));
    assert!(tasks[2].is_runnable());
    assert_eq!(tasks[2].timer.deadline, None);
}

#[test]
fn timers_not_yet_due_stay_armed() {
    let mut tasks = vec![task(2, open_receive())];
    tasks[0].notification_mask = 1;
    tasks[0].set_timer(Some(Timestamp(200)), NotificationSet(1));
    assert_eq!(process_timers(&mut tasks, Timestamp(150)), NextTask::Same);
    assert_eq!(tasks[0].timer.deadline, Some(Timestamp(200)));
    assert_eq!(tasks[0].notifications, 0);
}

#[test]
fn two_timers_waking_give_other() {
    let mut tasks = vec![task(2, open_receive()), runnable(1), task(2, open_receive())];
    for i in [0, 2] {
        tasks[i].notification_mask = 1;
        tasks[i].set_timer(Some(Timestamp(5)), NotificationSet(1));
    }
    tasks[1].set_timer(Some(Timestamp(5)), NotificationSet(8));
    assert_eq!(process_timers(&mut tasks, Timestamp(5)), NextTask::Other);
    assert_eq!(tasks[1].notifications, 8);
    assert_eq!(tasks[1].timer.deadline, None);
}

#[test]
fn memory_access_checks() {
    let mut t = task(1, TaskState::Healthy(SchedState::Runnable));
    t.region_table = regions(vec![
        RegionDesc { base: 0x1000, size: 0x100, attributes: RegionAttributes(READ) },
        RegionDesc { base: 0x2000, size: 0x100, attributes: RegionAttributes(READ | WRITE) },
        RegionDesc { base: 0x4000, size: 0x100, attributes: RegionAttributes(READ | WRITE | DEVICE) },
    ]);
    let empty = USlice::<u8>::from_raw(0xFFFF_0000, 0).unwrap();
    assert!(t.can_read(&empty));
    assert!(t.can_write(&empty));
    let inside = USlice::<u8>::from_raw(0x1010, 0x20).unwrap();
    assert!(t.can_read(&inside));
    assert!(!t.can_write(&inside));
    let whole = USlice::<u8>::from_raw(0x2000, 0x100).unwrap();
    assert!(t.can_read(&whole));
    assert!(t.can_write(&whole));
    let overhang = USlice::<u8>::from_raw(0x20F0, 0x20).unwrap();
    assert!(!t.can_read(&overhang));
    let device = USlice::<u8>::from_raw(0x4000, 0x10).unwrap();
    assert!(!t.can_read(&device));
    assert!(!t.can_write(&device));
}
