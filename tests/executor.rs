use batch_os::batch::{Action, AppManager, BatchError, LoadOutcome};
use batch_os::config::{APP_BASE_ADDRESS, APP_SIZE_LIMIT, KERNEL_STACK_SIZE, USER_STACK_SIZE};
use batch_os::context::{Privilege, TrapContext, SP_REG, TRAP_CONTEXT_SIZE};
use batch_os::stack::{KernelStack, UserStack};
use batch_os::syscall::{
    sys_exit, sys_get_time, sys_task_info, sys_yield, syscall, TaskInfo, TaskStatus, TimeVal,
    SYSCALL_EXIT, SYSCALL_GET_TIME, SYSCALL_YIELD,
};
use batch_os::table::AppTable;

const KSTACK: usize = 0x8020_0000;
const USTACK: usize = 0x8020_4000;

fn manager(apps: &[Vec<u8>]) -> AppManager {
    let mut image: Vec<u8> = Vec::new();
    let mut words = vec![apps.len()];
    for a in apps {
        words.push(image.len());
        image.extend_from_slice(a);
        words.push(image.len());
    }
    let table = AppTable::from_descriptor(&words, image.len()).unwrap();
    AppManager::new(table, image, KernelStack::new(KSTACK), UserStack::new(USTACK))
}

fn slot_addr() -> usize {
    KSTACK + KERNEL_STACK_SIZE - TRAP_CONTEXT_SIZE
}

#[test]
fn new_manager_starts_at_first_app_with_zero_window() {
    let m = manager(&[vec![1, 2, 3]]);
    assert_eq!(m.get_current_app(), 0);
    assert_eq!(m.window_bytes().len(), APP_SIZE_LIMIT);
    assert!(m.window_bytes().iter().all(|b| *b == 0));
    assert!(m.kernel_stack().top_context().is_none());
}

#[test]
fn load_copies_bytes_then_zeros() {
    let mut m = manager(&[vec![7; 300], vec![1, 2, 3]]);
    m.load_app(0).unwrap();
    assert!(m.window_bytes()[..300].iter().all(|b| *b == 7));
    m.load_app(1).unwrap();
    assert_eq!(&m.window_bytes()[..3], &[1, 2, 3]);
    assert!(m.window_bytes()[3..].iter().all(|b| *b == 0));
}

#[test]
fn load_past_end_of_table_is_exhausted_and_writes_nothing() {
    let mut m = manager(&[vec![4, 5]]);
    assert_eq!(m.load_app(0), Ok(LoadOutcome::Loaded));
    assert_eq!(m.load_app(1), Ok(LoadOutcome::Exhausted));
    assert_eq!(&m.window_bytes()[..3], &[4, 5, 0]);
    assert_eq!(m.get_current_app(), 0);
}

#[test]
fn load_of_app_filling_window_exactly() {
    let mut m = manager(&[vec![5; APP_SIZE_LIMIT]]);
    m.load_app(0).unwrap();
    assert!(m.window_bytes().iter().all(|b| *b == 5));
}

#[test]
fn oversized_app_is_refused_and_window_kept() {
    let mut m = manager(&[vec![1, 2], vec![9; APP_SIZE_LIMIT + 1]]);
    m.load_app(0).unwrap();
    assert_eq!(m.load_app(1), Err(BatchError::AppTooLarge { app_id: 1 }));
    assert_eq!(&m.window_bytes()[..3], &[1, 2, 0]);
    m.move_to_next_app();
    assert_eq!(m.run_current_app(), Err(BatchError::AppTooLarge { app_id: 1 }));
}

#[test]
fn initial_context_enters_window_base_with_user_stack_top() {
    let cx = TrapContext::app_init_context(APP_BASE_ADDRESS, USTACK + USER_STACK_SIZE);
    assert_eq!(cx.sepc, APP_BASE_ADDRESS);
    assert_eq!(cx.x[SP_REG], USTACK + USER_STACK_SIZE);
    assert_eq!(cx.sstatus.spp, Privilege::User);
    assert!(cx.sstatus.spie);
    assert!(cx.x.iter().enumerate().all(|(k, v)| k == SP_REG || *v == 0));
}

#[test]
fn run_current_app_pushes_initial_context_for_every_app() {
    let mut m = manager(&[vec![1], vec![2, 2], vec![3, 3, 3]]);
    for i in 0..3 {
        let r = if i == 0 { m.run_current_app() } else { m.run_next_app() };
        assert_eq!(r, Ok(Action::Enter { cx_addr: slot_addr() }));
        assert_eq!(m.get_current_app(), i);
        let cx = m.kernel_stack().top_context().unwrap();
        assert_eq!(cx.sepc, APP_BASE_ADDRESS);
        assert_eq!(cx.x[SP_REG], m.user_stack().get_sp());
        assert_eq!(cx.x[SP_REG], USTACK + USER_STACK_SIZE);
    }
}

#[test]
fn advance_increments_then_shuts_down() {
    let mut m = manager(&[vec![1], vec![2]]);
    assert_eq!(m.run_current_app(), Ok(Action::Enter { cx_addr: slot_addr() }));
    assert_eq!(m.run_next_app(), Ok(Action::Enter { cx_addr: slot_addr() }));
    assert_eq!(m.get_current_app(), 1);
    assert_eq!(m.run_next_app(), Ok(Action::Shutdown));
    assert_eq!(m.get_current_app(), 2);
    assert_eq!(m.run_next_app(), Ok(Action::Shutdown));
    assert_eq!(m.get_current_app(), 3);
    assert_eq!(m.window_bytes()[0], 2);
}

#[test]
fn empty_table_shuts_down_at_once() {
    let mut m = manager(&[]);
    assert_eq!(m.run_current_app(), Ok(Action::Shutdown));
    assert_eq!(m.get_current_app(), 0);
}

#[test]
fn get_time_splits_microseconds() {
    let mut tv = TimeVal { sec: 0, usec: 0 };
    assert_eq!(sys_get_time(&mut tv, 3_500_000, 0), 0);
    assert_eq!(tv, TimeVal { sec: 3, usec: 500_000 });
    assert_eq!(sys_get_time(&mut tv, 999_999, 0), 0);
    assert_eq!(tv, TimeVal { sec: 0, usec: 999_999 });
    assert_eq!(sys_get_time(&mut tv, 1_000_000, 0), 0);
    assert_eq!(tv, TimeVal { sec: 1, usec: 0 });
}

#[test]
fn get_time_never_goes_back() {
    let mut a = TimeVal { sec: 0, usec: 0 };
    let mut b = TimeVal { sec: 0, usec: 0 };
    sys_get_time(&mut a, 1_999_998, 0);
    sys_get_time(&mut b, 2_000_001, 0);
    assert!((a.sec, a.usec) < (b.sec, b.usec));
    assert!(a.usec < 1_000_000 && b.usec < 1_000_000);
}

#[test]
fn get_time_syscall_asks_for_a_write() {
    let mut m = manager(&[vec![1]]);
    m.run_current_app().unwrap();
    let r = syscall(&mut m, SYSCALL_GET_TIME, [0x1000, 0, 0], 12_345_678);
    assert_eq!(
        r,
        Ok(Action::WriteTime { dest: 0x1000, value: TimeVal { sec: 12, usec: 345_678 }, ret: 0 })
    );
    assert_eq!(m.get_current_app(), 0);
}

#[test]
fn yield_resumes_the_same_app_with_zero() {
    assert_eq!(sys_yield(), 0);
    let mut m = manager(&[vec![1], vec![2]]);
    m.run_current_app().unwrap();
    assert_eq!(syscall(&mut m, SYSCALL_YIELD, [0, 0, 0], 0), Ok(Action::Resume { ret: 0 }));
    assert_eq!(m.get_current_app(), 0);
    assert_eq!(m.window_bytes()[0], 1);
}

#[test]
fn terminate_of_last_app_shuts_down() {
    let mut m = manager(&[vec![1], vec![2]]);
    m.run_current_app().unwrap();
    m.move_to_next_app();
    m.run_current_app().unwrap();
    assert_eq!(sys_exit(&mut m, 0), Ok(Action::Shutdown));
    assert_eq!(m.get_current_app(), 2);
}

#[test]
fn terminate_with_nonzero_code_advances_as_usual() {
    let mut m = manager(&[vec![1], vec![2]]);
    m.run_current_app().unwrap();
    assert_eq!(sys_exit(&mut m, -3), Ok(Action::Enter { cx_addr: slot_addr() }));
    assert_eq!(m.get_current_app(), 1);
}

#[test]
fn unknown_syscall_is_fatal() {
    let mut m = manager(&[vec![1]]);
    m.run_current_app().unwrap();
    assert_eq!(syscall(&mut m, 7, [0, 0, 0], 0), Err(BatchError::UnknownSyscall { id: 7 }));
    assert_eq!(m.get_current_app(), 0);
}

#[test]
fn two_apps_run_in_turn_then_shut_down() {
    let app0 = vec![0xaa; 64];
    let app1 = vec![0x11, 0x22, 0x33];
    let mut m = manager(&[app0.clone(), app1.clone()]);
    assert_eq!(m.run_current_app(), Ok(Action::Enter { cx_addr: slot_addr() }));
    assert_eq!(&m.window_bytes()[..64], &app0[..]);
    assert_eq!(syscall(&mut m, SYSCALL_EXIT, [0, 0, 0], 0), Ok(Action::Enter { cx_addr: slot_addr() }));
    assert_eq!(m.get_current_app(), 1);
    assert_eq!(&m.window_bytes()[..3], &app1[..]);
    assert!(m.window_bytes()[3..].iter().all(|b| *b == 0));
    assert!(!m.window_bytes().contains(&0xaa));
    assert_eq!(syscall(&mut m, SYSCALL_EXIT, [1, 0, 0], 0), Ok(Action::Shutdown));
    assert_eq!(m.get_current_app(), 2);
}

#[test]
fn task_info_of_uninitialised_task_fails() {
    let mut ti = TaskInfo { status: TaskStatus::UnInit, syscall_times: [0; 500], time: 0 };
    assert_eq!(sys_task_info(&ti), -1);
    ti.status = TaskStatus::Running;
    assert_eq!(sys_task_info(&ti), 0);
    ti.status = TaskStatus::Exited;
    assert_eq!(sys_task_info(&ti), 0);
}
