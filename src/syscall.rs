//! System calls made by applications, and the dispatcher that decodes them.
use vstd::prelude::*;
use crate::batch::{Action, AppManager, BatchError};
use crate::config::MAX_SYSCALL_NUM;

verus! {

/// Identifier of the call that terminates the current application.
pub const SYSCALL_EXIT: usize = 93;

/// Identifier of the call that gives up the processor.
pub const SYSCALL_YIELD: usize = 124;

/// Identifier of the call that reads the time since boot.
pub const SYSCALL_GET_TIME: usize = 169;

/// Microseconds in one second.
pub const USEC_PER_SEC: usize = 1_000_000;

/// Time since boot, split into whole seconds and microseconds.
#[derive(Clone, Copy, Debug, PartialEq, Eq, Structural)]
pub struct TimeVal {
    pub sec: usize,
    pub usec: usize,
}

/// `us` microseconds as whole seconds and the microseconds left over.
pub open spec fn time_of(us: usize) -> TimeVal {
    TimeVal { sec: (us / USEC_PER_SEC) as usize, usec: (us % USEC_PER_SEC) as usize }
}

/// Whether `a` comes no later than `b`: seconds first, then microseconds.
pub open spec fn time_le(a: TimeVal, b: TimeVal) -> bool {
    a.sec < b.sec || (a.sec == b.sec && a.usec <= b.usec)
}

/// Life-cycle state of a task.
#[derive(Clone, Copy, Debug, PartialEq, Eq, Structural)]
pub enum TaskStatus {
    UnInit,
    Ready,
    Running,
    Exited,
}

/// Task information
pub struct TaskInfo {
    /// Task status in its life cycle.
    pub status: TaskStatus,
    /// How many times the task made each system call.
    pub syscall_times: [u32; MAX_SYSCALL_NUM],
    /// Total running time of the task.
    pub time: usize,
}

/// Terminates the current application, whatever its exit code, and runs the
/// next one; after the last one the result is shutdown.
pub fn sys_exit(manager: &mut AppManager, exit_code: i32) -> (r: Result<Action, BatchError>)
    requires
        old(manager).wf(),
        old(manager).current() < old(manager).apps().len(),
    ensures
        final(manager).wf(),
        final(manager).ran(old(manager), old(manager).current() + 1, r),
        old(manager).current() + 1 == old(manager).apps().len() ==> r == Ok::<
            Action,
            BatchError,
        >(Action::Shutdown),
{
    manager.run_next_app()
}

/// Gives up the processor. With one resident application there is nothing
/// else to run, so the caller resumes at once.
pub fn sys_yield() -> (r: isize)
    ensures
        r == 0,
{
    0
}

/// Writes the time since boot, `now_us` microseconds, into `ts`.
pub fn sys_get_time(ts: &mut TimeVal, now_us: usize, _tz: usize) -> (r: isize)
    ensures
        *final(ts) == time_of(now_us),
        final(ts).usec < USEC_PER_SEC,
        r == 0,
{
    *ts = TimeVal { sec: now_us / USEC_PER_SEC, usec: now_us % USEC_PER_SEC };
    0
}

/// Reports on a task: -1 if it was never initialised, 0 otherwise.
pub fn sys_task_info(ti: &TaskInfo) -> (r: isize)
    ensures
        r == (if ti.status == TaskStatus::UnInit {
            -1isize
        } else {
            0isize
        }),
{
    if let TaskStatus::UnInit = ti.status {
        return -1;
    }
    0
}

/// Services system call `id` with arguments `args` for the running
/// application, the clock reading `now_us` microseconds since boot.
/// Terminating runs the next application; yielding resumes the caller with 0;
/// reading the time asks for the time to be stored at `args[0]` and resumes
/// with 0; any other identifier is fatal and changes nothing.
pub fn syscall(manager: &mut AppManager, id: usize, args: [usize; 3], now_us: usize) -> (r: Result<
    Action,
    BatchError,
>)
    requires
        old(manager).wf(),
        old(manager).current() < old(manager).apps().len(),
    ensures
        final(manager).wf(),
        id == SYSCALL_EXIT ==> final(manager).ran(old(manager), old(manager).current() + 1, r),
        id == SYSCALL_YIELD ==> r == Ok::<Action, BatchError>(Action::Resume { ret: 0 }) && *final(manager)
            == *old(manager),
        id == SYSCALL_GET_TIME ==> r == Ok::<Action, BatchError>(
            Action::WriteTime { dest: args[0], value: time_of(now_us), ret: 0 },
        ) && *final(manager) == *old(manager),
        id != SYSCALL_EXIT && id != SYSCALL_YIELD && id != SYSCALL_GET_TIME ==> r == Err::<
            Action,
            BatchError,
        >(BatchError::UnknownSyscall { id }) && *final(manager) == *old(manager),
{
    if id == SYSCALL_EXIT {
        sys_exit(manager, args[0] as i32)
    } else if id == SYSCALL_YIELD {
        Ok(Action::Resume { ret: sys_yield() })
    } else if id == SYSCALL_GET_TIME {
        let mut value = TimeVal { sec: 0, usec: 0 };
        let ret = sys_get_time(&mut value, now_us, args[1]);
        Ok(Action::WriteTime { dest: args[0], value, ret })
    } else {
        Err(BatchError::UnknownSyscall { id })
    }
}

/// The time read from a clock that has not gone back never goes back: for
/// `us1 <= us2`, the reading of `us1` comes no later than that of `us2`, and
/// both have fewer than a million microseconds.
pub proof fn lemma_time_monotonic(us1: usize, us2: usize)
    requires
        us1 <= us2,
    ensures
        time_le(time_of(us1), time_of(us2)),
        time_of(us1).usec < USEC_PER_SEC,
        time_of(us2).usec < USEC_PER_SEC,
{
    assert(us1 / 1_000_000 <= us2 / 1_000_000) by (nonlinear_arith)
        requires us1 <= us2;
    assert(us1 / 1_000_000 == us2 / 1_000_000 ==> us1 % 1_000_000 <= us2 % 1_000_000) by (nonlinear_arith)
        requires us1 <= us2;
}

} // verus!
