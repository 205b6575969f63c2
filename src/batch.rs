//! The executor: the application table, the storage image, the execution
//! window, the two stacks, and the index of the active application. One value
//! of this type owns all of them, so exclusive access is a `&mut` borrow.
use vstd::prelude::*;
use crate::config::{APP_BASE_ADDRESS, APP_SIZE_LIMIT};
use crate::context::TrapContext;
use crate::stack::{stacks_disjoint, KernelStack, UserStack};
use crate::syscall::TimeVal;
use crate::table::{ranges_ok, AppTable};

verus! {

/// What a load did.
#[derive(Clone, Copy, Debug, PartialEq, Eq, Structural)]
pub enum LoadOutcome {
    /// The application's bytes now fill the start of the execution window.
    Loaded,
    /// The index is past the end of the table: every application has run,
    /// nothing was written, and the machine is to shut down with success.
    Exhausted,
}

/// A fatal condition: the executor has no recovery policy for either.
#[derive(Clone, Copy, Debug, PartialEq, Eq, Structural)]
pub enum BatchError {
    /// Application `app_id` has more bytes than the execution window holds.
    AppTooLarge { app_id: usize },
    /// A system call with an identifier that the executor does not know.
    UnknownSyscall { id: usize },
}

/// What the platform layer does next on the executor's behalf.
#[derive(Clone, Copy, Debug, PartialEq, Eq, Structural)]
pub enum Action {
    /// Synchronise the instruction stream with the execution window, then
    /// restore the saved context held at `cx_addr` and jump into it.
    Enter { cx_addr: usize },
    /// Return to the current application with `ret` as the call's result.
    Resume { ret: isize },
    /// Store `value` at the application's address `dest`, then return to it
    /// with `ret` as the call's result.
    WriteTime { dest: usize, value: TimeVal, ret: isize },
    /// Every application has run: halt the machine with the success signal.
    Shutdown,
}

/// The execution window after application bytes `image[start..end]` were
/// loaded: those bytes, then zeros up to the window's capacity.
pub open spec fn loaded_window(image: Seq<u8>, start: usize, end: usize) -> Seq<u8> {
    image.subrange(start as int, end as int) + Seq::new(
        (APP_SIZE_LIMIT - (end - start)) as nat,
        |k: int| 0u8,
    )
}

/// The executor's whole state.
pub struct AppManager {
    table: AppTable,
    current_app: usize,
    image: Vec<u8>,
    window: Vec<u8>,
    kernel_stack: KernelStack,
    user_stack: UserStack,
}

impl AppManager {
    /// Byte ranges of the applications, in order.
    pub closed spec fn apps(&self) -> Seq<(usize, usize)> {
        self.table@
    }

    /// Index of the active application; equal to the count once all have run.
    pub closed spec fn current(&self) -> usize {
        self.current_app
    }

    /// The read-only storage image that holds every application's bytes.
    pub closed spec fn image(&self) -> Seq<u8> {
        self.image@
    }

    /// Contents of the execution window.
    pub closed spec fn window(&self) -> Seq<u8> {
        self.window@
    }

    pub closed spec fn kstack(&self) -> KernelStack {
        self.kernel_stack
    }

    pub closed spec fn ustack(&self) -> UserStack {
        self.user_stack
    }

    pub open spec fn wf(&self) -> bool {
        &&& ranges_ok(self.apps(), self.image().len())
        &&& self.window().len() == APP_SIZE_LIMIT
        &&& self.kstack().wf()
        &&& self.ustack().wf()
        &&& stacks_disjoint(self.kstack(), self.ustack())
    }

    /// Number of bytes of application `i`.
    pub open spec fn app_len(&self, i: int) -> int {
        self.apps()[i].1 - self.apps()[i].0
    }

    /// Whether application `i` fits in the execution window.
    pub open spec fn fits(&self, i: int) -> bool {
        self.app_len(i) <= APP_SIZE_LIMIT
    }

    /// Whether the state is the one reached from `pre` by loading application
    /// `i`: the window holds its bytes, then zeros; nothing else changed.
    pub open spec fn loaded_from(&self, pre: &AppManager, i: int) -> bool {
        &&& self.window() == loaded_window(pre.image(), pre.apps()[i].0, pre.apps()[i].1)
        &&& self.apps() == pre.apps()
        &&& self.image() == pre.image()
        &&& self.current() == pre.current()
        &&& self.kstack() == pre.kstack()
        &&& self.ustack() == pre.ustack()
    }

    /// Whether the state is the one reached from `pre` by making application
    /// `i` the active one and running it, with `r` the result. Past the end of
    /// the table the result is shutdown and the window is left alone; an
    /// application too large for the window is a fatal error that changes
    /// nothing else; any other is loaded, and the kernel stack's slot holds a
    /// fresh context at the window's base with the user stack's top as stack
    /// pointer, which `r` enters.
    pub open spec fn ran(&self, pre: &AppManager, i: int, r: Result<Action, BatchError>) -> bool {
        &&& self.current() == i
        &&& self.apps() == pre.apps()
        &&& self.image() == pre.image()
        &&& self.ustack() == pre.ustack()
        &&& self.kstack().spec_base() == pre.kstack().spec_base()
        &&& if i >= pre.apps().len() {
            &&& r == Ok::<Action, BatchError>(Action::Shutdown)
            &&& self.window() == pre.window()
            &&& self.kstack() == pre.kstack()
        } else if !pre.fits(i) {
            &&& r == Err::<Action, BatchError>(BatchError::AppTooLarge { app_id: i as usize })
            &&& self.window() == pre.window()
            &&& self.kstack() == pre.kstack()
        } else {
            &&& self.window() == loaded_window(pre.image(), pre.apps()[i].0, pre.apps()[i].1)
            &&& self.kstack().spec_slot() matches Some(cx) && cx.is_initial(
                APP_BASE_ADDRESS,
                pre.ustack().spec_sp() as usize,
            )
            &&& r == Ok::<Action, BatchError>(
                Action::Enter { cx_addr: pre.kstack().spec_slot_addr() as usize },
            )
        }
    }

    /// An executor over `table` and `image`, about to run application 0,
    /// with a zeroed execution window.
    pub fn new(table: AppTable, image: Vec<u8>, kernel_stack: KernelStack, user_stack: UserStack) -> (r: AppManager)
        requires
            ranges_ok(table@, image@.len()),
            kernel_stack.wf(),
            user_stack.wf(),
            stacks_disjoint(kernel_stack, user_stack),
        ensures
            r.wf(),
            r.apps() == table@,
            r.image() == image@,
            r.current() == 0,
            r.window() == Seq::new(APP_SIZE_LIMIT as nat, |k: int| 0u8),
            r.kstack() == kernel_stack,
            r.ustack() == user_stack,
    {
        let mut window: Vec<u8> = Vec::new();
        let mut k: usize = 0;
        while k < APP_SIZE_LIMIT
            invariant
                k <= APP_SIZE_LIMIT,
                window@ == Seq::new(k as nat, |j: int| 0u8),
            decreases APP_SIZE_LIMIT - k,
        {
            window.push(0u8);
            k = k + 1;
            assert(window@ =~= Seq::new(k as nat, |j: int| 0u8));
        }
        AppManager { table, current_app: 0, image, window, kernel_stack, user_stack }
    }

    /// The application table.
    pub fn table(&self) -> (r: &AppTable)
        ensures
            r@ == self.apps(),
    {
        &self.table
    }

    /// Contents of the execution window.
    pub fn window_bytes(&self) -> (r: &Vec<u8>)
        ensures
            r@ == self.window(),
    {
        &self.window
    }

    /// The kernel stack, whose top slot holds the live saved context.
    pub fn kernel_stack(&self) -> (r: &KernelStack)
        ensures
            *r == self.kstack(),
    {
        &self.kernel_stack
    }

    /// The user stack.
    pub fn user_stack(&self) -> (r: &UserStack)
        ensures
            *r == self.ustack(),
    {
        &self.user_stack
    }

    /// Zero-fills the execution window, then copies application `app_id`'s
    /// bytes to its start. An index past the end of the table means every
    /// application has run: nothing is written and the outcome asks for
    /// shutdown. An application larger than the window is refused and
    /// nothing changes.
    pub fn load_app(&mut self, app_id: usize) -> (r: Result<LoadOutcome, BatchError>)
        requires
            old(self).wf(),
        ensures
            final(self).wf(),
            app_id >= old(self).apps().len() ==> r == Ok::<LoadOutcome, BatchError>(
                LoadOutcome::Exhausted,
            ) && *final(self) == *old(self),
            app_id < old(self).apps().len() && old(self).fits(app_id as int) ==> r == Ok::<
                LoadOutcome,
                BatchError,
            >(LoadOutcome::Loaded) && final(self).loaded_from(old(self), app_id as int),
            app_id < old(self).apps().len() && !old(self).fits(app_id as int) ==> r == Err::<
                LoadOutcome,
                BatchError,
            >(BatchError::AppTooLarge { app_id }) && *final(self) == *old(self),
    {
        if app_id >= self.table.count() {
            return Ok(LoadOutcome::Exhausted);
        }
        let (start, end) = self.table.range(app_id);
        assert(self.table@[app_id as int].1 <= self.image@.len());
        let len = end - start;
        if len > APP_SIZE_LIMIT {
            return Err(BatchError::AppTooLarge { app_id });
        }
        let mut k: usize = 0;
        while k < APP_SIZE_LIMIT
            invariant
                k <= APP_SIZE_LIMIT,
                self.window@.len() == APP_SIZE_LIMIT,
                forall|j: int| 0 <= j < k ==> self.window@[j] == 0u8,
                self.table == old(self).table,
                self.image == old(self).image,
                self.current_app == old(self).current_app,
                self.kernel_stack == old(self).kernel_stack,
                self.user_stack == old(self).user_stack,
            decreases APP_SIZE_LIMIT - k,
        {
            self.window.set(k, 0u8);
            k = k + 1;
        }
        let mut k: usize = 0;
        while k < len
            invariant
                k <= len,
                len <= APP_SIZE_LIMIT,
                start + len == end,
                end <= self.image@.len(),
                self.window@.len() == APP_SIZE_LIMIT,
                forall|j: int| 0 <= j < k ==> self.window@[j] == self.image@[start + j],
                self.table == old(self).table,
                self.image == old(self).image,
                self.current_app == old(self).current_app,
                self.kernel_stack == old(self).kernel_stack,
                self.user_stack == old(self).user_stack,
                forall|j: int| len <= j < APP_SIZE_LIMIT ==> self.window@[j] == 0u8,
            decreases len - k,
        {
            let b = self.image[start + k];
            self.window.set(k, b);
            k = k + 1;
        }
        assert(self.window@ =~= loaded_window(self.image@, start, end));
        Ok(LoadOutcome::Loaded)
    }

    /// Index of the active application.
    pub fn get_current_app(&self) -> (r: usize)
        ensures
            r == self.current(),
    {
        self.current_app
    }

    /// Advances to the next application; nothing else changes.
    pub fn move_to_next_app(&mut self)
        requires
            old(self).current() < usize::MAX,
        ensures
            final(self).current() == old(self).current() + 1,
            final(self).apps() == old(self).apps(),
            final(self).image() == old(self).image(),
            final(self).window() == old(self).window(),
            final(self).kstack() == old(self).kstack(),
            final(self).ustack() == old(self).ustack(),
    {
        self.current_app = self.current_app + 1;
    }

    /// Loads the active application and pushes the context that enters it
    /// onto the kernel stack; once the table is exhausted, asks for shutdown.
    pub fn run_current_app(&mut self) -> (r: Result<Action, BatchError>)
        requires
            old(self).wf(),
        ensures
            final(self).wf(),
            final(self).ran(old(self), old(self).current() as int, r),
    {
        if self.load_app(self.current_app)? == LoadOutcome::Exhausted {
            return Ok(Action::Shutdown);
        }
        let cx = TrapContext::app_init_context(APP_BASE_ADDRESS, self.user_stack.get_sp());
        let cx_addr = self.kernel_stack.push_context(cx);
        Ok(Action::Enter { cx_addr })
    }

    /// Advances to the next application and runs it: the index always grows
    /// by one, and once it reaches the count the result is shutdown.
    pub fn run_next_app(&mut self) -> (r: Result<Action, BatchError>)
        requires
            old(self).wf(),
            old(self).current() < usize::MAX,
        ensures
            final(self).wf(),
            final(self).ran(old(self), old(self).current() + 1, r),
    {
        self.move_to_next_app();
        self.run_current_app()
    }
}

/// Whichever application is run, the context that enters it starts at the
/// execution window's base with its stack pointer at the top of the user
/// stack.
pub proof fn lemma_initial_context(post: AppManager, pre: AppManager, i: int, r: Result<Action, BatchError>)
    requires
        pre.wf(),
        post.ran(&pre, i, r),
        0 <= i < pre.apps().len(),
        pre.fits(i),
    ensures
        post.kstack().spec_slot() matches Some(cx) && cx.sepc == APP_BASE_ADDRESS && cx.sp_of()
            == pre.ustack().spec_sp(),
        r == Ok::<Action, BatchError>(Action::Enter { cx_addr: pre.kstack().spec_slot_addr() as usize }),
{
}

/// The context that enters an application does not depend on which one it
/// is: two executors with the same user stack, each running some application
/// that fits the window, push contexts with the same program counter and the
/// same stack pointer.
pub proof fn lemma_initial_context_same_for_every_app(
    post1: AppManager,
    pre1: AppManager,
    i: int,
    r1: Result<Action, BatchError>,
    post2: AppManager,
    pre2: AppManager,
    j: int,
    r2: Result<Action, BatchError>,
)
    requires
        pre1.wf(),
        pre2.wf(),
        pre1.ustack() == pre2.ustack(),
        post1.ran(&pre1, i, r1),
        post2.ran(&pre2, j, r2),
        0 <= i < pre1.apps().len(),
        0 <= j < pre2.apps().len(),
        pre1.fits(i),
        pre2.fits(j),
    ensures
        post1.kstack().spec_slot() matches Some(cx1) && post2.kstack().spec_slot() matches Some(
            cx2,
        ) && cx1.sepc == cx2.sepc && cx1.sp_of() == cx2.sp_of(),
{
    lemma_initial_context(post1, pre1, i, r1);
    lemma_initial_context(post2, pre2, j, r2);
}

/// Two applications run in turn: starting from a fresh executor over a table
/// of two applications that fit the window, running the first, then
/// terminating it and running the second, then terminating that one, loads
/// and enters each in order and ends in shutdown. While the second runs, the
/// window holds its bytes and zeros only, so nothing of the first remains.
pub proof fn lemma_two_apps_in_turn(
    pre: AppManager,
    s0: AppManager,
    r0: Result<Action, BatchError>,
    s1: AppManager,
    r1: Result<Action, BatchError>,
    s2: AppManager,
    r2: Result<Action, BatchError>,
)
    requires
        pre.wf(),
        pre.current() == 0,
        pre.apps().len() == 2,
        pre.fits(0),
        pre.fits(1),
        s0.ran(&pre, 0, r0),
        s1.ran(&s0, 1, r1),
        s2.ran(&s1, 2, r2),
    ensures
        r0 == Ok::<Action, BatchError>(Action::Enter { cx_addr: pre.kstack().spec_slot_addr() as usize }),
        s0.window() == loaded_window(pre.image(), pre.apps()[0].0, pre.apps()[0].1),
        r1 == Ok::<Action, BatchError>(Action::Enter { cx_addr: pre.kstack().spec_slot_addr() as usize }),
        s1.current() == 1,
        s1.window() == loaded_window(pre.image(), pre.apps()[1].0, pre.apps()[1].1),
        r2 == Ok::<Action, BatchError>(Action::Shutdown),
        s2.current() == 2,
        s2.window() == s1.window(),
{
}

} // verus!
