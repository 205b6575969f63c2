//! The two stack regions, one per privilege level.
use vstd::prelude::*;
use crate::config::{KERNEL_STACK_SIZE, STACK_ALIGN, USER_STACK_SIZE};
use crate::context::{TrapContext, TRAP_CONTEXT_SIZE};

verus! {

/// Whether a region of `size` bytes at `base` is aligned and fits in the
/// address space.
pub open spec fn region_ok(base: usize, size: usize) -> bool {
    base % STACK_ALIGN == 0 && base + size <= usize::MAX
}

/// Whether the kernel stack `k` and the user stack `u` occupy disjoint
/// memory: one region ends at or before the other begins.
pub open spec fn stacks_disjoint(k: KernelStack, u: UserStack) -> bool {
    k.spec_sp() <= u.spec_base() || u.spec_sp() <= k.spec_base()
}

/// The stack used while the kernel runs. Its topmost frame is the one slot in
/// which a saved context lives: the entry path writes it there, and the trap
/// path captures into the same place.
pub struct KernelStack {
    base: usize,
    slot: Option<TrapContext>,
}

/// The stack used while an application runs.
pub struct UserStack {
    base: usize,
}

impl KernelStack {
    pub closed spec fn spec_base(&self) -> usize {
        self.base
    }

    /// The saved context currently held in the top slot, if any.
    pub closed spec fn spec_slot(&self) -> Option<TrapContext> {
        self.slot
    }

    pub open spec fn wf(&self) -> bool {
        region_ok(self.spec_base(), KERNEL_STACK_SIZE)
    }

    /// Address one past the highest byte of the region.
    pub open spec fn spec_sp(&self) -> int {
        self.spec_base() + KERNEL_STACK_SIZE
    }

    /// Address of the slot that holds the saved context.
    pub open spec fn spec_slot_addr(&self) -> int {
        self.spec_sp() - TRAP_CONTEXT_SIZE
    }

    /// An empty kernel stack occupying `KERNEL_STACK_SIZE` bytes at `base`.
    pub fn new(base: usize) -> (r: KernelStack)
        requires
            region_ok(base, KERNEL_STACK_SIZE),
        ensures
            r.wf(),
            r.spec_base() == base,
            r.spec_slot() is None,
    {
        KernelStack { base, slot: None }
    }

    /// Address of the region's first byte.
    pub fn base(&self) -> (r: usize)
        ensures
            r == self.spec_base(),
    {
        self.base
    }

    /// The saved context currently held in the top slot, if any.
    pub fn top_context(&self) -> (r: Option<TrapContext>)
        ensures
            r == self.spec_slot(),
    {
        self.slot
    }

    /// Top of the stack: one past its highest byte.
    fn get_sp(&self) -> (r: usize)
        requires
            self.wf(),
        ensures
            r == self.spec_sp(),
    {
        self.base + KERNEL_STACK_SIZE
    }

    /// Writes `cx` into the slot just below the top of the stack and returns
    /// the slot's address. Whatever the slot held before is overwritten.
    pub fn push_context(&mut self, cx: TrapContext) -> (r: usize)
        requires
            old(self).wf(),
        ensures
            final(self).wf(),
            final(self).spec_base() == old(self).spec_base(),
            final(self).spec_slot() == Some(cx),
            r == old(self).spec_slot_addr(),
    {
        let sp = self.get_sp();
        self.slot = Some(cx);
        sp - TRAP_CONTEXT_SIZE
    }
}

impl UserStack {
    pub closed spec fn spec_base(&self) -> usize {
        self.base
    }

    pub open spec fn wf(&self) -> bool {
        region_ok(self.spec_base(), USER_STACK_SIZE)
    }

    /// Address one past the highest byte of the region.
    pub open spec fn spec_sp(&self) -> int {
        self.spec_base() + USER_STACK_SIZE
    }

    /// A user stack occupying `USER_STACK_SIZE` bytes at `base`.
    pub fn new(base: usize) -> (r: UserStack)
        requires
            region_ok(base, USER_STACK_SIZE),
        ensures
            r.wf(),
            r.spec_base() == base,
    {
        UserStack { base }
    }

    /// Address of the region's first byte.
    pub fn base(&self) -> (r: usize)
        ensures
            r == self.spec_base(),
    {
        self.base
    }

    /// Top of the stack: one past its highest byte.
    pub fn get_sp(&self) -> (r: usize)
        requires
            self.wf(),
        ensures
            r == self.spec_sp(),
    {
        self.base + USER_STACK_SIZE
    }
}

} // verus!
