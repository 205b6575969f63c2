//! The saved context exchanged across the privilege boundary.
use vstd::prelude::*;

verus! {

/// Number of general-purpose registers held in a saved context.
pub const NUM_REGS: usize = 32;

/// Index of the stack pointer among the general-purpose registers.
pub const SP_REG: usize = 2;

/// Size in bytes of a saved context: the registers, the status word and the
/// program counter, each one machine word of eight bytes.
pub const TRAP_CONTEXT_SIZE: usize = (NUM_REGS + 2) * 8;

/// Privilege level that a return from a trap drops to.
#[derive(Clone, Copy, Debug, PartialEq, Eq, Structural)]
pub enum Privilege {
    User,
    Supervisor,
}

/// The status bits needed to re-enter the interrupted privilege level.
#[derive(Clone, Copy, Debug, PartialEq, Eq, Structural)]
pub struct Status {
    /// Level that the return from the trap handler enters.
    pub spp: Privilege,
    /// Whether interrupts are enabled after the return.
    pub spie: bool,
}

/// Registers and control fields that suspend and resume execution across
/// the privilege boundary.
#[derive(Clone, Copy, Debug)]
pub struct TrapContext {
    /// General-purpose registers `x0` to `x31`.
    pub x: [usize; 32],
    /// Status bits of the level to return to.
    pub sstatus: Status,
    /// Program counter at which execution resumes.
    pub sepc: usize,
}

impl TrapContext {
    /// Saved stack pointer of the level to return to.
    pub open spec fn sp_of(self) -> usize {
        self.x@[SP_REG as int]
    }

    /// A context that enters a fresh application at `entry`: every register
    /// zero but the stack pointer `sp`, reduced privilege with interrupts
    /// enabled on return.
    pub open spec fn is_initial(self, entry: usize, sp: usize) -> bool {
        &&& self.sepc == entry
        &&& self.sstatus == (Status { spp: Privilege::User, spie: true })
        &&& self.x@.len() == NUM_REGS
        &&& forall|k: int| 0 <= k < NUM_REGS && k != SP_REG ==> self.x@[k] == 0
        &&& self.sp_of() == sp
    }

    /// Sets the saved stack pointer.
    pub fn set_sp(&mut self, sp: usize)
        ensures
            final(self).sp_of() == sp,
            final(self).sepc == old(self).sepc,
            final(self).sstatus == old(self).sstatus,
            final(self).x@ == old(self).x@.update(SP_REG as int, sp),
    {
        self.x[SP_REG] = sp;
    }

    /// Builds the context that enters a freshly loaded application at `entry`
    /// with its stack pointer at `sp`.
    pub fn app_init_context(entry: usize, sp: usize) -> (r: TrapContext)
        ensures
            r.is_initial(entry, sp),
    {
        let mut cx = TrapContext {
            x: [0usize; 32],
            sstatus: Status { spp: Privilege::User, spie: true },
            sepc: entry,
        };
        cx.set_sp(sp);
        cx
    }
}

} // verus!
