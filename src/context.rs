//! Register frames of a vCPU: the trapped general-purpose frame and the
//! virtualized system-register block.

use vstd::prelude::*;

verus! {

/// Number of general-purpose registers x0..x30 held in a frame.
pub const CONTEXT_GPR_NUM: usize = 31;

/// SPSR mode field value for EL1 using SP_EL1 (EL1h).
pub const SPSR_EL1_M_EL1H: u64 = 0b0101;

/// SPSR FIQ mask bit.
pub const SPSR_EL1_F_MASKED: u64 = 1 << 6;

/// SPSR IRQ mask bit.
pub const SPSR_EL1_I_MASKED: u64 = 1 << 7;

/// SPSR SError mask bit.
pub const SPSR_EL1_A_MASKED: u64 = 1 << 8;

/// SPSR debug mask bit.
pub const SPSR_EL1_D_MASKED: u64 = 1 << 9;

/// Processor state a guest starts in: EL1h with D, A, I and F masked.
pub const GUEST_SPSR: u64 = 0x3c5;

/// Access to a trapped register frame: program counter, stack pointer and
/// the general-purpose registers x0..x30.
pub trait ContextFrameTrait: Sized {
    /// The exception return address held in the frame.
    spec fn pc_of(&self) -> usize;

    /// The stack pointer held in the frame.
    spec fn sp_of(&self) -> usize;

    /// General-purpose register `index` held in the frame.
    spec fn gpr_of(&self, index: int) -> usize;

    /// A frame that resumes at `pc` with stack `sp` and `arg` in x0, the
    /// other general-purpose registers zero.
    fn new(pc: usize, sp: usize, arg: usize) -> (r: Self)
        ensures
            r.pc_of() == pc,
            r.sp_of() == sp,
            r.gpr_of(0) == arg,
            forall|i: int| 1 <= i < CONTEXT_GPR_NUM ==> #[trigger] r.gpr_of(i) == 0,
    ;

    /// The exception return address.
    fn exception_pc(&self) -> (r: usize)
        ensures
            r == self.pc_of(),
    ;

    /// Sets the exception return address.
    fn set_exception_pc(&mut self, pc: usize)
        ensures
            final(self).pc_of() == pc,
            final(self).sp_of() == old(self).sp_of(),
            forall|i: int| #[trigger] final(self).gpr_of(i) == old(self).gpr_of(i),
    ;

    /// The stack pointer.
    fn stack_pointer(&self) -> (r: usize)
        ensures
            r == self.sp_of(),
    ;

    /// Sets the stack pointer.
    fn set_stack_pointer(&mut self, sp: usize)
        ensures
            final(self).sp_of() == sp,
            final(self).pc_of() == old(self).pc_of(),
            forall|i: int| #[trigger] final(self).gpr_of(i) == old(self).gpr_of(i),
    ;

    /// Sets the argument register x0.
    fn set_argument(&mut self, arg: usize)
        ensures
            final(self).gpr_of(0) == arg,
            final(self).pc_of() == old(self).pc_of(),
            final(self).sp_of() == old(self).sp_of(),
            forall|i: int|
                0 < i < CONTEXT_GPR_NUM ==> #[trigger] final(self).gpr_of(i) == old(self).gpr_of(i),
    ;

    /// Sets general-purpose register `index`.
    fn set_gpr(&mut self, index: usize, val: usize)
        requires
            index < CONTEXT_GPR_NUM,
        ensures
            final(self).gpr_of(index as int) == val,
            final(self).pc_of() == old(self).pc_of(),
            final(self).sp_of() == old(self).sp_of(),
            forall|i: int|
                0 <= i < CONTEXT_GPR_NUM && i != index ==> #[trigger] final(self).gpr_of(i)
                    == old(self).gpr_of(i),
    ;

    /// General-purpose register `index`.
    fn gpr(&self, index: usize) -> (r: usize)
        requires
            index < CONTEXT_GPR_NUM,
        ensures
            r == self.gpr_of(index as int),
    ;
}

/// The general-purpose frame saved when a guest traps, and restored when it
/// is entered.
#[derive(Clone, Copy, Debug)]
pub struct ContextFrame {
    /// x0..x30.
    pub gpr: [usize; 31],
    /// Saved processor state.
    pub spsr: u64,
    /// Exception return address.
    pub elr: usize,
    /// Stack pointer.
    pub sp: usize,
}

impl ContextFrame {
    /// Whether every register of the frame is zero.
    pub open spec fn is_zero(&self) -> bool {
        &&& self.spsr == 0
        &&& self.elr == 0
        &&& self.sp == 0
        &&& forall|i: int| 0 <= i < CONTEXT_GPR_NUM ==> #[trigger] self.gpr@[i] == 0
    }

    /// A frame with every register zero.
    pub fn zeroed() -> (r: Self)
        ensures
            r.is_zero(),
    {
        ContextFrame { gpr: [0; 31], spsr: 0, elr: 0, sp: 0 }
    }
}

impl ContextFrameTrait for ContextFrame {
    open spec fn pc_of(&self) -> usize {
        self.elr
    }

    open spec fn sp_of(&self) -> usize {
        self.sp
    }

    open spec fn gpr_of(&self, index: int) -> usize {
        self.gpr@[index]
    }

    fn new(pc: usize, sp: usize, arg: usize) -> (r: Self) {
        let mut r = ContextFrame { gpr: [0; 31], spsr: GUEST_SPSR, elr: pc, sp };
        r.gpr[0] = arg;
        r
    }

    fn exception_pc(&self) -> (r: usize) {
        self.elr
    }

    fn set_exception_pc(&mut self, pc: usize) {
        self.elr = pc;
    }

    fn stack_pointer(&self) -> (r: usize) {
        self.sp
    }

    fn set_stack_pointer(&mut self, sp: usize) {
        self.sp = sp;
    }

    fn set_argument(&mut self, arg: usize) {
        self.gpr[0] = arg;
    }

    fn set_gpr(&mut self, index: usize, val: usize) {
        self.gpr[index] = val;
    }

    fn gpr(&self, index: usize) -> (r: usize) {
        self.gpr[index]
    }
}

/// The virtualized system registers of a guest, loaded into hardware when
/// the guest is entered.
#[derive(Clone, Copy, Debug)]
pub struct VmContext {
    /// Virtual counter offset.
    pub cntvoff_el2: u64,
    /// Kernel timer control.
    pub cntkctl_el1: u64,
    /// System control.
    pub sctlr_el1: u64,
    /// Performance monitors control.
    pub pmcr_el0: u64,
    /// Stage-2 translation control.
    pub vtcr_el2: u64,
    /// Stage-2 translation table base.
    pub vttbr_el2: u64,
    /// Hypervisor configuration.
    pub hcr_el2: u64,
    /// Affinity the guest reads as its MPIDR.
    pub vmpidr_el2: u64,
}

impl VmContext {
    /// The block with every register zero.
    pub open spec fn zeroed_spec() -> VmContext {
        VmContext {
            cntvoff_el2: 0,
            cntkctl_el1: 0,
            sctlr_el1: 0,
            pmcr_el0: 0,
            vtcr_el2: 0,
            vttbr_el2: 0,
            hcr_el2: 0,
            vmpidr_el2: 0,
        }
    }

    /// A block with every register zero.
    pub fn zeroed() -> (r: Self)
        ensures
            r.cntvoff_el2 == 0,
            r.cntkctl_el1 == 0,
            r.sctlr_el1 == 0,
            r.pmcr_el0 == 0,
            r.vtcr_el2 == 0,
            r.vttbr_el2 == 0,
            r.hcr_el2 == 0,
            r.vmpidr_el2 == 0,
            r == Self::zeroed_spec(),
    {
        VmContext {
            cntvoff_el2: 0,
            cntkctl_el1: 0,
            sctlr_el1: 0,
            pmcr_el0: 0,
            vtcr_el2: 0,
            vttbr_el2: 0,
            hcr_el2: 0,
            vmpidr_el2: 0,
        }
    }
}

} // verus!
