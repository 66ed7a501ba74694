//! A virtual CPU: identity, register state and run state.

use vstd::prelude::*;
use crate::context::{
    ContextFrame, ContextFrameTrait, VmContext, CONTEXT_GPR_NUM, GUEST_SPSR,
};

verus! {

/// HCR_EL2.VM: stage-2 translation enabled.
pub const HCR_EL2_VM: u64 = 0x1;

/// HCR_EL2.IMO: physical IRQs routed to EL2, virtual IRQs enabled.
pub const HCR_EL2_IMO: u64 = 0x10;

/// HCR_EL2.TSC: guest SMC instructions trap to EL2.
pub const HCR_EL2_TSC: u64 = 0x8_0000;

/// HCR_EL2.RW: EL1 runs in AArch64.
pub const HCR_EL2_RW: u64 = 0x8000_0000;

/// Hypervisor configuration of a guest: stage-2 translation, AArch64 EL1,
/// virtual IRQs, and SMC trapped.
pub const GUEST_HCR_EL2: u64 = 0x8008_0011;

/// Stage-2 translation control of a guest: 40-bit physical addresses, 4 KiB
/// granule, inner shareable, write-back cacheable walks, start at level 1,
/// 40-bit input addresses.
pub const GUEST_VTCR_EL2: u64 = 0x23558;

/// System control register value a guest starts with.
pub const GUEST_SCTLR_EL1: u64 = 0x30C5_0830;

/// VMPIDR_EL2 bit 31, which reads as one.
pub const VMPIDR_RES1: u64 = 0x8000_0000;

/// Run state of a vCPU.
#[derive(Clone, Copy, Debug, PartialEq, Eq, Structural)]
pub enum VcpuState {
    /// Not started.
    Inv,
    /// Ready to run.
    Runnable,
    /// Running on its physical CPU.
    Running,
    /// Powered off or waiting.
    Blocked,
}

/// Register state saved and restored when entering or leaving a guest.
#[derive(Clone, Copy, Debug)]
pub struct VmCpuRegisters {
    /// Guest frame saved at a trap.
    pub guest_trap_context_regs: ContextFrame,
    /// Host frame saved while the guest runs.
    pub save_for_os_context_regs: ContextFrame,
    /// Virtualized system registers.
    pub vm_system_regs: VmContext,
}

impl VmCpuRegisters {
    /// Register state with every register zero.
    pub fn default() -> (r: VmCpuRegisters)
        ensures
            r.guest_trap_context_regs.is_zero(),
            r.save_for_os_context_regs.is_zero(),
            r.vm_system_regs == VmContext::zeroed_spec(),
    {
        VmCpuRegisters {
            guest_trap_context_regs: ContextFrame::zeroed(),
            save_for_os_context_regs: ContextFrame::zeroed(),
            vm_system_regs: VmContext::zeroed(),
        }
    }
}

/// A virtual CPU of a guest.
#[derive(Debug)]
pub struct VCpu {
    /// Index of the vCPU within its VM.
    pub vcpu_id: usize,
    /// Owning VM.
    pub vm_id: usize,
    /// The one physical CPU allowed to run this vCPU.
    pub pcpu_id: usize,
    /// Register state.
    pub regs: VmCpuRegisters,
    /// Run state.
    pub state: VcpuState,
}

/// The affinity value a guest reads for vCPU `vcpu_id`.
pub open spec fn vmpidr_of(vcpu_id: usize) -> u64 {
    (VMPIDR_RES1 | (vcpu_id as u64)) as u64
}

/// `new` is `old` prepared to enter its guest at `entry` with `dtb` in x0:
/// identity, run state, host frame, stack pointer and the other
/// general-purpose registers kept; processor state EL1h, all masked; the
/// system registers a fresh guest starts with, the stage-2 base kept.
pub open spec fn is_init_of(old: VCpu, new: VCpu, entry: usize, dtb: usize) -> bool {
    &&& new.vcpu_id == old.vcpu_id
    &&& new.vm_id == old.vm_id
    &&& new.pcpu_id == old.pcpu_id
    &&& new.state == old.state
    &&& new.regs.save_for_os_context_regs == old.regs.save_for_os_context_regs
    &&& new.regs.guest_trap_context_regs.elr == entry
    &&& new.regs.guest_trap_context_regs.gpr@ == old.regs.guest_trap_context_regs.gpr@.update(0, dtb)
    &&& new.regs.guest_trap_context_regs.spsr == GUEST_SPSR
    &&& new.regs.guest_trap_context_regs.sp == old.regs.guest_trap_context_regs.sp
    &&& new.regs.vm_system_regs == (VmContext {
        cntvoff_el2: 0,
        cntkctl_el1: 0,
        sctlr_el1: GUEST_SCTLR_EL1,
        pmcr_el0: 0,
        vtcr_el2: GUEST_VTCR_EL2,
        vttbr_el2: old.regs.vm_system_regs.vttbr_el2,
        hcr_el2: GUEST_HCR_EL2,
        vmpidr_el2: vmpidr_of(old.vcpu_id),
    })
}

/// `v` running under the stage-2 table `vttbr`.
pub open spec fn running(v: VCpu, vttbr: usize) -> VCpu {
    VCpu {
        state: VcpuState::Running,
        regs: VmCpuRegisters {
            vm_system_regs: VmContext { vttbr_el2: vttbr as u64, ..v.regs.vm_system_regs },
            ..v.regs
        },
        ..v
    }
}

impl VCpu {
    /// A vCPU in state `Inv` with all registers zero.
    pub fn new(vm_id: usize, id: usize, pcpu_id: usize) -> (r: Self)
        ensures
            r.vcpu_id == id,
            r.vm_id == vm_id,
            r.pcpu_id == pcpu_id,
            r.state == VcpuState::Inv,
            r.regs.guest_trap_context_regs.is_zero(),
            r.regs.save_for_os_context_regs.is_zero(),
            r.regs.vm_system_regs == VmContext::zeroed_spec(),
    {
        VCpu { vcpu_id: id, vm_id, pcpu_id, regs: VmCpuRegisters::default(), state: VcpuState::Inv }
    }

    /// Prepares the vCPU to enter its guest at `kernel_entry_point` with the
    /// device tree address in x0: EL1h with all exceptions masked, and the
    /// system registers a fresh guest starts with.
    pub fn init(&mut self, kernel_entry_point: usize, device_tree_ipa: usize)
        ensures
            is_init_of(*old(self), *final(self), kernel_entry_point, device_tree_ipa),
    {
        self.vcpu_arch_init(kernel_entry_point, device_tree_ipa);
        self.init_vm_context();
    }

    /// Index of the vCPU within its VM.
    pub fn vcpu_id(&self) -> (r: usize)
        ensures
            r == self.vcpu_id,
    {
        self.vcpu_id
    }

    /// Marks the vCPU running under the stage-2 table `vttbr_token`; the
    /// caller then loads the system registers and enters the guest frame.
    pub fn run(&mut self, vttbr_token: usize)
        ensures
            *final(self) == running(*old(self), vttbr_token),
    {
        self.regs.vm_system_regs.vttbr_el2 = vttbr_token as u64;
        self.state = VcpuState::Running;
    }

    /// Sets the address the guest resumes at.
    pub fn set_elr(&mut self, elr: usize)
        ensures
            final(self).regs.guest_trap_context_regs == (ContextFrame {
                elr,
                ..old(self).regs.guest_trap_context_regs
            }),
            final(self).regs.save_for_os_context_regs == old(self).regs.save_for_os_context_regs,
            final(self).regs.vm_system_regs == old(self).regs.vm_system_regs,
            final(self).vcpu_id == old(self).vcpu_id,
            final(self).vm_id == old(self).vm_id,
            final(self).pcpu_id == old(self).pcpu_id,
            final(self).state == old(self).state,
    {
        self.regs.guest_trap_context_regs.elr = elr;
    }

    /// General-purpose register `idx` of the guest frame.
    pub fn get_gpr(&self, idx: usize) -> (r: usize)
        requires
            idx < CONTEXT_GPR_NUM,
        ensures
            r == self.regs.guest_trap_context_regs.gpr@[idx as int],
    {
        self.regs.guest_trap_context_regs.gpr(idx)
    }

    /// Sets general-purpose register `idx` of the guest frame.
    pub fn set_gpr(&mut self, idx: usize, val: usize)
        requires
            idx < CONTEXT_GPR_NUM,
        ensures
            final(self).regs.guest_trap_context_regs.gpr@ == old(self).regs.guest_trap_context_regs.gpr@.update(idx as int, val),
            final(self).regs.guest_trap_context_regs.elr
                == old(self).regs.guest_trap_context_regs.elr,
            final(self).regs.guest_trap_context_regs.sp
                == old(self).regs.guest_trap_context_regs.sp,
            final(self).regs.guest_trap_context_regs.spsr
                == old(self).regs.guest_trap_context_regs.spsr,
            final(self).regs.save_for_os_context_regs == old(self).regs.save_for_os_context_regs,
            final(self).regs.vm_system_regs == old(self).regs.vm_system_regs,
            final(self).vcpu_id == old(self).vcpu_id,
            final(self).vm_id == old(self).vm_id,
            final(self).pcpu_id == old(self).pcpu_id,
            final(self).state == old(self).state,
    {
        self.regs.guest_trap_context_regs.gpr[idx] = val;
    }

    /// Fills the system-register block a fresh guest starts with.
    fn init_vm_context(&mut self)
        ensures
            final(self).regs.vm_system_regs == (VmContext {
                cntvoff_el2: 0,
                cntkctl_el1: 0,
                sctlr_el1: GUEST_SCTLR_EL1,
                pmcr_el0: 0,
                vtcr_el2: GUEST_VTCR_EL2,
                vttbr_el2: old(self).regs.vm_system_regs.vttbr_el2,
                hcr_el2: GUEST_HCR_EL2,
                vmpidr_el2: vmpidr_of(old(self).vcpu_id),
            }),
            final(self).regs.guest_trap_context_regs == old(self).regs.guest_trap_context_regs,
            final(self).regs.save_for_os_context_regs == old(self).regs.save_for_os_context_regs,
            final(self).vcpu_id == old(self).vcpu_id,
            final(self).vm_id == old(self).vm_id,
            final(self).pcpu_id == old(self).pcpu_id,
            final(self).state == old(self).state,
    {
        self.regs.vm_system_regs.cntvoff_el2 = 0;
        self.regs.vm_system_regs.cntkctl_el1 = 0;
        self.regs.vm_system_regs.sctlr_el1 = GUEST_SCTLR_EL1;
        self.regs.vm_system_regs.pmcr_el0 = 0;
        self.regs.vm_system_regs.vtcr_el2 = GUEST_VTCR_EL2;
        let hcr = HCR_EL2_VM | HCR_EL2_RW | HCR_EL2_IMO;
        assert(hcr | HCR_EL2_TSC == GUEST_HCR_EL2) by (bit_vector)
            requires
                hcr == 0x1u64 | 0x8000_0000u64 | 0x10u64,
        ;
        self.regs.vm_system_regs.hcr_el2 = hcr | HCR_EL2_TSC;
        let vmpidr: u64 = VMPIDR_RES1 | (self.vcpu_id as u64);
        self.regs.vm_system_regs.vmpidr_el2 = vmpidr;
    }

    /// Points the guest frame at `kernel_entry_point` with the device tree
    /// address in x0 and the guest's starting processor state.
    fn vcpu_arch_init(&mut self, kernel_entry_point: usize, device_tree_ipa: usize)
        ensures
            final(self).regs.guest_trap_context_regs.elr == kernel_entry_point,
            final(self).regs.guest_trap_context_regs.gpr@ == old(self).regs.guest_trap_context_regs.gpr@.update(0, device_tree_ipa),
            final(self).regs.guest_trap_context_regs.spsr == GUEST_SPSR,
            final(self).regs.guest_trap_context_regs.sp
                == old(self).regs.guest_trap_context_regs.sp,
            final(self).regs.save_for_os_context_regs == old(self).regs.save_for_os_context_regs,
            final(self).regs.vm_system_regs == old(self).regs.vm_system_regs,
            final(self).vcpu_id == old(self).vcpu_id,
            final(self).vm_id == old(self).vm_id,
            final(self).pcpu_id == old(self).pcpu_id,
            final(self).state == old(self).state,
    {
        self.set_gpr(0, device_tree_ipa);
        self.set_elr(kernel_entry_point);
        self.regs.guest_trap_context_regs.spsr = GUEST_SPSR;
    }

    /// The affinity value the guest reads as its MPIDR.
    pub fn get_vmpidr(&self) -> (r: usize)
        ensures
            r == self.regs.vm_system_regs.vmpidr_el2 as usize,
    {
        self.regs.vm_system_regs.vmpidr_el2 as usize
    }
}

} // verus!
