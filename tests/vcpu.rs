use hypercraft::context::{ContextFrame, ContextFrameTrait, GUEST_SPSR};
use hypercraft::vcpu::{GUEST_HCR_EL2, GUEST_SCTLR_EL1, GUEST_VTCR_EL2};
use hypercraft::{HyperError, VCpu, VcpuState, VcpusArray, VmCpus};

#[test]
fn context_frame_accessors() {
    let mut f = ContextFrame::new(0x8000, 0x9000, 7);
    assert_eq!(f.exception_pc(), 0x8000);
    assert_eq!(f.stack_pointer(), 0x9000);
    assert_eq!(f.gpr(0), 7);
    assert_eq!(f.gpr(1), 0);
    f.set_gpr(30, 5);
    f.set_argument(11);
    f.set_exception_pc(0x100);
    f.set_stack_pointer(0x200);
    assert_eq!(f.gpr(30), 5);
    assert_eq!(f.gpr(0), 11);
    assert_eq!(f.exception_pc(), 0x100);
    assert_eq!(f.stack_pointer(), 0x200);
}

#[test]
fn vcpu_init_sets_entry_and_system_registers() {
    let mut v = VCpu::new(0, 1, 1);
    assert_eq!(v.state, VcpuState::Inv);
    v.init(0x4008_0000, 0x4400_0000);
    assert_eq!(v.regs.guest_trap_context_regs.elr, 0x4008_0000);
    assert_eq!(v.get_gpr(0), 0x4400_0000);
    assert_eq!(v.regs.guest_trap_context_regs.spsr, 0x3c5);
    assert_eq!(GUEST_SPSR, 0x3c5);
    assert_eq!(v.regs.vm_system_regs.hcr_el2, 0x8008_0011);
    assert_eq!(GUEST_HCR_EL2, 0x8008_0011);
    assert_eq!(v.regs.vm_system_regs.vtcr_el2, 0x23558);
    assert_eq!(GUEST_VTCR_EL2, 0x23558);
    assert_eq!(v.regs.vm_system_regs.sctlr_el1, GUEST_SCTLR_EL1);
    assert_eq!(v.get_vmpidr(), 0x8000_0001);
    assert_eq!(v.state, VcpuState::Inv);
}

#[test]
fn vcpu_run_marks_running() {
    let mut v = VCpu::new(2, 0, 0);
    v.run(0xabc);
    assert_eq!(v.state, VcpuState::Running);
    assert_eq!(v.regs.vm_system_regs.vttbr_el2, 0xabc);
    v.set_elr(0x10);
    v.set_gpr(3, 33);
    assert_eq!(v.regs.guest_trap_context_regs.elr, 0x10);
    assert_eq!(v.get_gpr(3), 33);
    assert_eq!(v.vcpu_id(), 0);
}

#[test]
fn registry_rejects_second_registration() {
    let mut a = VcpusArray::new();
    assert_eq!(a.add_vcpu(VCpu::new(0, 2, 2)), Ok(()));
    assert_eq!(a.add_vcpu(VCpu::new(0, 2, 5)), Err(HyperError::InvalidParam));
    assert_eq!(a.len(), 1);
    assert_eq!(a.get_vcpu(2).map(|v| v.pcpu_id), Ok(2));
}

#[test]
fn registry_lookup_past_capacity_is_bad_state() {
    let mut a = VcpusArray::new();
    assert_eq!(a.get_vcpu(8).err(), Some(HyperError::BadState));
    assert_eq!(a.get_vcpu(usize::MAX).err(), Some(HyperError::BadState));
    assert_eq!(a.get_vcpu(3).err(), Some(HyperError::NotFound));
    assert_eq!(a.add_vcpu(VCpu::new(0, 8, 0)), Err(HyperError::BadState));
    assert!(a.get_vcpu_ref(9).is_none());
}

#[test]
fn registry_change_in_place() {
    let mut a = VcpusArray::new();
    a.add_vcpu(VCpu::new(0, 0, 0)).unwrap();
    a.get_vcpu(0).unwrap().state = VcpuState::Blocked;
    assert_eq!(a.get_vcpu_ref(0).unwrap().state, VcpuState::Blocked);
}

#[test]
fn vm_cpus_keep_first_registration() {
    let mut s = VmCpus::new();
    assert_eq!(s.add_vcpu(VCpu::new(0, 1, 4)), Ok(()));
    assert_eq!(s.add_vcpu(VCpu::new(0, 1, 6)), Ok(()));
    assert_eq!(s.get_vcpu(1).map(|v| v.pcpu_id), Ok(4));
    assert_eq!(s.add_vcpu(VCpu::new(0, 9, 0)), Err(HyperError::BadState));
    assert_eq!(s.get_vcpu(8).err(), Some(HyperError::BadState));
    assert_eq!(s.get_vcpu(0).err(), Some(HyperError::NotFound));
}

#[test]
fn registry_slot_holds_its_own_index() {
    let mut a = VcpusArray::new();
    a.add_vcpu(VCpu::new(0, 5, 1)).unwrap();
    a.add_vcpu(VCpu::new(0, 0, 2)).unwrap();
    assert_eq!(a.get_vcpu(5).unwrap().vcpu_id, 5);
    assert_eq!(a.get_vcpu_ref(0).unwrap().vcpu_id, 0);
}
