use hypercraft::vgic::VgicCpuPriv;
use hypercraft::vm::EmuDevs;
use hypercraft::vuart::Vuart;
use hypercraft::{GuestPageTableTrait, VCpu, VcpuState, VcpusArray, Vgic, VM};

struct Table(usize);

impl GuestPageTableTrait for Table {
    fn token(&self) -> usize {
        self.0
    }
}

fn vm_with(pcpus: &[(usize, usize)]) -> VM<Table> {
    let mut vcpus = VcpusArray::new();
    for &(vcpu_id, pcpu_id) in pcpus {
        vcpus.add_vcpu(VCpu::new(3, vcpu_id, pcpu_id)).unwrap();
    }
    VM::new(vcpus, Table(0x4_0000), 3).unwrap()
}

#[test]
fn vcpu_mask_maps_to_pcpu_mask() {
    let vm = vm_with(&[(0, 2), (1, 5), (2, 0)]);
    assert_eq!(vm.vcpu_to_pcpu_mask(0b011, 8), (1 << 2) | (1 << 5));
    assert_eq!(vm.vcpu_to_pcpu_mask(0b111, 8), (1 << 2) | (1 << 5) | 1);
    assert_eq!(vm.vcpu_to_pcpu_mask(0b1000, 8), 0);
    assert_eq!(vm.vcpu_to_pcpu_mask(0b111, 1), 1 << 2);
}

#[test]
fn pcpu_mask_maps_to_vcpu_mask() {
    let vm = vm_with(&[(0, 2), (1, 5), (2, 0)]);
    assert_eq!(vm.pcpu_to_vcpu_mask(1 << 5, 8), 1 << 1);
    assert_eq!(vm.pcpu_to_vcpu_mask((1 << 2) | 1, 8), (1 << 0) | (1 << 2));
    assert_eq!(vm.pcpu_to_vcpu_mask(1 << 3, 8), 0);
}

#[test]
fn vm_run_tags_stage2_base_with_vm_id() {
    let mut vm = vm_with(&[(0, 0)]);
    vm.init_vm_vcpus(0x4008_0000, 0x4400_0000);
    assert_eq!(vm.vcpu(0).unwrap().regs.guest_trap_context_regs.elr, 0x4008_0000);
    vm.run(0);
    let v = vm.vcpu(0).unwrap();
    assert_eq!(v.state, VcpuState::Running);
    assert_eq!(v.regs.vm_system_regs.vttbr_el2, (3u64 << 48) | 0x4_0000);
    assert_eq!(vm.vcpu_num(), 1);
    assert!(vm.vcpu(1).is_none());
    assert!(vm.vcpu_mut(9).is_none());
}

#[test]
fn vm_add_and_init_single_vcpu() {
    let mut vm = vm_with(&[]);
    vm.add_vm_vcpu(VCpu::new(3, 4, 1));
    vm.init_vm_vcpu(4, 0x100, 0x200);
    let v = vm.vcpu_mut(4).unwrap();
    assert_eq!(v.get_gpr(0), 0x200);
    v.state = VcpuState::Blocked;
    assert_eq!(vm.vcpu(4).unwrap().state, VcpuState::Blocked);
}

#[test]
fn interrupt_bitmap() {
    let mut vm = vm_with(&[]);
    assert!(!vm.has_interrupt(77));
    vm.set_int_bit_map(77);
    vm.set_int_bit_map(255);
    assert!(vm.has_interrupt(77));
    assert!(vm.has_interrupt(255));
    assert!(!vm.has_interrupt(76));
    assert!(!vm.has_interrupt(13));
    assert!(vm.emu_has_interrupt(0));
    assert!(!vm.emu_has_interrupt(1));
}

#[test]
fn emulated_device_slots() {
    let mut vm = vm_with(&[]);
    vm.set_emu_devs(1, EmuDevs::Vuart(Vuart::new(7)));
    assert_eq!(vm.emu_devs.len(), 2);
    assert!(matches!(vm.emu_devs[0], EmuDevs::Empty));
    let mut vgic = Vgic::default();
    vgic.add_cpu_priv(VgicCpuPriv::default());
    vm.set_emu_devs(0, EmuDevs::Vgic(vgic));
    assert_eq!(vm.vuart().id, 7);
    vm.vuart_mut().ris = 5;
    assert_eq!(vm.vuart().ris, 5);
    vm.vgic_mut().set_vgicd_ctlr(1);
    assert_eq!(vm.vgic().vgicd_ctlr(), 1);
    vm.set_intc_dev_id(0);
    assert_eq!(vm.intc_dev_id, 0);
}
