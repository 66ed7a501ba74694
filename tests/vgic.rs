use hypercraft::vgic::{VgicIntPhys, GICD_IROUTER_INV};
use hypercraft::gic::GIC_PRIVATE_INT_NUM;
use hypercraft::vgic::{scan_list_regs, InjectOutcome, VgicCpuPriv, VgicInt};
use hypercraft::{IrqState, VCpu, Vgic};

fn one_cpu_vgic() -> Vgic {
    let owner = VCpu::new(0, 0, 0);
    let mut cpu = VgicCpuPriv::default();
    for i in 0..GIC_PRIVATE_INT_NUM {
        cpu.interrupts.push(VgicInt::priv_new(i, &owner, 1, true));
    }
    let mut vgic = Vgic::default();
    vgic.add_cpu_priv(cpu);
    for j in 0..4 {
        vgic.add_shared_interrupt(VgicInt::new(j));
    }
    vgic
}

fn lr_value(id: u32) -> u32 {
    id | (id << 10) | (1 << 28) | (1 << 31)
}

#[test]
fn new_interrupts_have_expected_fields() {
    let s = VgicInt::new(3);
    assert_eq!(s.id(), 35);
    assert_eq!(s.get_priority(), 0xff);
    assert!(s.owner().is_none());
    let owner = VCpu::new(2, 1, 3);
    let p = VgicInt::priv_new(5, &owner, 0b10, true);
    assert_eq!(p.id(), 5);
    assert_eq!(p.owner_id(), Some(1));
    assert_eq!(p.owner_vm_id(), Some(2));
    assert_eq!(p.owner_phys_id(), Some(3));
    assert_eq!(p.targets(), 0b10);
    assert!(p.enabled());
    assert_eq!(p.state(), IrqState::IrqSInactive);
}

#[test]
fn pending_state_lists_interrupt() {
    let mut vgic = one_cpu_vgic();
    assert_eq!(vgic.int_list_head(0, true), None);
    vgic.set_int_state(0, 5, IrqState::IrqSPend);
    assert_eq!(vgic.int_list_head(0, true), Some(5));
    assert_eq!(vgic.int_list_head(0, false), None);
    assert!(vgic.cpu_priv_interrupt(0, 5).in_pend());
    vgic.set_int_state(0, 33, IrqState::IrqSPendActive);
    assert_eq!(vgic.int_list_head(0, true), Some(5));
    assert_eq!(vgic.int_list_head(0, false), Some(33));
    assert!(vgic.vgicd_interrupt(1).in_pend());
    assert!(vgic.vgicd_interrupt(1).in_act());
}

#[test]
fn cleared_state_unlists_interrupt() {
    let mut vgic = one_cpu_vgic();
    vgic.set_int_state(0, 5, IrqState::IrqSPend);
    vgic.set_int_state(0, 7, IrqState::IrqSPend);
    vgic.set_int_state(0, 5, IrqState::IrqSActive);
    assert_eq!(vgic.int_list_head(0, true), Some(7));
    assert_eq!(vgic.int_list_head(0, false), Some(5));
    assert!(!vgic.cpu_priv_interrupt(0, 5).in_pend());
    vgic.set_int_state(0, 5, IrqState::IrqSInactive);
    vgic.set_int_state(0, 7, IrqState::IrqSInactive);
    assert_eq!(vgic.int_list_head(0, true), None);
    assert_eq!(vgic.int_list_head(0, false), None);
}

#[test]
fn update_twice_keeps_one_entry() {
    let mut vgic = one_cpu_vgic();
    vgic.set_int_state(0, 9, IrqState::IrqSPend);
    vgic.update_int_list(0, 9);
    vgic.update_int_list(0, 9);
    vgic.set_int_state(0, 9, IrqState::IrqSInactive);
    assert_eq!(vgic.int_list_head(0, true), None);
}

#[test]
fn scan_allocates_first_empty_register() {
    let lrs = vec![0u32; 4];
    let r = scan_list_regs(0b1111, &lrs, 27);
    assert_eq!(r, InjectOutcome::Allocated { lr: 0, value: lr_value(27) });
    let r = scan_list_regs(0b1100, &vec![lr_value(1), lr_value(2), 0, 0], 27);
    assert_eq!(r, InjectOutcome::Allocated { lr: 2, value: lr_value(27) });
}

#[test]
fn inject_twice_is_noop() {
    let mut lrs = vec![0u32; 4];
    let mut elrsr: u64 = 0b1111;
    let first = scan_list_regs(elrsr, &lrs, 40);
    let (lr, value) = match first {
        InjectOutcome::Allocated { lr, value } => (lr, value),
        other => panic!("unexpected {:?}", other),
    };
    lrs[lr] = value;
    elrsr &= !(1u64 << lr);
    assert_eq!(scan_list_regs(elrsr, &lrs, 40), InjectOutcome::Resident { lr });
    assert_eq!(scan_list_regs(elrsr, &lrs, 41), InjectOutcome::Allocated { lr: 1, value: lr_value(41) });
}

#[test]
fn inject_with_full_bank_drops() {
    let lrs = vec![lr_value(1), lr_value(2)];
    assert_eq!(scan_list_regs(0, &lrs, 3), InjectOutcome::Dropped);
    assert_eq!(scan_list_regs(0, &lrs, 2), InjectOutcome::Resident { lr: 1 });
}

#[test]
fn vgic_inject_records_residency() {
    let mut vgic = one_cpu_vgic();
    vgic.set_int_state(0, 34, IrqState::IrqSPend);
    let lrs = vec![0u32; 4];
    let r = vgic.inject_irq(0, 34, 0b1111, &lrs);
    assert_eq!(r, InjectOutcome::Allocated { lr: 0, value: lr_value(34) });
    let rec = vgic.vgicd_interrupt(2);
    assert!(rec.in_lr());
    assert_eq!(rec.lr(), 0);
    assert!(!rec.in_pend());
    assert_eq!(vgic.int_list_head(0, true), None);
    assert_eq!(vgic.cpu_priv_curr_lrs(0, 0), 34);
}

#[test]
fn vgic_inject_full_bank_keeps_pending() {
    let mut vgic = one_cpu_vgic();
    vgic.set_int_state(0, 6, IrqState::IrqSPend);
    let lrs = vec![lr_value(1), lr_value(2)];
    let r = vgic.inject_irq(0, 6, 0, &lrs);
    assert_eq!(r, InjectOutcome::Dropped);
    assert_eq!(vgic.int_list_head(0, true), Some(6));
    let rec = vgic.cpu_priv_interrupt(0, 6);
    assert!(rec.in_pend());
    assert!(!rec.in_lr());
    assert_eq!(rec.state(), IrqState::IrqSPend);
}

#[test]
fn vgic_registers_and_sgis() {
    let mut vgic = one_cpu_vgic();
    vgic.set_vgicd_ctlr(1);
    assert_eq!(vgic.vgicd_ctlr(), 1);
    assert_eq!(vgic.vgicd_typer(), 0);
    assert_eq!(vgic.vgicd_iidr(), 0);
    vgic.set_cpu_priv_sgis_pend(0, 3, 0b101);
    vgic.set_cpu_priv_sgis_act(0, 3, 0b10);
    assert_eq!(vgic.cpu_priv_sgis_pend(0, 3), 0b101);
    assert_eq!(vgic.cpu_priv_sgis_act(0, 3), 0b10);
    vgic.set_cpu_priv_curr_lrs(0, 5, 77);
    assert_eq!(vgic.cpu_priv_curr_lrs(0, 5), 77);
}

#[test]
fn valid_ids_cover_banks_and_shared() {
    let vgic = one_cpu_vgic();
    assert!(vgic.is_valid_id(0, 0));
    assert!(vgic.is_valid_id(0, 31));
    assert!(vgic.is_valid_id(0, 35));
    assert!(!vgic.is_valid_id(0, 36));
    assert!(!vgic.is_valid_id(1, 3));
}

#[test]
fn removal_keeps_fifo_order() {
    let mut vgic = one_cpu_vgic();
    for id in [3u16, 4, 5, 6] {
        vgic.set_int_state(0, id, IrqState::IrqSPend);
    }
    vgic.set_int_state(0, 3, IrqState::IrqSInactive);
    assert_eq!(vgic.int_list_head(0, true), Some(4));
    vgic.set_int_state(0, 5, IrqState::IrqSInactive);
    vgic.set_int_state(0, 4, IrqState::IrqSInactive);
    assert_eq!(vgic.int_list_head(0, true), Some(6));
    vgic.set_int_state(0, 6, IrqState::IrqSInactive);
    assert_eq!(vgic.int_list_head(0, true), None);
}

#[test]
fn gicv3_routing_fields() {
    let mut s = VgicInt::new(0);
    assert_eq!(s.route(), GICD_IROUTER_INV);
    assert_eq!(s.phys_route(), GICD_IROUTER_INV);
    s.set_route(0x1_0000_0102);
    s.set_phys_route(0x3);
    assert_eq!(s.route(), 0x1_0000_0102);
    assert_eq!(s.phys, VgicIntPhys::Route(3));
    s.set_phys_redist(7);
    assert_eq!(s.phys_redist(), 7);
    let owner = VCpu::new(0, 2, 2);
    let p = VgicInt::priv_new_with_redist(16, &owner, 1, true, 2, 0b10);
    assert_eq!(p.phys_redist(), 2);
    assert_eq!(p.cfg(), 0b10);
    assert_eq!(p.owner_id(), Some(2));
}
