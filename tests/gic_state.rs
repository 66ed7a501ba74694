use hypercraft::gic::GicState;
use hypercraft::vgic::{VgicCpuPriv, Vgicr};

#[test]
fn gic_state_reset_values() {
    // ICH_VTR_EL2.PRIbits = 0b100 -> 5 priority bits
    let g = GicState::default_from_vtr(0b100 << 29);
    assert_eq!(g.nr_prio, 5);
    assert_eq!(g.pmr, 0xff);
    assert_eq!(g.ctlr, 0x2);
    assert_eq!(g.igrpen1, 1);
    assert_eq!(g.hcr, 0b101);
    assert_eq!(g.priv_ipriorityr, [u32::MAX; 8]);
    assert_eq!(g.apr_regs(), 1);
    let g7 = GicState::default_from_vtr((0b110 << 29) | 0x1f);
    assert_eq!(g7.nr_prio, 7);
    assert_eq!(g7.apr_regs(), 3);
}

#[test]
fn gic_state_saves_used_priority_registers() {
    let mut g = GicState::default_from_vtr(0b101 << 29);
    assert_eq!(g.nr_prio, 6);
    g.save_state(0x7, 0x42, [1, 2, 3], [4, 5, 6], &vec![10, 11, 12], 1);
    assert_eq!(g.hcr, 0x7);
    assert_eq!(g.vmcr, 0x42);
    assert_eq!(g.sre_el1, 1);
    assert_eq!(g.apr0, [1, 2, 0, 0]);
    assert_eq!(g.apr1, [4, 5, 0, 0]);
    assert_eq!(&g.lr[..4], &[10, 11, 12, 0]);
    assert_eq!(g.restore_aprn_regs(), vec![(1, 2, 5), (0, 1, 4)]);
}

#[test]
fn redistributor_registers() {
    let mut r = Vgicr::new(0x1_0000_0001, 3, 4);
    assert_eq!(r.get_typer(), 0x1_0000_0001);
    r.set_typer(9);
    assert_eq!(r.get_typer(), 9);
    assert_eq!((r.cltr, r.iidr), (3, 4));
    let d = Vgicr::default();
    assert_eq!((d.typer, d.cltr, d.iidr), (0, 0, 0));
    let p = VgicCpuPriv::new(5, 6, 7);
    assert_eq!(p.vgicr.get_typer(), 5);
    assert!(p.pend_list.is_empty());
}
