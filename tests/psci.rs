use hypercraft::cpu::per_cpu_pages;
use hypercraft::ipi::{ipi_send_msg, CpuIf, IpiInnerMsg, IpiPowerMessage, IpiType, PowerEvent};
use hypercraft::psci::{
    ipi_irq_handler, psci_guest_cpu_on, smc_guest_handler, PowerOutcome, PsciReply,
    PSCI_AFFINITY_INFO_64, PSCI_CPU_ON_64, PSCI_FEATURES, PSCI_MIGRATE_INFO_TYPE,
    PSCI_RET_INVALID_PARAMS, PSCI_RET_NOT_SUPPORTED, PSCI_SYSTEM_OFF, PSCI_SYSTEM_RESET,
    PSCI_VERSION,
};
use hypercraft::{HyperError, PerCpu, PerCpuSet, VCpu, VcpuState};

fn queues(n: usize) -> Vec<CpuIf> {
    (0..n).map(|_| CpuIf::new()).collect()
}

#[test]
fn psci_ids_match_smccc() {
    assert_eq!(PSCI_VERSION, smccc::psci::PSCI_VERSION);
    assert_eq!(PSCI_CPU_ON_64, smccc::psci::PSCI_CPU_ON_64);
    assert_eq!(PSCI_FEATURES, smccc::psci::PSCI_FEATURES);
    assert_eq!(PSCI_SYSTEM_RESET, smccc::psci::PSCI_SYSTEM_RESET);
    assert_eq!(PSCI_SYSTEM_OFF, smccc::psci::PSCI_SYSTEM_OFF);
    assert_eq!(PSCI_MIGRATE_INFO_TYPE, smccc::psci::PSCI_MIGRATE_INFO_TYPE);
    assert_eq!(PSCI_AFFINITY_INFO_64, smccc::psci::PSCI_AFFINITY_INFO_64);
}

#[test]
fn power_on_end_to_end() {
    let mut inboxes = queues(2);
    // core B (1) hosts vCPU 1 of VM 0, initialized with a device tree pointer
    let mut core_b = PerCpu::new(1);
    let mut v = core_b.create_vcpu(0, 1).unwrap();
    v.init(0x8000_0000, 0x4400_0000);
    core_b.host_vcpu(v).unwrap();
    // core A forwards the guest's CPU_ON for affinity 1
    let r = psci_guest_cpu_on(&mut inboxes, 0, 1, 0x4000_0000, 0x10);
    assert_eq!(r, 0);
    let outcomes = ipi_irq_handler(&mut core_b, &mut inboxes);
    assert_eq!(outcomes, vec![PowerOutcome::PoweredOn]);
    let v = &core_b.vcpu_array[0];
    assert_eq!(v.state, VcpuState::Runnable);
    assert_eq!(v.regs.guest_trap_context_regs.elr, 0x4000_0000);
    assert_eq!(v.get_gpr(0), 0x4400_0000);
    assert_ne!(v.get_gpr(0), 0x10);
    assert_eq!(inboxes[1].len(), 0);
}

#[test]
fn power_on_running_vcpu_is_noop() {
    let mut inboxes = queues(2);
    let mut core = PerCpu::new(1);
    let mut v = VCpu::new(0, 1, 1);
    v.init(0x8000_0000, 0x4400_0000);
    v.run(0x1234);
    core.host_vcpu(v).unwrap();
    psci_guest_cpu_on(&mut inboxes, 0, 1, 0x4000_0000, 0x10);
    psci_guest_cpu_on(&mut inboxes, 0, 1, 0x5000_0000, 0x10);
    let outcomes = ipi_irq_handler(&mut core, &mut inboxes);
    assert_eq!(outcomes, vec![PowerOutcome::AlreadyOn, PowerOutcome::AlreadyOn]);
    let v = &core.vcpu_array[0];
    assert_eq!(v.state, VcpuState::Running);
    assert_eq!(v.regs.guest_trap_context_regs.elr, 0x8000_0000);
}

#[test]
fn power_on_resent_twice_second_is_rejected() {
    let mut inboxes = queues(1);
    let mut core = PerCpu::new(0);
    core.host_vcpu(VCpu::new(3, 0, 0)).unwrap();
    psci_guest_cpu_on(&mut inboxes, 3, 0, 0x100, 0);
    psci_guest_cpu_on(&mut inboxes, 3, 0, 0x200, 0);
    let outcomes = ipi_irq_handler(&mut core, &mut inboxes);
    assert_eq!(outcomes, vec![PowerOutcome::PoweredOn, PowerOutcome::AlreadyOn]);
    assert_eq!(core.vcpu_array[0].regs.guest_trap_context_regs.elr, 0x100);
}

#[test]
fn power_messages_without_target_or_payload() {
    let mut inboxes = queues(1);
    let mut core = PerCpu::new(0);
    core.host_vcpu(VCpu::new(1, 0, 0)).unwrap();
    let off = IpiPowerMessage { src: 1, event: PowerEvent::PsciIpiCpuOff, entry: 0, context: 0 };
    let stray = IpiPowerMessage { src: 7, event: PowerEvent::PsciIpiCpuOn, entry: 0, context: 0 };
    assert!(ipi_send_msg(&mut inboxes, 0, IpiType::Power, IpiInnerMsg::Power(off)));
    assert!(ipi_send_msg(&mut inboxes, 0, IpiType::Power, IpiInnerMsg::Power(stray)));
    assert!(ipi_send_msg(&mut inboxes, 0, IpiType::Power, IpiInnerMsg::Empty));
    assert!(!ipi_send_msg(&mut inboxes, 1, IpiType::Power, IpiInnerMsg::Empty));
    let outcomes = ipi_irq_handler(&mut core, &mut inboxes);
    assert_eq!(
        outcomes,
        vec![PowerOutcome::Ignored, PowerOutcome::TargetNotFound, PowerOutcome::Illegal]
    );
    assert_eq!(core.vcpu_array[0].state, VcpuState::Inv);
}

#[test]
fn cpu_on_to_missing_core_is_invalid() {
    let mut inboxes = queues(2);
    assert_eq!(psci_guest_cpu_on(&mut inboxes, 0, 0x105, 0, 0), PSCI_RET_INVALID_PARAMS);
    assert_eq!(psci_guest_cpu_on(&mut inboxes, 0, 0x101, 0, 0), 0);
    assert_eq!(inboxes[1].len(), 1);
    assert_eq!(inboxes[0].len(), 0);
}

#[test]
fn smc_dispatch() {
    let mut inboxes = queues(2);
    let f = PSCI_FEATURES as usize;
    assert_eq!(smc_guest_handler(&mut inboxes, 0, f, PSCI_CPU_ON_64 as usize, 0, 0), Ok(PsciReply::Value(0)));
    assert_eq!(smc_guest_handler(&mut inboxes, 0, f, PSCI_SYSTEM_OFF as usize, 0, 0), Ok(PsciReply::Value(PSCI_RET_NOT_SUPPORTED)));
    assert_eq!(smc_guest_handler(&mut inboxes, 0, PSCI_VERSION as usize, 0, 0, 0), Ok(PsciReply::Firmware(PSCI_VERSION)));
    assert_eq!(smc_guest_handler(&mut inboxes, 0, PSCI_SYSTEM_RESET as usize, 0, 0, 0), Ok(PsciReply::Firmware(PSCI_SYSTEM_RESET)));
    assert_eq!(smc_guest_handler(&mut inboxes, 0, PSCI_MIGRATE_INFO_TYPE as usize, 0, 0, 0), Ok(PsciReply::Value(2)));
    assert_eq!(smc_guest_handler(&mut inboxes, 0, PSCI_AFFINITY_INFO_64 as usize, 0, 0, 0), Ok(PsciReply::Value(0)));
    assert_eq!(smc_guest_handler(&mut inboxes, 0, 0x1234, 0, 0, 0), Err(()));
    assert_eq!(smc_guest_handler(&mut inboxes, 0, PSCI_CPU_ON_64 as usize, 1, 0x4000_0000, 0x10), Ok(PsciReply::Value(0)));
    assert_eq!(inboxes[1].len(), 1);
    assert_eq!(smc_guest_handler(&mut inboxes, 0, PSCI_CPU_ON_64 as usize, 9, 0, 0), Ok(PsciReply::Value(PSCI_RET_INVALID_PARAMS)));
}

#[test]
fn per_cpu_vcpu_creation_and_hosting() {
    let mut core = PerCpu::new(2);
    let v = core.create_vcpu(4, 1).unwrap();
    assert_eq!((v.vm_id, v.vcpu_id, v.pcpu_id), (4, 1, 2));
    assert_eq!(core.vcpu_queue, vec![1]);
    assert_eq!(core.host_vcpu(VCpu::new(4, 0, 3)), Err(HyperError::InvalidParam));
    assert_eq!(core.host_vcpu(v), Ok(()));
    assert_eq!(core.host_vcpu(VCpu::new(4, 2, 2)), Err(HyperError::InvalidParam));
    assert_eq!(core.vcpu_index_of_vm(4), Some(0));
    assert_eq!(core.vcpu_index_of_vm(5), None);
    core.set_active_vcpu(Some(VCpu::new(4, 3, 2)));
    core.get_active_vcpu().state = VcpuState::Running;
    assert_eq!(core.active_vcpu.as_ref().unwrap().state, VcpuState::Running);
}

#[derive(Clone)]
struct NoPages;

impl hypercraft::HyperCraftHal for NoPages {
    fn alloc_pages(_num_pages: usize) -> Option<usize> {
        None
    }
    fn dealloc_pages(_va: usize, _num_pages: usize) {}
}

#[derive(Clone)]
struct FixedPages;

impl hypercraft::HyperCraftHal for FixedPages {
    fn alloc_pages(_num_pages: usize) -> Option<usize> {
        Some(0x8_0000)
    }
    fn dealloc_pages(_va: usize, _num_pages: usize) {}
}

#[test]
fn per_cpu_table_setup() {
    assert_eq!(PerCpu::init::<NoPages>(0).err(), Some(HyperError::NoMemory));
    let mut set = PerCpu::init::<FixedPages>(1).unwrap();
    assert_eq!(set.cpus.len(), 2);
    assert_eq!(set.base, 0x8_0000);
    assert_eq!(PerCpu::this_cpu(&mut set).cpu_id, 1);
    assert_eq!(PerCpu::setup_this_cpu(&mut set, 5), Err(HyperError::BadState));
    assert_eq!(PerCpu::setup_this_cpu(&mut set, 0), Ok(()));
    assert_eq!(PerCpu::this_cpu(&mut set).cpu_id, 0);
    assert_eq!(PerCpu::ptr_for_cpu(&mut set, 1).cpu_id, 1);
    assert_eq!(PerCpuSet::from_pages(Some(0), 3, 2).err(), Some(HyperError::BadState));
}

#[test]
fn per_cpu_area_page_count() {
    assert_eq!(per_cpu_pages(0), 0);
    assert_eq!(per_cpu_pages(1), 1);
    assert_eq!(per_cpu_pages(0x1000), 1);
    assert_eq!(per_cpu_pages(0x1001), 2);
    assert_eq!(per_cpu_pages(0x3000), 3);
}
