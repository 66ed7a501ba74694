//! Guest power-state calls (PSCI): the trapped-call dispatch, the power-on
//! request that becomes a message to another core, and that core's handling
//! of power messages.

use vstd::prelude::*;
use crate::context::ContextFrame;
use crate::cpu::{first_vm_index, PerCpu};
use crate::ipi::{ipi_pop_message, ipi_send_msg, CpuIf, IpiInnerMsg, IpiMessage, IpiPowerMessage, IpiType, PowerEvent};
use crate::vcpu::{VCpu, VcpuState};

verus! {

/// PSCI function id of PSCI_VERSION.
pub const PSCI_VERSION: u32 = 0x8400_0000;

/// PSCI function id of MIGRATE_INFO_TYPE.
pub const PSCI_MIGRATE_INFO_TYPE: u32 = 0x8400_0006;

/// PSCI function id of SYSTEM_OFF.
pub const PSCI_SYSTEM_OFF: u32 = 0x8400_0008;

/// PSCI function id of SYSTEM_RESET.
pub const PSCI_SYSTEM_RESET: u32 = 0x8400_0009;

/// PSCI function id of PSCI_FEATURES.
pub const PSCI_FEATURES: u32 = 0x8400_000A;

/// PSCI function id of CPU_ON, 64-bit calling convention.
pub const PSCI_CPU_ON_64: u32 = 0xC400_0003;

/// PSCI function id of AFFINITY_INFO, 64-bit calling convention.
pub const PSCI_AFFINITY_INFO_64: u32 = 0xC400_0004;

/// PSCI return value: success.
pub const PSCI_RET_SUCCESS: usize = 0;

/// PSCI return value: not supported (-1).
pub const PSCI_RET_NOT_SUPPORTED: usize = usize::MAX;

/// PSCI return value: invalid parameters (-2).
pub const PSCI_RET_INVALID_PARAMS: usize = usize::MAX - 1;

/// PSCI return value: already on (-4).
pub const PSCI_RET_ALREADY_ON: usize = usize::MAX - 3;

/// MIGRATE_INFO_TYPE answer: no trusted OS needs migration.
pub const PSCI_TOS_NOT_PRESENT_MP: usize = 2;

/// How a trapped PSCI call is answered.
#[derive(Clone, Copy, Debug, PartialEq, Eq, Structural)]
pub enum PsciReply {
    /// Return this value to the guest.
    Value(usize),
    /// Forward the call with this function id and no arguments to firmware,
    /// and return firmware's first result to the guest.
    Firmware(u32),
}

/// What the receiving core did with a power message.
#[derive(Clone, Copy, Debug, PartialEq, Eq, Structural)]
pub enum PowerOutcome {
    /// The target vCPU was made runnable at the requested entry.
    PoweredOn,
    /// The target vCPU was already started; nothing changed.
    AlreadyOn,
    /// This core hosts no vCPU of the message's VM; nothing changed.
    TargetNotFound,
    /// The event needs no action here; nothing changed.
    Ignored,
    /// The message carried no power payload; nothing changed.
    Illegal,
}

/// `v` made runnable, resuming at `entry`.
pub open spec fn powered_on(v: VCpu, entry: usize) -> VCpu {
    VCpu {
        state: VcpuState::Runnable,
        regs: crate::vcpu::VmCpuRegisters {
            guest_trap_context_regs: ContextFrame { elr: entry, ..v.regs.guest_trap_context_regs },
            ..v.regs
        },
        ..v
    }
}

/// The hosted vCPUs after handling `msg`, and the outcome.
pub open spec fn handle_power(vs: Seq<VCpu>, msg: IpiMessage) -> (Seq<VCpu>, PowerOutcome) {
    match msg.ipi_message {
        IpiInnerMsg::Empty => (vs, PowerOutcome::Illegal),
        IpiInnerMsg::Power(pm) => match first_vm_index(vs, pm.src) {
            None => (vs, PowerOutcome::TargetNotFound),
            Some(i) => match pm.event {
                PowerEvent::PsciIpiCpuOn => if vs[i].state != VcpuState::Inv {
                    (vs, PowerOutcome::AlreadyOn)
                } else {
                    (vs.update(i, powered_on(vs[i], pm.entry)), PowerOutcome::PoweredOn)
                },
                _ => (vs, PowerOutcome::Ignored),
            },
        },
    }
}

/// The hosted vCPUs after handling `msgs` in order, and the outcomes.
pub open spec fn handle_all(vs: Seq<VCpu>, msgs: Seq<IpiMessage>) -> (Seq<VCpu>, Seq<PowerOutcome>)
    decreases msgs.len(),
{
    if msgs.len() == 0 {
        (vs, Seq::empty())
    } else {
        let prev = handle_all(vs, msgs.drop_last());
        let step = handle_power(prev.0, msgs.last());
        (step.0, prev.1.push(step.1))
    }
}

/// Handles a power message on the core that hosts its target: a power-on
/// request makes the vCPU of the message's VM runnable at the requested
/// entry, unless that vCPU has been started already. The context argument
/// is not placed in any register.
pub fn psci_ipi_handler(cpu: &mut PerCpu, msg: IpiMessage) -> (r: PowerOutcome)
    ensures
        (final(cpu).vcpu_array@, r) == handle_power(old(cpu).vcpu_array@, msg),
        final(cpu).cpu_id == old(cpu).cpu_id,
        final(cpu).active_vcpu == old(cpu).active_vcpu,
        final(cpu).vcpu_queue@ == old(cpu).vcpu_queue@,
{
    match msg.ipi_message {
        IpiInnerMsg::Power(power_msg) => {
            let idx = match cpu.vcpu_index_of_vm(power_msg.src) {
                None => {
                    return PowerOutcome::TargetNotFound;
                },
                Some(i) => i,
            };
            proof {
                crate::cpu::lemma_first_vm_index(cpu.vcpu_array@, power_msg.src);
            }
            match power_msg.event {
                PowerEvent::PsciIpiCpuOn => {
                    if cpu.vcpu_array[idx].state != VcpuState::Inv {
                        return PowerOutcome::AlreadyOn;
                    }
                    psci_vcpu_on(cpu, idx, power_msg.entry);
                    PowerOutcome::PoweredOn
                },
                _ => PowerOutcome::Ignored,
            }
        },
        IpiInnerMsg::Empty => PowerOutcome::Illegal,
    }
}

fn psci_vcpu_on(cpu: &mut PerCpu, idx: usize, entry: usize)
    requires
        idx < old(cpu).vcpu_array@.len(),
    ensures
        final(cpu).vcpu_array@ == old(cpu).vcpu_array@.update(idx as int, powered_on(old(cpu).vcpu_array@[idx as int], entry)),
        final(cpu).cpu_id == old(cpu).cpu_id,
        final(cpu).active_vcpu == old(cpu).active_vcpu,
        final(cpu).vcpu_queue@ == old(cpu).vcpu_queue@,
{
    let v = &mut cpu.vcpu_array[idx];
    v.set_elr(entry);
    v.state = VcpuState::Runnable;
}

/// Drains the inbound queue of core `cpu.cpu_id` oldest first, handing each
/// message to the handler of its kind, and returns the outcomes in order.
pub fn ipi_irq_handler(cpu: &mut PerCpu, cpu_if_list: &mut Vec<CpuIf>) -> (r: Vec<PowerOutcome>)
    requires
        old(cpu).cpu_id < old(cpu_if_list)@.len(),
    ensures
        ({
            let res = handle_all(old(cpu).vcpu_array@, old(cpu_if_list)@[old(cpu).cpu_id as int]@);
            &&& final(cpu).vcpu_array@ == res.0
            &&& r@ == res.1
        }),
        final(cpu_if_list)@.len() == old(cpu_if_list)@.len(),
        final(cpu_if_list)@[old(cpu).cpu_id as int]@.len() == 0,
        forall|i: int| 0 <= i < old(cpu_if_list)@.len() && i != old(cpu).cpu_id ==> #[trigger] final(cpu_if_list)@[i] == old(cpu_if_list)@[i],
        final(cpu).cpu_id == old(cpu).cpu_id,
        final(cpu).active_vcpu == old(cpu).active_vcpu,
        final(cpu).vcpu_queue@ == old(cpu).vcpu_queue@,
{
    let cpu_id = cpu.cpu_id;
    let ghost msgs = cpu_if_list@[cpu_id as int]@;
    let ghost vs0 = cpu.vcpu_array@;
    let ghost list0 = cpu_if_list@;
    let n = cpu_if_list[cpu_id].len();
    let mut outcomes: Vec<PowerOutcome> = Vec::new();
    let mut k: usize = 0;
    while k < n
        invariant
            n == msgs.len(),
            k <= n,
            cpu.cpu_id == cpu_id,
            cpu_id < cpu_if_list@.len(),
            cpu_if_list@.len() == list0.len(),
            cpu_if_list@[cpu_id as int]@ == msgs.subrange(k as int, n as int),
            forall|i: int| 0 <= i < list0.len() && i != cpu_id ==> #[trigger] cpu_if_list@[i] == list0[i],
            (cpu.vcpu_array@, outcomes@) == handle_all(vs0, msgs.subrange(0, k as int)),
            cpu.active_vcpu == old(cpu).active_vcpu,
            cpu.vcpu_queue@ == old(cpu).vcpu_queue@,
        decreases n - k,
    {
        let m = ipi_pop_message(cpu_if_list, cpu_id);
        let msg = match m {
            Some(msg) => msg,
            None => vstd::pervasive::unreached(),
        };
        assert(msg == msgs[k as int]);
        let o = match msg.ipi_type {
            IpiType::Power => psci_ipi_handler(cpu, msg),
        };
        outcomes.push(o);
        proof {
            assert(msgs.subrange(0, k + 1).drop_last() =~= msgs.subrange(0, k as int));
            assert(cpu_if_list@[cpu_id as int]@ =~= msgs.subrange(k + 1, n as int));
        }
        k += 1;
    }
    proof {
        assert(msgs.subrange(0, n as int) =~= msgs);
    }
    outcomes
}

/// Turns a guest's CPU_ON request into a power-on message for the core
/// named by the low byte of `mpidr` (vCPU and physical CPU ids coincide),
/// on behalf of VM `vm_id`. Returns success, or invalid parameters when no
/// such core exists.
pub fn psci_guest_cpu_on(cpu_if_list: &mut Vec<CpuIf>, vm_id: usize, mpidr: usize, entry: usize, ctx: usize) -> (r: usize)
    ensures
        ({
            let target = (mpidr & 0xff) as int;
            let msg = IpiMessage {
                ipi_type: IpiType::Power,
                ipi_message: IpiInnerMsg::Power(IpiPowerMessage { src: vm_id, event: PowerEvent::PsciIpiCpuOn, entry, context: ctx }),
            };
            &&& target < old(cpu_if_list)@.len() ==> r == PSCI_RET_SUCCESS
                && final(cpu_if_list)@.len() == old(cpu_if_list)@.len()
                && final(cpu_if_list)@[target]@ == old(cpu_if_list)@[target]@.push(msg)
                && forall|i: int| 0 <= i < old(cpu_if_list)@.len() && i != target ==> #[trigger] final(cpu_if_list)@[i] == old(cpu_if_list)@[i]
            &&& target >= old(cpu_if_list)@.len() ==> r == PSCI_RET_INVALID_PARAMS && final(cpu_if_list)@ == old(cpu_if_list)@
        }),
{
    let pcpu_id = mpidr & 0xff;
    let m = IpiPowerMessage { src: vm_id, event: PowerEvent::PsciIpiCpuOn, entry, context: ctx };
    if !ipi_send_msg(cpu_if_list, pcpu_id, IpiType::Power, IpiInnerMsg::Power(m)) {
        return PSCI_RET_INVALID_PARAMS;
    }
    PSCI_RET_SUCCESS
}

/// The answer to a trapped PSCI call that does not start a CPU.
pub open spec fn psci_reply_spec(fid: u32, x1: usize) -> Result<PsciReply, ()> {
    if fid == PSCI_FEATURES {
        let f = x1 as u32;
        if f == PSCI_VERSION || f == PSCI_CPU_ON_64 || f == PSCI_FEATURES {
            Ok(PsciReply::Value(PSCI_RET_SUCCESS))
        } else {
            Ok(PsciReply::Value(PSCI_RET_NOT_SUPPORTED))
        }
    } else if fid == PSCI_VERSION || fid == PSCI_SYSTEM_RESET || fid == PSCI_SYSTEM_OFF {
        Ok(PsciReply::Firmware(fid))
    } else if fid == PSCI_MIGRATE_INFO_TYPE {
        Ok(PsciReply::Value(PSCI_TOS_NOT_PRESENT_MP))
    } else if fid == PSCI_AFFINITY_INFO_64 {
        Ok(PsciReply::Value(0))
    } else {
        Err(())
    }
}

/// Dispatches a PSCI call trapped from a guest of VM `vm_id`, keyed by the
/// low 32 bits of `fid`. CPU_ON becomes a power-on message to another core;
/// version, reset and off go to firmware; the feature, migration and
/// affinity queries are answered here; other ids are refused.
pub fn smc_guest_handler(cpu_if_list: &mut Vec<CpuIf>, vm_id: usize, fid: usize, x1: usize, x2: usize, x3: usize) -> (r: Result<PsciReply, ()>)
    ensures
        (fid as u32) != PSCI_CPU_ON_64 ==> r == psci_reply_spec(fid as u32, x1) && final(cpu_if_list)@ == old(cpu_if_list)@,
        (fid as u32) == PSCI_CPU_ON_64 ==> {
            let target = (x1 & 0xff) as int;
            let msg = IpiMessage {
                ipi_type: IpiType::Power,
                ipi_message: IpiInnerMsg::Power(IpiPowerMessage { src: vm_id, event: PowerEvent::PsciIpiCpuOn, entry: x2, context: x3 }),
            };
            &&& target < old(cpu_if_list)@.len() ==> r == Ok::<PsciReply, ()>(PsciReply::Value(PSCI_RET_SUCCESS))
                && final(cpu_if_list)@.len() == old(cpu_if_list)@.len()
                && final(cpu_if_list)@[target]@ == old(cpu_if_list)@[target]@.push(msg)
                && forall|i: int| 0 <= i < old(cpu_if_list)@.len() && i != target ==> #[trigger] final(cpu_if_list)@[i] == old(cpu_if_list)@[i]
            &&& target >= old(cpu_if_list)@.len() ==> r == Ok::<PsciReply, ()>(PsciReply::Value(PSCI_RET_INVALID_PARAMS))
                && final(cpu_if_list)@ == old(cpu_if_list)@
        },
{
    let f = fid as u32;
    if f == PSCI_FEATURES {
        let q = x1 as u32;
        if q == PSCI_VERSION || q == PSCI_CPU_ON_64 || q == PSCI_FEATURES {
            Ok(PsciReply::Value(PSCI_RET_SUCCESS))
        } else {
            Ok(PsciReply::Value(PSCI_RET_NOT_SUPPORTED))
        }
    } else if f == PSCI_VERSION || f == PSCI_SYSTEM_RESET || f == PSCI_SYSTEM_OFF {
        Ok(PsciReply::Firmware(f))
    } else if f == PSCI_CPU_ON_64 {
        Ok(PsciReply::Value(psci_guest_cpu_on(cpu_if_list, vm_id, x1, x2, x3)))
    } else if f == PSCI_MIGRATE_INFO_TYPE {
        Ok(PsciReply::Value(PSCI_TOS_NOT_PRESENT_MP))
    } else if f == PSCI_AFFINITY_INFO_64 {
        Ok(PsciReply::Value(0))
    } else {
        Err(())
    }
}

/// A power-on request for a vCPU that has already been started (runnable,
/// running or blocked) changes nothing and is reported as already on.
pub proof fn lemma_cpu_on_started_is_noop(vs: Seq<VCpu>, msg: IpiMessage)
    requires
        msg.ipi_message is Power,
        msg.ipi_message->Power_0.event == PowerEvent::PsciIpiCpuOn,
        first_vm_index(vs, msg.ipi_message->Power_0.src) is Some,
        vs[first_vm_index(vs, msg.ipi_message->Power_0.src)->Some_0].state != VcpuState::Inv,
    ensures
        handle_power(vs, msg) == (vs, PowerOutcome::AlreadyOn),
{
}

/// Sending the same power-on request twice: the second delivery finds the
/// vCPU started (or still missing) and changes nothing.
pub proof fn lemma_cpu_on_resent_is_noop(vs: Seq<VCpu>, msg: IpiMessage)
    requires
        msg.ipi_message is Power,
        msg.ipi_message->Power_0.event == PowerEvent::PsciIpiCpuOn,
    ensures
        ({
            let first = handle_power(vs, msg);
            let second = handle_power(first.0, msg);
            &&& second.0 == first.0
            &&& second.1 == PowerOutcome::AlreadyOn || second.1 == PowerOutcome::TargetNotFound
        }),
{
    let pm = msg.ipi_message->Power_0;
    let first = handle_power(vs, msg);
    crate::cpu::lemma_first_vm_index(vs, pm.src);
    crate::cpu::lemma_first_vm_index(first.0, pm.src);
    if let Some(i) = first_vm_index(vs, pm.src) {
        assert(first.0.len() == vs.len());
        assert forall|j: int| 0 <= j < vs.len() implies #[trigger] first.0[j].vm_id == vs[j].vm_id by {}
        assert(first_vm_index(first.0, pm.src) == Some(i)) by {
            lemma_first_vm_index_same_ids(vs, first.0, pm.src);
        }
    } else {
        assert(first.0 == vs);
    }
}

proof fn lemma_first_vm_index_same_ids(a: Seq<VCpu>, b: Seq<VCpu>, vm_id: usize)
    requires
        a.len() == b.len(),
        forall|j: int| 0 <= j < a.len() ==> #[trigger] b[j].vm_id == a[j].vm_id,
    ensures
        first_vm_index(b, vm_id) == first_vm_index(a, vm_id),
    decreases a.len(),
{
    if a.len() > 0 {
        assert forall|j: int| 0 <= j < a.drop_last().len() implies #[trigger] b.drop_last()[j].vm_id == a.drop_last()[j].vm_id by {
            assert(b[j].vm_id == a[j].vm_id);
        }
        lemma_first_vm_index_same_ids(a.drop_last(), b.drop_last(), vm_id);
    }
}

} // verus!
