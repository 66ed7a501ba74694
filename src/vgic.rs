//! The virtual interrupt controller: per-VM distributor, per-CPU private
//! banks, and the pending and active lists that feed the list registers.
//!
//! Interrupts are named by id: ids below `GIC_PRIVATE_INT_NUM` are private
//! and banked per CPU, the others are shared by the VM. The lists hold ids;
//! each interrupt record carries flags saying whether it is listed.

use vstd::prelude::*;
use crate::gic::{
    state_active, state_pending, IrqState, GIC_LIST_REGS_NUM,
    GIC_PRIVATE_INT_NUM, GIC_SGIS_NUM,
};
use crate::vcpu::VCpu;

verus! {

/// The vCPU an interrupt is routed to, named by ids.
#[derive(Clone, Copy, Debug, PartialEq, Eq, Structural)]
pub struct OwnerRef {
    /// vCPU index within its VM.
    pub vcpu_id: usize,
    /// VM id.
    pub vm_id: usize,
    /// Physical CPU that runs the vCPU.
    pub pcpu_id: usize,
}

/// One virtual interrupt.
#[derive(Clone, Copy, Debug)]
pub struct VgicInt {
    /// The vCPU the interrupt is routed to.
    pub owner: Option<OwnerRef>,
    /// Interrupt id.
    pub id: u16,
    /// Backed by a physical interrupt.
    pub hw: bool,
    /// Resident in a hardware list register.
    pub in_lr: bool,
    /// Index of that list register.
    pub lr: u16,
    /// Enabled by the guest.
    pub enabled: bool,
    /// Pending/active state.
    pub state: IrqState,
    /// Priority.
    pub prio: u8,
    /// Target CPU mask.
    pub targets: u8,
    /// Edge/level configuration.
    pub cfg: u8,
    /// Listed on a pending list.
    pub in_pend: bool,
    /// Listed on an active list.
    pub in_act: bool,
    /// Routing value the guest wrote for the interrupt.
    pub route: u64,
    /// Where the physical interrupt is routed.
    pub phys: VgicIntPhys,
}

/// Physical routing of an interrupt: a redistributor for a private one, a
/// routing value for a shared one.
#[derive(Clone, Copy, Debug, PartialEq, Eq, Structural)]
pub enum VgicIntPhys {
    /// The redistributor of the owning CPU.
    Redist(u64),
    /// A routing value.
    Route(u64),
}

/// A routing value with only reserved bits set, which names no CPU: every
/// bit outside Aff3 [39:32], IRM [31] and Aff2..Aff0 [23:0].
pub const GICD_IROUTER_INV: u64 = 0xffff_ff00_7f00_0000;

/// The owner reference of a vCPU.
pub open spec fn owner_of(vcpu: VCpu) -> OwnerRef {
    OwnerRef { vcpu_id: vcpu.vcpu_id, vm_id: vcpu.vm_id, pcpu_id: vcpu.pcpu_id }
}

impl VgicInt {
    /// A shared interrupt, numbered `id` among the shared ones: unowned,
    /// disabled, inactive, lowest priority.
    pub fn new(id: usize) -> (r: Self)
        requires
            id + GIC_PRIVATE_INT_NUM <= u16::MAX,
        ensures
            r.id == id + GIC_PRIVATE_INT_NUM,
            r.owner is None,
            !r.hw && !r.in_lr && r.lr == 0 && !r.enabled,
            r.state == IrqState::IrqSInactive,
            r.prio == 0xff && r.targets == 0 && r.cfg == 0,
            !r.in_pend && !r.in_act,
            r.route == GICD_IROUTER_INV,
            r.phys == VgicIntPhys::Route(GICD_IROUTER_INV),
    {
        VgicInt {
            owner: None,
            id: (id + GIC_PRIVATE_INT_NUM) as u16,
            hw: false,
            in_lr: false,
            lr: 0,
            enabled: false,
            state: IrqState::IrqSInactive,
            prio: 0xff,
            targets: 0,
            cfg: 0,
            in_pend: false,
            in_act: false,
            route: GICD_IROUTER_INV,
            phys: VgicIntPhys::Route(GICD_IROUTER_INV),
        }
    }

    /// A private interrupt `id` owned by `owner`, inactive, lowest priority.
    pub fn priv_new(id: usize, owner: &VCpu, targets: usize, enabled: bool) -> (r: Self)
        requires
            id <= u16::MAX,
            targets <= u8::MAX,
        ensures
            r.id == id,
            r.owner == Some(owner_of(*owner)),
            !r.hw && !r.in_lr && r.lr == 0 && r.enabled == enabled,
            r.state == IrqState::IrqSInactive,
            r.prio == 0xff && r.targets == targets && r.cfg == 0,
            !r.in_pend && !r.in_act,
            r.route == GICD_IROUTER_INV,
            r.phys == VgicIntPhys::Route(GICD_IROUTER_INV),
    {
        VgicInt {
            owner: Some(OwnerRef { vcpu_id: owner.vcpu_id, vm_id: owner.vm_id, pcpu_id: owner.pcpu_id }),
            id: id as u16,
            hw: false,
            in_lr: false,
            lr: 0,
            enabled,
            state: IrqState::IrqSInactive,
            prio: 0xff,
            targets: targets as u8,
            cfg: 0,
            in_pend: false,
            in_act: false,
            route: GICD_IROUTER_INV,
            phys: VgicIntPhys::Route(GICD_IROUTER_INV),
        }
    }

    /// A private interrupt `id` owned by `owner` and delivered through
    /// redistributor `redist`, with configuration `cfg`; inactive, lowest
    /// priority.
    pub fn priv_new_with_redist(id: usize, owner: &VCpu, targets: usize, enabled: bool, redist: usize, cfg: usize) -> (r: Self)
        requires
            id <= u16::MAX,
            targets <= u8::MAX,
            cfg <= u8::MAX,
        ensures
            r.id == id,
            r.owner == Some(owner_of(*owner)),
            !r.hw && !r.in_lr && r.lr == 0 && r.enabled == enabled,
            r.state == IrqState::IrqSInactive,
            r.prio == 0xff && r.targets == targets && r.cfg == cfg,
            !r.in_pend && !r.in_act,
            r.route == GICD_IROUTER_INV,
            r.phys == VgicIntPhys::Redist(redist as u64),
    {
        let mut r = VgicInt::priv_new(id, owner, targets, enabled);
        r.cfg = cfg as u8;
        r.phys = VgicIntPhys::Redist(redist as u64);
        r
    }
}

impl VgicInt {
    /// The routing value the guest wrote.
    pub fn route(&self) -> (r: u64)
        ensures
            r == self.route,
    {
        self.route
    }

    /// Sets the routing value the guest wrote.
    pub fn set_route(&mut self, route: usize)
        ensures
            *final(self) == (VgicInt { route: route as u64, ..*old(self) }),
    {
        self.route = route as u64;
    }

    /// The redistributor the physical interrupt goes through.
    pub fn phys_redist(&self) -> (r: u64)
        requires
            self.phys is Redist,
        ensures
            self.phys == VgicIntPhys::Redist(r),
    {
        match self.phys {
            VgicIntPhys::Redist(redist) => redist,
            VgicIntPhys::Route(_) => vstd::pervasive::unreached(),
        }
    }

    /// The routing value of the physical interrupt.
    pub fn phys_route(&self) -> (r: u64)
        requires
            self.phys is Route,
        ensures
            self.phys == VgicIntPhys::Route(r),
    {
        match self.phys {
            VgicIntPhys::Route(route) => route,
            VgicIntPhys::Redist(_) => vstd::pervasive::unreached(),
        }
    }

    /// Routes the physical interrupt by routing value `route`.
    pub fn set_phys_route(&mut self, route: usize)
        ensures
            *final(self) == (VgicInt { phys: VgicIntPhys::Route(route as u64), ..*old(self) }),
    {
        self.phys = VgicIntPhys::Route(route as u64);
    }

    /// Routes the physical interrupt through redistributor `redist`.
    pub fn set_phys_redist(&mut self, redist: usize)
        ensures
            *final(self) == (VgicInt { phys: VgicIntPhys::Redist(redist as u64), ..*old(self) }),
    {
        self.phys = VgicIntPhys::Redist(redist as u64);
    }

    /// Sets whether the interrupt is on a pending list.
    pub fn set_in_pend_state(&mut self, v: bool)
        ensures
            *final(self) == (VgicInt { in_pend: v, ..*old(self) }),
    {
        self.in_pend = v;
    }

    /// Sets whether the interrupt is on an active list.
    pub fn set_in_act_state(&mut self, v: bool)
        ensures
            *final(self) == (VgicInt { in_act: v, ..*old(self) }),
    {
        self.in_act = v;
    }

    /// Whether the interrupt is on a pending list.
    pub fn in_pend(&self) -> (r: bool)
        ensures
            r == self.in_pend,
    {
        self.in_pend
    }

    /// Whether the interrupt is on an active list.
    pub fn in_act(&self) -> (r: bool)
        ensures
            r == self.in_act,
    {
        self.in_act
    }

    /// Sets whether the guest enabled the interrupt.
    pub fn set_enabled(&mut self, v: bool)
        ensures
            *final(self) == (VgicInt { enabled: v, ..*old(self) }),
    {
        self.enabled = v;
    }

    /// Sets the index of the list register holding the interrupt.
    pub fn set_lr(&mut self, v: u16)
        ensures
            *final(self) == (VgicInt { lr: v, ..*old(self) }),
    {
        self.lr = v;
    }

    /// Sets the target CPU mask.
    pub fn set_targets(&mut self, v: u8)
        ensures
            *final(self) == (VgicInt { targets: v, ..*old(self) }),
    {
        self.targets = v;
    }

    /// The target CPU mask.
    pub fn targets(&self) -> (r: u8)
        ensures
            r == self.targets,
    {
        self.targets
    }

    /// Sets the priority.
    pub fn set_priority(&mut self, v: u8)
        ensures
            *final(self) == (VgicInt { prio: v, ..*old(self) }),
    {
        self.prio = v;
    }

    /// The priority.
    pub fn get_priority(&self) -> (r: u8)
        ensures
            r == self.prio,
    {
        self.prio
    }

    /// Sets the priority.
    pub fn set_prio(&mut self, v: u8)
        ensures
            *final(self) == (VgicInt { prio: v, ..*old(self) }),
    {
        self.prio = v;
    }

    /// The priority.
    pub fn prio(&self) -> (r: u8)
        ensures
            r == self.prio,
    {
        self.prio
    }

    /// Sets whether the interrupt sits in a list register.
    pub fn set_in_lr(&mut self, v: bool)
        ensures
            *final(self) == (VgicInt { in_lr: v, ..*old(self) }),
    {
        self.in_lr = v;
    }

    /// Sets the pending/active state.
    pub fn set_state(&mut self, v: IrqState)
        ensures
            *final(self) == (VgicInt { state: v, ..*old(self) }),
    {
        self.state = v;
    }

    /// Sets whether a physical interrupt backs this one.
    pub fn set_hw(&mut self, v: bool)
        ensures
            *final(self) == (VgicInt { hw: v, ..*old(self) }),
    {
        self.hw = v;
    }

    /// Sets the edge/level configuration.
    pub fn set_cfg(&mut self, v: u8)
        ensures
            *final(self) == (VgicInt { cfg: v, ..*old(self) }),
    {
        self.cfg = v;
    }

    /// Index of the list register holding the interrupt.
    pub fn lr(&self) -> (r: u16)
        ensures
            r == self.lr,
    {
        self.lr
    }

    /// Whether the interrupt sits in a list register.
    pub fn in_lr(&self) -> (r: bool)
        ensures
            r == self.in_lr,
    {
        self.in_lr
    }

    /// The interrupt id.
    pub fn id(&self) -> (r: u16)
        ensures
            r == self.id,
    {
        self.id
    }

    /// Whether the guest enabled the interrupt.
    pub fn enabled(&self) -> (r: bool)
        ensures
            r == self.enabled,
    {
        self.enabled
    }

    /// Whether a physical interrupt backs this one.
    pub fn hw(&self) -> (r: bool)
        ensures
            r == self.hw,
    {
        self.hw
    }

    /// The pending/active state.
    pub fn state(&self) -> (r: IrqState)
        ensures
            r == self.state,
    {
        self.state
    }

    /// The edge/level configuration.
    pub fn cfg(&self) -> (r: u8)
        ensures
            r == self.cfg,
    {
        self.cfg
    }

    /// The vCPU the interrupt is routed to.
    pub fn owner(&self) -> (r: Option<OwnerRef>)
        ensures
            r == self.owner,
    {
        self.owner
    }

    /// Routes the interrupt to `owner`.
    pub fn set_owner(&mut self, owner: &VCpu)
        ensures
            *final(self) == (VgicInt { owner: Some(owner_of(*owner)), ..*old(self) }),
    {
        self.owner = Some(OwnerRef { vcpu_id: owner.vcpu_id, vm_id: owner.vm_id, pcpu_id: owner.pcpu_id });
    }

    /// Removes the interrupt's routing.
    pub fn clear_owner(&mut self)
        ensures
            *final(self) == (VgicInt { owner: None, ..*old(self) }),
    {
        self.owner = None;
    }

    /// Physical CPU of the owner, if routed.
    pub fn owner_phys_id(&self) -> (r: Option<usize>)
        ensures
            r == match self.owner {
                Some(o) => Some(o.pcpu_id),
                None => None::<usize>,
            },
    {
        match self.owner {
            Some(o) => Some(o.pcpu_id),
            None => None,
        }
    }

    /// vCPU index of the owner, if routed.
    pub fn owner_id(&self) -> (r: Option<usize>)
        ensures
            r == match self.owner {
                Some(o) => Some(o.vcpu_id),
                None => None::<usize>,
            },
    {
        match self.owner {
            Some(o) => Some(o.vcpu_id),
            None => None,
        }
    }

    /// VM id of the owner, if routed.
    pub fn owner_vm_id(&self) -> (r: Option<usize>)
        ensures
            r == match self.owner {
                Some(o) => Some(o.vm_id),
                None => None::<usize>,
            },
    {
        match self.owner {
            Some(o) => Some(o.vm_id),
            None => None,
        }
    }
}

/// Pending and active bits of one software-generated interrupt.
#[derive(Clone, Copy, Debug)]
pub struct Sgis {
    /// Pending sources.
    pub pend: u8,
    /// Active sources.
    pub act: u8,
}

/// The distributor of a VM: control registers and the shared interrupts.
pub struct Vgicd {
    /// Control register.
    pub ctlr: u32,
    /// Type register.
    pub typer: u32,
    /// Implementer identification register.
    pub iidr: u32,
    /// Shared interrupts; entry `j` has id `GIC_PRIVATE_INT_NUM + j`.
    pub interrupts: Vec<VgicInt>,
}

/// The virtual redistributor registers of one CPU.
#[derive(Clone, Copy, Debug)]
pub struct Vgicr {
    /// Type register.
    pub typer: u64,
    /// Control register.
    pub cltr: u32,
    /// Implementer identification register.
    pub iidr: u32,
}

impl Vgicr {
    /// The redistributor with the given registers, each truncated to its width.
    pub open spec fn new_spec(typer: usize, cltr: usize, iidr: usize) -> Vgicr {
        Vgicr { typer: typer as u64, cltr: cltr as u32, iidr: iidr as u32 }
    }

    /// A redistributor with every register zero.
    pub fn default() -> (r: Vgicr)
        ensures
            r.typer == 0 && r.cltr == 0 && r.iidr == 0,
    {
        Vgicr { typer: 0, cltr: 0, iidr: 0 }
    }

    /// A redistributor with the given registers, each truncated to its width.
    pub fn new(typer: usize, cltr: usize, iidr: usize) -> (r: Vgicr)
        ensures
            r.typer == typer as u64 && r.cltr == cltr as u32 && r.iidr == iidr as u32,
    {
        Vgicr { typer: typer as u64, cltr: cltr as u32, iidr: iidr as u32 }
    }

    /// The type register.
    pub fn get_typer(&self) -> (r: u64)
        ensures
            r == self.typer,
    {
        self.typer
    }

    /// Sets the type register.
    pub fn set_typer(&mut self, typer: usize)
        ensures
            *final(self) == (Vgicr { typer: typer as u64, ..*old(self) }),
    {
        self.typer = typer as u64;
    }
}

/// The private state of one CPU: its redistributor, its list-register
/// shadow, its SGI bits, its private interrupts, and its pending and active
/// lists.
pub struct VgicCpuPriv {
    /// Redistributor registers.
    pub vgicr: Vgicr,
    /// Interrupt id held by each list register.
    pub curr_lrs: [u16; GIC_LIST_REGS_NUM],
    /// Software-generated interrupt bits.
    pub sgis: [Sgis; GIC_SGIS_NUM],
    /// Private interrupts; entry `i` has id `i`.
    pub interrupts: Vec<VgicInt>,
    /// Ids waiting to be delivered, oldest first.
    pub pend_list: Vec<u16>,
    /// Ids being serviced, oldest first.
    pub act_list: Vec<u16>,
}

impl VgicCpuPriv {
    /// A bank with redistributor registers `typer`, `cltr` and `iidr`, no
    /// interrupts and empty lists.
    pub fn new(typer: usize, cltr: usize, iidr: usize) -> (r: Self)
        ensures
            r.vgicr == Vgicr::new_spec(typer, cltr, iidr),
            r.interrupts@.len() == 0,
            r.pend_list@.len() == 0,
            r.act_list@.len() == 0,
    {
        let mut r = VgicCpuPriv::default();
        r.vgicr = Vgicr::new(typer, cltr, iidr);
        r
    }

    /// A bank with no interrupts and empty lists.
    pub fn default() -> (r: Self)
        ensures
            r.vgicr == Vgicr::new_spec(0, 0, 0),
            r.interrupts@.len() == 0,
            r.pend_list@.len() == 0,
            r.act_list@.len() == 0,
    {
        VgicCpuPriv {
            vgicr: Vgicr::default(),
            curr_lrs: [0; GIC_LIST_REGS_NUM],
            sgis: [Sgis { pend: 0, act: 0 }; GIC_SGIS_NUM],
            interrupts: Vec::new(),
            pend_list: Vec::new(),
            act_list: Vec::new(),
        }
    }
}

/// A virtual interrupt controller.
pub struct Vgic {
    vgicd: Vgicd,
    cpu_priv: Vec<VgicCpuPriv>,
}

/// Removes `id` from `list`, keeping the order of the other entries.
fn list_remove(list: &mut Vec<u16>, id: u16)
    requires
        old(list)@.no_duplicates(),
    ensures
        final(list)@.no_duplicates(),
        !final(list)@.contains(id),
        forall|x: u16| x != id ==> (#[trigger] final(list)@.contains(x) <==> old(list)@.contains(x)),
        !old(list)@.contains(id) ==> final(list)@ == old(list)@,
        forall|k: int| 0 <= k < old(list)@.len() && old(list)@[k] == id ==> final(list)@ == old(list)@.remove(k),
{
    let mut i: usize = 0;
    while i < list.len()
        invariant
            i <= list@.len(),
            list@ == old(list)@,
            old(list)@.no_duplicates(),
            forall|k: int| 0 <= k < i ==> list@[k] != id,
        decreases list@.len() - i,
    {
        if list[i] == id {
            let ghost before = list@;
            list.remove(i);
            proof {
                assert forall|x: u16| x != id implies #[trigger] list@.contains(x) <==> before.contains(x) by {
                    if before.contains(x) {
                        let k = choose|k: int| 0 <= k < before.len() && before[k] == x;
                        if k < i {
                            assert(list@[k] == x);
                        } else {
                            assert(k != i);
                            assert(list@[k - 1] == x);
                        }
                    }
                }
                assert forall|k1: int, k2: int| 0 <= k1 < k2 < list@.len() implies list@[k1] != list@[k2] by {
                    let a = if k1 < i { k1 } else { k1 + 1 };
                    let b = if k2 < i { k2 } else { k2 + 1 };
                    assert(before[a] == list@[k1] && before[b] == list@[k2]);
                }
                assert forall|k: int| 0 <= k < list@.len() implies list@[k] != id by {
                    let a = if k < i { k } else { k + 1 };
                    assert(before[a] == list@[k]);
                }
                assert forall|k: int| 0 <= k < before.len() && before[k] == id implies list@ == before.remove(k) by {
                    assert(k == i);
                }
            }
            return;
        }
        i += 1;
    }
}

/// The listed flag of `r` for the pending list (`is_pend`) or the active list.
pub open spec fn flag_of(r: VgicInt, is_pend: bool) -> bool {
    if is_pend {
        r.in_pend
    } else {
        r.in_act
    }
}

/// `r` with its listed flag for the chosen list set to `v`.
pub open spec fn with_flag(r: VgicInt, is_pend: bool, v: bool) -> VgicInt {
    if is_pend {
        VgicInt { in_pend: v, ..r }
    } else {
        VgicInt { in_act: v, ..r }
    }
}

/// Whether the state bit that feeds the chosen list is set.
pub open spec fn state_bit(s: IrqState, is_pend: bool) -> bool {
    if is_pend {
        state_pending(s)
    } else {
        state_active(s)
    }
}

/// Whether `(c1, id1)` and `(c2, id2)` name the same interrupt record: private
/// ids are banked per CPU, shared ids are one record for all CPUs.
pub open spec fn same_record(c1: int, id1: u16, c2: int, id2: u16) -> bool {
    id1 == id2 && (id1 < GIC_PRIVATE_INT_NUM ==> c1 == c2)
}

/// `new` is `old` with its entry `id` taken out, the other entries in their
/// old order: `old` itself when it does not hold `id`.
pub open spec fn removed_from(old: Seq<u16>, new: Seq<u16>, id: u16) -> bool {
    &&& !old.contains(id) ==> new == old
    &&& forall|k: int| 0 <= k < old.len() && old[k] == id ==> new == old.remove(k)
}

/// One list update for interrupt `id`: the list is unchanged, gains `id` at
/// its tail, or loses its entry `id` at some position `k`, keeping the
/// order of the rest.
pub open spec fn list_step(old: Seq<u16>, new: Seq<u16>, id: u16) -> bool {
    ||| new == old
    ||| new == old.push(id)
    ||| exists|k: int| 0 <= k < old.len() && old[k] == id && new == old.remove(k)
}

proof fn lemma_flag_is_listed(g: Vgic, c: int, id: u16, b: bool)
    requires
        g.wf(),
        g.valid_id(c, id),
    ensures
        flag_of(g.int_of(c, id), b) == g.listed(c, id, b),
{
    if g.listed(c, id, b) {
        if id >= GIC_PRIVATE_INT_NUM {
            let c3 = choose|c3: int| 0 <= c3 < g.ncpu() && #[trigger] g.list_of(c3, b).contains(id);
            assert(g.int_of(c3, id) == g.int_of(c, id));
        }
    }
}

proof fn lemma_removed_is_step(old: Seq<u16>, new: Seq<u16>, id: u16)
    requires
        removed_from(old, new, id),
    ensures
        list_step(old, new, id),
{
    if old.contains(id) {
        let k = choose|k: int| 0 <= k < old.len() && old[k] == id;
        assert(new == old.remove(k));
    }
}

impl Vgic {
    /// The distributor's control, type and identification registers.
    pub closed spec fn dist_regs(&self) -> (u32, u32, u32) {
        (self.vgicd.ctlr, self.vgicd.typer, self.vgicd.iidr)
    }

    /// Number of CPU banks.
    pub closed spec fn ncpu(&self) -> nat {
        self.cpu_priv@.len()
    }

    /// Number of shared interrupts.
    pub closed spec fn nshared(&self) -> nat {
        self.vgicd.interrupts@.len()
    }

    /// Whether `id` names an interrupt seen from CPU `c`.
    pub closed spec fn valid_id(&self, c: int, id: u16) -> bool {
        &&& 0 <= c < self.cpu_priv@.len()
        &&& if id < GIC_PRIVATE_INT_NUM {
            id < self.cpu_priv@[c].interrupts@.len()
        } else {
            id - GIC_PRIVATE_INT_NUM < self.vgicd.interrupts@.len()
        }
    }

    /// The record of interrupt `id` seen from CPU `c`.
    pub closed spec fn int_of(&self, c: int, id: u16) -> VgicInt {
        if id < GIC_PRIVATE_INT_NUM {
            self.cpu_priv@[c].interrupts@[id as int]
        } else {
            self.vgicd.interrupts@[id - GIC_PRIVATE_INT_NUM]
        }
    }

    /// The pending list (`is_pend`) or the active list of CPU `c`.
    pub closed spec fn list_of(&self, c: int, is_pend: bool) -> Seq<u16> {
        if is_pend {
            self.cpu_priv@[c].pend_list@
        } else {
            self.cpu_priv@[c].act_list@
        }
    }

    /// Whether interrupt `id`, seen from CPU `c`, is on a list of the chosen
    /// kind: for a private id the list of `c`, for a shared id that of any CPU.
    pub closed spec fn listed(&self, c: int, id: u16, is_pend: bool) -> bool {
        if id < GIC_PRIVATE_INT_NUM {
            self.list_of(c, is_pend).contains(id)
        } else {
            exists|c2: int| 0 <= c2 < self.cpu_priv@.len() && #[trigger] self.list_of(c2, is_pend).contains(id)
        }
    }

    /// Interrupt `id` of CPU `c` is on a pending list exactly when its
    /// pending bit is set and it is not in a list register, and on an active
    /// list exactly when its active bit is set and it is not in a list
    /// register.
    pub closed spec fn synced(&self, c: int, id: u16) -> bool {
        let r = self.int_of(c, id);
        &&& self.listed(c, id, true) == (state_pending(r.state) && !r.in_lr)
        &&& self.listed(c, id, false) == (state_active(r.state) && !r.in_lr)
    }

    /// The lists and the listed flags agree: every listed id names a record
    /// whose flag is set, each list holds an id once, and every record whose
    /// flag is set is listed.
    pub closed spec fn wf(&self) -> bool {
        &&& forall|c: int, b: bool| 0 <= c < self.cpu_priv@.len() ==> #[trigger] self.list_of(c, b).no_duplicates()
        &&& forall|c: int, b: bool, id: u16| 0 <= c < self.cpu_priv@.len() && #[trigger] self.list_of(c, b).contains(id)
            ==> self.valid_id(c, id) && flag_of(self.int_of(c, id), b)
        &&& forall|c: int, b: bool, id: u16| self.valid_id(c, id) && #[trigger] flag_of(self.int_of(c, id), b)
            ==> self.listed(c, id, b)
    }

    fn get_int(&self, c: usize, id: u16) -> (r: VgicInt)
        requires
            self.valid_id(c as int, id),
        ensures
            r == self.int_of(c as int, id),
    {
        if id < GIC_PRIVATE_INT_NUM as u16 {
            self.cpu_priv[c].interrupts[id as usize]
        } else {
            self.vgicd.interrupts[(id - GIC_PRIVATE_INT_NUM as u16) as usize]
        }
    }

    fn set_int(&mut self, c: usize, id: u16, r: VgicInt)
        requires
            old(self).valid_id(c as int, id),
        ensures
            final(self).ncpu() == old(self).ncpu(),
            final(self).nshared() == old(self).nshared(),
            forall|c2: int, id2: u16| #[trigger] final(self).valid_id(c2, id2) == old(self).valid_id(c2, id2),
            forall|c2: int, b: bool| 0 <= c2 < old(self).ncpu() ==> #[trigger] final(self).list_of(c2, b) == old(self).list_of(c2, b),
            final(self).int_of(c as int, id) == r,
            forall|c2: int, id2: u16| old(self).valid_id(c2, id2) && !same_record(c as int, id, c2, id2) ==> #[trigger] final(self).int_of(c2, id2) == old(self).int_of(c2, id2),
            final(self).dist_regs() == old(self).dist_regs(),
            forall|c2: int| 0 <= c2 < old(self).ncpu() ==> #[trigger] final(self).curr_lrs_of(c2) == old(self).curr_lrs_of(c2),
    {
        if id < GIC_PRIVATE_INT_NUM as u16 {
            self.cpu_priv[c].interrupts.set(id as usize, r);
        } else {
            self.vgicd.interrupts.set((id - GIC_PRIVATE_INT_NUM as u16) as usize, r);
        }
    }

    fn list_push(&mut self, c: usize, id: u16, is_pend: bool)
        requires
            0 <= c < old(self).ncpu(),
        ensures
            final(self).ncpu() == old(self).ncpu(),
            final(self).nshared() == old(self).nshared(),
            forall|c2: int, id2: u16| #[trigger] final(self).valid_id(c2, id2) == old(self).valid_id(c2, id2),
            forall|c2: int, id2: u16| old(self).valid_id(c2, id2) ==> #[trigger] final(self).int_of(c2, id2) == old(self).int_of(c2, id2),
            final(self).list_of(c as int, is_pend) == old(self).list_of(c as int, is_pend).push(id),
            forall|c2: int, b: bool| 0 <= c2 < old(self).ncpu() && (c2 != c || b != is_pend) ==> #[trigger] final(self).list_of(c2, b) == old(self).list_of(c2, b),
            final(self).dist_regs() == old(self).dist_regs(),
            forall|c2: int| 0 <= c2 < old(self).ncpu() ==> #[trigger] final(self).curr_lrs_of(c2) == old(self).curr_lrs_of(c2),
    {
        if is_pend {
            self.cpu_priv[c].pend_list.push(id);
        } else {
            self.cpu_priv[c].act_list.push(id);
        }
    }

    fn list_drop(&mut self, c: usize, id: u16, is_pend: bool)
        requires
            0 <= c < old(self).ncpu(),
            old(self).list_of(c as int, is_pend).no_duplicates(),
        ensures
            final(self).ncpu() == old(self).ncpu(),
            final(self).nshared() == old(self).nshared(),
            forall|c2: int, id2: u16| #[trigger] final(self).valid_id(c2, id2) == old(self).valid_id(c2, id2),
            forall|c2: int, id2: u16| old(self).valid_id(c2, id2) ==> #[trigger] final(self).int_of(c2, id2) == old(self).int_of(c2, id2),
            final(self).list_of(c as int, is_pend).no_duplicates(),
            !final(self).list_of(c as int, is_pend).contains(id),
            forall|x: u16| x != id ==> (#[trigger] final(self).list_of(c as int, is_pend).contains(x) <==> old(self).list_of(c as int, is_pend).contains(x)),
            !old(self).list_of(c as int, is_pend).contains(id) ==> final(self).list_of(c as int, is_pend) == old(self).list_of(c as int, is_pend),
            removed_from(old(self).list_of(c as int, is_pend), final(self).list_of(c as int, is_pend), id),
            forall|c2: int, b: bool| 0 <= c2 < old(self).ncpu() && (c2 != c || b != is_pend) ==> #[trigger] final(self).list_of(c2, b) == old(self).list_of(c2, b),
            final(self).dist_regs() == old(self).dist_regs(),
            forall|c2: int| 0 <= c2 < old(self).ncpu() ==> #[trigger] final(self).curr_lrs_of(c2) == old(self).curr_lrs_of(c2),
    {
        if is_pend {
            list_remove(&mut self.cpu_priv[c].pend_list, id);
        } else {
            list_remove(&mut self.cpu_priv[c].act_list, id);
        }
    }

    /// Puts interrupt `id` of CPU `c` on the tail of the chosen list and marks
    /// it listed, unless it sits in a list register.
    fn add_int_list(&mut self, c: usize, id: u16, is_pend: bool)
        requires
            old(self).wf(),
            old(self).valid_id(c as int, id),
            !flag_of(old(self).int_of(c as int, id), is_pend),
        ensures
            final(self).wf(),
            final(self).ncpu() == old(self).ncpu(),
            final(self).nshared() == old(self).nshared(),
            forall|c2: int, id2: u16| #[trigger] final(self).valid_id(c2, id2) == old(self).valid_id(c2, id2),
            old(self).int_of(c as int, id).in_lr ==> *final(self) == *old(self),
            !old(self).int_of(c as int, id).in_lr ==> {
                &&& final(self).int_of(c as int, id) == with_flag(old(self).int_of(c as int, id), is_pend, true)
                &&& final(self).list_of(c as int, is_pend) == old(self).list_of(c as int, is_pend).push(id)
            },
            forall|c2: int, id2: u16| old(self).valid_id(c2, id2) && !same_record(c as int, id, c2, id2) ==> #[trigger] final(self).int_of(c2, id2) == old(self).int_of(c2, id2),
            forall|c2: int, b: bool| 0 <= c2 < old(self).ncpu() && (c2 != c || b != is_pend) ==> #[trigger] final(self).list_of(c2, b) == old(self).list_of(c2, b),
            forall|c2: int, b: bool, x: u16| 0 <= c2 < old(self).ncpu() && x != id ==> (#[trigger] final(self).list_of(c2, b).contains(x) <==> old(self).list_of(c2, b).contains(x)),
            final(self).dist_regs() == old(self).dist_regs(),
            forall|c2: int| 0 <= c2 < old(self).ncpu() ==> #[trigger] final(self).curr_lrs_of(c2) == old(self).curr_lrs_of(c2),
    {
        let rec = self.get_int(c, id);
        if !rec.in_lr {
            let ghost old_self = *self;
            let mut r2 = rec;
            if is_pend {
                r2.in_pend = true;
            } else {
                r2.in_act = true;
            }
            assert(r2 == with_flag(rec, is_pend, true));
            self.set_int(c, id, r2);
            self.list_push(c, id, is_pend);
            proof {
                assert forall|c2: int, b: bool, x: u16| 0 <= c2 < old_self.ncpu() && x != id implies (#[trigger] self.list_of(c2, b).contains(x) <==> old_self.list_of(c2, b).contains(x)) by {
                    if c2 == c && b == is_pend {
                        let l = old_self.list_of(c2, b);
                        if l.contains(x) {
                            let k = choose|k: int| 0 <= k < l.len() && l[k] == x;
                            assert(self.list_of(c2, b)[k] == x);
                        }
                        if self.list_of(c2, b).contains(x) {
                            let k = choose|k: int| 0 <= k < l.push(id).len() && l.push(id)[k] == x;
                            assert(l[k] == x);
                        }
                    }
                }
                assert(!old_self.list_of(c as int, is_pend).contains(id));
                assert forall|c2: int, b: bool| 0 <= c2 < self.ncpu() implies #[trigger] self.list_of(c2, b).no_duplicates() by {
                    if c2 == c && b == is_pend {
                        let l = old_self.list_of(c as int, is_pend);
                        assert(l.no_duplicates());
                        assert(l.push(id) =~= self.list_of(c2, b));
                        assert forall|k1: int, k2: int| 0 <= k1 < k2 < l.push(id).len() implies l.push(id)[k1] != l.push(id)[k2] by {
                            if k2 == l.len() {
                                assert(l.contains(l[k1]));
                            }
                        }
                    }
                }
                assert forall|c2: int, b: bool, x: u16| 0 <= c2 < self.ncpu() && #[trigger] self.list_of(c2, b).contains(x) implies self.valid_id(c2, x) && flag_of(self.int_of(c2, x), b) by {
                    if c2 == c && b == is_pend && x != id {
                        let l = old_self.list_of(c as int, is_pend);
                        let k = choose|k: int| 0 <= k < l.push(id).len() && l.push(id)[k] == x;
                        assert(l[k] == x);
                    }
                    if c2 == c && b == is_pend && x == id {
                    } else if same_record(c as int, id, c2, x) {
                        assert(old_self.list_of(c2, b).contains(x) || (c2 == c && b == is_pend));
                        if !(c2 == c && b == is_pend) {
                            assert(old_self.list_of(c2, b).contains(x));
                        } else {
                            let l = old_self.list_of(c as int, is_pend);
                            let k = choose|k: int| 0 <= k < l.push(id).len() && l.push(id)[k] == x;
                            assert(l[k] == x);
                        }
                    } else {
                        assert(old_self.list_of(c2, b).contains(x));
                    }
                }
                assert forall|c2: int, b: bool, x: u16| self.valid_id(c2, x) && #[trigger] flag_of(self.int_of(c2, x), b) implies self.listed(c2, x, b) by {
                    assert(self.list_of(c as int, is_pend)[old_self.list_of(c as int, is_pend).len() as int] == id);
                    assert(self.list_of(c as int, is_pend).contains(id));
                    if same_record(c as int, id, c2, x) && b == is_pend {
                        if x >= GIC_PRIVATE_INT_NUM {
                            assert(self.list_of(c as int, b).contains(x));
                        }
                    } else {
                        if same_record(c as int, id, c2, x) {
                            assert(self.int_of(c2, x) == self.int_of(c as int, id));
                            assert(old_self.int_of(c2, x) == old_self.int_of(c as int, id));
                        }
                        assert(flag_of(old_self.int_of(c2, x), b));
                        assert(old_self.listed(c2, x, b));
                        if x < GIC_PRIVATE_INT_NUM {
                            assert(old_self.list_of(c2, b).contains(x));
                            if c2 == c && b == is_pend {
                                let l = old_self.list_of(c2, b);
                                let k = choose|k: int| 0 <= k < l.len() && l[k] == x;
                                assert(self.list_of(c2, b)[k] == x);
                            }
                        } else {
                            let c3 = choose|c3: int| 0 <= c3 < old_self.ncpu() && #[trigger] old_self.list_of(c3, b).contains(x);
                            if c3 == c && b == is_pend {
                                let l = old_self.list_of(c3, b);
                                let k = choose|k: int| 0 <= k < l.len() && l[k] == x;
                                assert(self.list_of(c3, b)[k] == x);
                            }
                            assert(self.list_of(c3, b).contains(x));
                        }
                    }
                }
            }
        }
    }

    /// Takes interrupt `id` of CPU `c` off the chosen lists and clears its
    /// listed flag: for a private id the list of `c`, for a shared id those of
    /// every CPU.
    fn remove_int_list(&mut self, c: usize, id: u16, is_pend: bool)
        requires
            old(self).wf(),
            old(self).valid_id(c as int, id),
        ensures
            final(self).wf(),
            final(self).ncpu() == old(self).ncpu(),
            final(self).nshared() == old(self).nshared(),
            forall|c2: int, id2: u16| #[trigger] final(self).valid_id(c2, id2) == old(self).valid_id(c2, id2),
            final(self).int_of(c as int, id) == with_flag(old(self).int_of(c as int, id), is_pend, false),
            !final(self).listed(c as int, id, is_pend),
            forall|c2: int, id2: u16| old(self).valid_id(c2, id2) && !same_record(c as int, id, c2, id2) ==> #[trigger] final(self).int_of(c2, id2) == old(self).int_of(c2, id2),
            forall|c2: int, b: bool, x: u16| 0 <= c2 < old(self).ncpu() && (x != id || b != is_pend) ==> (#[trigger] final(self).list_of(c2, b).contains(x) <==> old(self).list_of(c2, b).contains(x)),
            forall|c2: int, b: bool| 0 <= c2 < old(self).ncpu() && (b != is_pend || !old(self).list_of(c2, b).contains(id)) ==> #[trigger] final(self).list_of(c2, b) == old(self).list_of(c2, b),
            id < GIC_PRIVATE_INT_NUM ==> forall|c2: int, b: bool| 0 <= c2 < old(self).ncpu() && c2 != c ==> #[trigger] final(self).list_of(c2, b) == old(self).list_of(c2, b),
            forall|c2: int| 0 <= c2 < old(self).ncpu() && (id >= GIC_PRIVATE_INT_NUM || c2 == c) ==> removed_from(old(self).list_of(c2, is_pend), #[trigger] final(self).list_of(c2, is_pend), id),
            final(self).dist_regs() == old(self).dist_regs(),
            forall|c2: int| 0 <= c2 < old(self).ncpu() ==> #[trigger] final(self).curr_lrs_of(c2) == old(self).curr_lrs_of(c2),
    {
        let ghost old_self = *self;
        if id < GIC_PRIVATE_INT_NUM as u16 {
            self.list_drop(c, id, is_pend);
        } else {
            let n = self.cpu_priv.len();
            let mut k: usize = 0;
            while k < n
                invariant
                    n == old_self.ncpu(),
                    k <= n,
                    id >= GIC_PRIVATE_INT_NUM,
                    self.ncpu() == old_self.ncpu(),
                    self.nshared() == old_self.nshared(),
                    self.dist_regs() == old_self.dist_regs(),
                    forall|c2: int| 0 <= c2 < n ==> #[trigger] self.curr_lrs_of(c2) == old_self.curr_lrs_of(c2),
                    forall|c2: int, id2: u16| #[trigger] self.valid_id(c2, id2) == old_self.valid_id(c2, id2),
                    forall|c2: int, id2: u16| old_self.valid_id(c2, id2) ==> #[trigger] self.int_of(c2, id2) == old_self.int_of(c2, id2),
                    forall|c2: int, b: bool| 0 <= c2 < n ==> #[trigger] self.list_of(c2, b).no_duplicates(),
                    forall|c2: int| 0 <= c2 < k ==> !(#[trigger] self.list_of(c2, is_pend)).contains(id),
                    forall|c2: int| 0 <= c2 < k ==> removed_from(old_self.list_of(c2, is_pend), #[trigger] self.list_of(c2, is_pend), id),
                    forall|c2: int, b: bool, x: u16| 0 <= c2 < n && (x != id || b != is_pend) ==> (#[trigger] self.list_of(c2, b).contains(x) <==> old_self.list_of(c2, b).contains(x)),
                    forall|c2: int, b: bool| 0 <= c2 < n && (c2 >= k || b != is_pend || !old_self.list_of(c2, b).contains(id)) ==> #[trigger] self.list_of(c2, b) == old_self.list_of(c2, b),
                decreases n - k,
            {
                self.list_drop(k, id, is_pend);
                k += 1;
            }
        }
        let rec = self.get_int(c, id);
        let mut r2 = rec;
        if is_pend {
            r2.in_pend = false;
        } else {
            r2.in_act = false;
        }
        assert(r2 == with_flag(rec, is_pend, false));
        let ghost mid = *self;
        self.set_int(c, id, r2);
        proof {
            if id >= GIC_PRIVATE_INT_NUM {
                assert(forall|c2: int| 0 <= c2 < self.ncpu() ==> !(#[trigger] self.list_of(c2, is_pend)).contains(id));
            }
            assert forall|c2: int, b: bool, x: u16| 0 <= c2 < self.ncpu() && #[trigger] self.list_of(c2, b).contains(x) implies self.valid_id(c2, x) && flag_of(self.int_of(c2, x), b) by {
                assert(mid.list_of(c2, b).contains(x));
                if same_record(c as int, id, c2, x) && b == is_pend {
                    assert(false);
                }
                if same_record(c as int, id, c2, x) {
                    assert(self.int_of(c2, x) == self.int_of(c as int, id));
                    assert(old_self.int_of(c2, x) == old_self.int_of(c as int, id));
                }
                assert(old_self.list_of(c2, b).contains(x));
            }
            assert forall|c2: int, b: bool, x: u16| self.valid_id(c2, x) && #[trigger] flag_of(self.int_of(c2, x), b) implies self.listed(c2, x, b) by {
                if same_record(c as int, id, c2, x) {
                    assert(self.int_of(c2, x) == self.int_of(c as int, id));
                    assert(old_self.int_of(c2, x) == old_self.int_of(c as int, id));
                }
                assert(flag_of(old_self.int_of(c2, x), b));
                assert(old_self.listed(c2, x, b));
                if x < GIC_PRIVATE_INT_NUM {
                    assert(old_self.list_of(c2, b).contains(x));
                    assert(self.list_of(c2, b).contains(x));
                } else {
                    let c3 = choose|c3: int| 0 <= c3 < old_self.ncpu() && #[trigger] old_self.list_of(c3, b).contains(x);
                    assert(self.list_of(c3, b).contains(x));
                }
            }
        }
    }

    /// Brings the lists in line with the state of interrupt `id` of CPU `c`:
    /// it is listed as pending exactly when its pending bit is set and it is
    /// not in a list register, and likewise for active. A newly listed
    /// interrupt goes to the tail of its list.
    pub fn update_int_list(&mut self, vcpu_id: usize, int_id: u16)
        requires
            old(self).wf(),
            old(self).valid_id(vcpu_id as int, int_id),
        ensures
            final(self).wf(),
            final(self).ncpu() == old(self).ncpu(),
            final(self).nshared() == old(self).nshared(),
            forall|c2: int, id2: u16| #[trigger] final(self).valid_id(c2, id2) == old(self).valid_id(c2, id2),
            ({
                let r = old(self).int_of(vcpu_id as int, int_id);
                let p = state_pending(r.state) && !r.in_lr;
                let a = state_active(r.state) && !r.in_lr;
                &&& final(self).int_of(vcpu_id as int, int_id) == VgicInt { in_pend: p, in_act: a, ..r }
                &&& final(self).listed(vcpu_id as int, int_id, true) == p
                &&& final(self).listed(vcpu_id as int, int_id, false) == a
            }),
            forall|c2: int, id2: u16| old(self).valid_id(c2, id2) && !same_record(vcpu_id as int, int_id, c2, id2) ==> #[trigger] final(self).int_of(c2, id2) == old(self).int_of(c2, id2),
            forall|c2: int, b: bool, x: u16| 0 <= c2 < old(self).ncpu() && x != int_id ==> (#[trigger] final(self).list_of(c2, b).contains(x) <==> old(self).list_of(c2, b).contains(x)),
            int_id < GIC_PRIVATE_INT_NUM ==> forall|c2: int, b: bool| 0 <= c2 < old(self).ncpu() && c2 != vcpu_id ==> #[trigger] final(self).list_of(c2, b) == old(self).list_of(c2, b),
            final(self).synced(vcpu_id as int, int_id),
            forall|c2: int, b: bool| 0 <= c2 < old(self).ncpu() ==> list_step(old(self).list_of(c2, b), #[trigger] final(self).list_of(c2, b), int_id),
            old(self).synced(vcpu_id as int, int_id) ==> final(self).int_of(vcpu_id as int, int_id) == old(self).int_of(vcpu_id as int, int_id),
            old(self).synced(vcpu_id as int, int_id) ==> forall|c2: int, b: bool| 0 <= c2 < old(self).ncpu() ==> #[trigger] final(self).list_of(c2, b) == old(self).list_of(c2, b),
            forall|c2: int, id2: u16| old(self).valid_id(c2, id2) && !same_record(vcpu_id as int, int_id, c2, id2) && old(self).synced(c2, id2) ==> #[trigger] final(self).synced(c2, id2),
            final(self).dist_regs() == old(self).dist_regs(),
            forall|c2: int| 0 <= c2 < old(self).ncpu() ==> #[trigger] final(self).curr_lrs_of(c2) == old(self).curr_lrs_of(c2),
    {
        let ghost old_self = *self;
        let c = vcpu_id;
        let id = int_id;
        let rec = self.get_int(c, id);
        proof {
            lemma_flag_is_listed(old_self, c as int, id, true);
            lemma_flag_is_listed(old_self, c as int, id, false);
        }
        let state = rec.state.to_num();
        let want_pend = state & 1 != 0 && !rec.in_lr;
        let want_act = state & 2 != 0 && !rec.in_lr;
        if want_pend && !rec.in_pend {
            self.add_int_list(c, id, true);
        } else if !want_pend {
            self.remove_int_list(c, id, true);
        }
        let ghost mid = *self;
        proof {
            assert(self.int_of(c as int, id).in_pend == want_pend);
            assert(self.int_of(c as int, id).in_act == rec.in_act);
            assert(self.int_of(c as int, id).in_lr == rec.in_lr);
            assert(self.int_of(c as int, id).state == rec.state);
            if want_pend {
                assert(flag_of(self.int_of(c as int, id), true));
                assert(self.listed(c as int, id, true));
            }
        }
        let rec2 = self.get_int(c, id);
        if want_act && !rec2.in_act {
            self.add_int_list(c, id, false);
        } else if !want_act {
            self.remove_int_list(c, id, false);
        }
        proof {
            if want_pend {
                if id < GIC_PRIVATE_INT_NUM {
                    assert(mid.list_of(c as int, true).contains(id));
                    assert(self.list_of(c as int, true).contains(id));
                } else {
                    let c3 = choose|c3: int| 0 <= c3 < mid.ncpu() && #[trigger] mid.list_of(c3, true).contains(id);
                    assert(self.list_of(c3, true).contains(id));
                }
            } else {
                if id < GIC_PRIVATE_INT_NUM {
                    assert(!mid.list_of(c as int, true).contains(id));
                    assert(!self.list_of(c as int, true).contains(id));
                } else {
                    assert forall|c3: int| 0 <= c3 < self.ncpu() implies !(#[trigger] self.list_of(c3, true)).contains(id) by {
                        assert(!mid.list_of(c3, true).contains(id));
                    }
                }
            }
            if want_act {
                assert(flag_of(self.int_of(c as int, id), false));
                assert(self.listed(c as int, id, false));
            }
            assert(self.int_of(c as int, id) == VgicInt { in_pend: want_pend, in_act: want_act, ..rec });
        }
    }

    fn set_curr_lr(&mut self, c: usize, lr: usize, id: u16)
        requires
            0 <= c < old(self).ncpu(),
            lr < GIC_LIST_REGS_NUM,
            old(self).wf(),
        ensures
            final(self).wf(),
            forall|c2: int, id2: u16, b: bool| 0 <= c2 < old(self).ncpu() ==> #[trigger] final(self).listed(c2, id2, b) == old(self).listed(c2, id2, b),
            final(self).ncpu() == old(self).ncpu(),
            final(self).nshared() == old(self).nshared(),
            forall|c2: int, id2: u16| #[trigger] final(self).valid_id(c2, id2) == old(self).valid_id(c2, id2),
            forall|c2: int, id2: u16| old(self).valid_id(c2, id2) ==> #[trigger] final(self).int_of(c2, id2) == old(self).int_of(c2, id2),
            forall|c2: int, b: bool| 0 <= c2 < old(self).ncpu() ==> #[trigger] final(self).list_of(c2, b) == old(self).list_of(c2, b),
            final(self).curr_lrs_of(c as int) == old(self).curr_lrs_of(c as int).update(lr as int, id),
            forall|c2: int| 0 <= c2 < old(self).ncpu() && c2 != c ==> #[trigger] final(self).curr_lrs_of(c2) == old(self).curr_lrs_of(c2),
            final(self).dist_regs() == old(self).dist_regs(),
    {
        let ghost before = *self;
        self.cpu_priv[c].curr_lrs[lr] = id;
        proof {
            assert forall|c2: int, id2: u16, b: bool| 0 <= c2 < before.ncpu() implies #[trigger] self.listed(c2, id2, b) == before.listed(c2, id2, b) by {
                if id2 >= GIC_PRIVATE_INT_NUM {
                    if before.listed(c2, id2, b) {
                        let c3 = choose|c3: int| 0 <= c3 < before.ncpu() && #[trigger] before.list_of(c3, b).contains(id2);
                        assert(self.list_of(c3, b).contains(id2));
                    }
                    if self.listed(c2, id2, b) {
                        let c3 = choose|c3: int| 0 <= c3 < self.ncpu() && #[trigger] self.list_of(c3, b).contains(id2);
                        assert(before.list_of(c3, b).contains(id2));
                    }
                }
            }
            assert forall|c2: int, b: bool, x: u16| self.valid_id(c2, x) && #[trigger] flag_of(self.int_of(c2, x), b) implies self.listed(c2, x, b) by {
                assert(before.valid_id(c2, x));
                assert(before.int_of(c2, x) == self.int_of(c2, x));
                assert(before.listed(c2, x, b));
            }
            assert forall|c2: int, b: bool, x: u16| 0 <= c2 < self.ncpu() && #[trigger] self.list_of(c2, b).contains(x) implies self.valid_id(c2, x) && flag_of(self.int_of(c2, x), b) by {
                assert(before.list_of(c2, b).contains(x));
                assert(before.valid_id(c2, x));
                assert(before.int_of(c2, x) == self.int_of(c2, x));
            }
            assert forall|c2: int, b: bool| 0 <= c2 < self.ncpu() implies #[trigger] self.list_of(c2, b).no_duplicates() by {
                assert(before.list_of(c2, b).no_duplicates());
            }
        }
    }

    /// The interrupt id that each list register of CPU `c` last received.
    pub closed spec fn curr_lrs_of(&self, c: int) -> Seq<u16> {
        self.cpu_priv@[c].curr_lrs@
    }

    /// Delivers interrupt `int_id` to CPU `vcpu_id` through its list
    /// registers, given the empty-register bits `elrsr` and the register
    /// values `lrs` read from hardware. When a register is allocated the
    /// interrupt is recorded as resident there, which takes it off the
    /// software lists; the caller writes the returned value to that
    /// register. Otherwise nothing changes.
    pub fn inject_irq(&mut self, vcpu_id: usize, int_id: u16, elrsr: u64, lrs: &Vec<u32>) -> (r: InjectOutcome)
        requires
            old(self).wf(),
            old(self).valid_id(vcpu_id as int, int_id),
            lrs@.len() <= GIC_LIST_REGS_NUM,
            int_id <= LR_VIRTIRQ_MASK,
        ensures
            final(self).wf(),
            scan_result(elrsr, lrs@, int_id as u32, r),
            !(r is Allocated) ==> *final(self) == *old(self),
            r matches InjectOutcome::Allocated { lr, value } ==> {
                let old_rec = old(self).int_of(vcpu_id as int, int_id);
                &&& final(self).int_of(vcpu_id as int, int_id) == VgicInt {
                    in_lr: true,
                    lr: lr as u16,
                    in_pend: false,
                    in_act: false,
                    ..old_rec
                }
                &&& !final(self).listed(vcpu_id as int, int_id, true)
                &&& !final(self).listed(vcpu_id as int, int_id, false)
                &&& final(self).curr_lrs_of(vcpu_id as int) == old(self).curr_lrs_of(vcpu_id as int).update(lr as int, int_id)
            },
            final(self).ncpu() == old(self).ncpu(),
            final(self).nshared() == old(self).nshared(),
            forall|c2: int, id2: u16| old(self).valid_id(c2, id2) && !same_record(vcpu_id as int, int_id, c2, id2) ==> #[trigger] final(self).int_of(c2, id2) == old(self).int_of(c2, id2),
            forall|c2: int, b: bool| 0 <= c2 < old(self).ncpu() ==> list_step(old(self).list_of(c2, b), #[trigger] final(self).list_of(c2, b), int_id),
            final(self).dist_regs() == old(self).dist_regs(),
    {
        let r = scan_list_regs(elrsr, lrs, int_id as u32);
        match r {
            InjectOutcome::Allocated { lr, value: _ } => {
                let ghost old_self = *self;
                let c = vcpu_id;
                let rec = self.get_int(c, int_id);
                let mut r2 = rec;
                r2.in_lr = true;
                r2.lr = lr as u16;
                self.set_int(c, int_id, r2);
                proof {
                    assert forall|c2: int, b: bool, x: u16| 0 <= c2 < self.ncpu() && #[trigger] self.list_of(c2, b).contains(x) implies self.valid_id(c2, x) && flag_of(self.int_of(c2, x), b) by {
                        assert(old_self.list_of(c2, b).contains(x));
                        if same_record(c as int, int_id, c2, x) {
                            assert(old_self.int_of(c2, x) == old_self.int_of(c as int, int_id));
                            assert(self.int_of(c2, x) == self.int_of(c as int, int_id));
                        }
                    }
                    assert forall|c2: int, b: bool, x: u16| self.valid_id(c2, x) && #[trigger] flag_of(self.int_of(c2, x), b) implies self.listed(c2, x, b) by {
                        if same_record(c as int, int_id, c2, x) {
                            assert(old_self.int_of(c2, x) == old_self.int_of(c as int, int_id));
                            assert(self.int_of(c2, x) == self.int_of(c as int, int_id));
                        }
                        assert(flag_of(old_self.int_of(c2, x), b));
                        assert(old_self.listed(c2, x, b));
                        if x >= GIC_PRIVATE_INT_NUM {
                            let c3 = choose|c3: int| 0 <= c3 < old_self.ncpu() && #[trigger] old_self.list_of(c3, b).contains(x);
                            assert(self.list_of(c3, b).contains(x));
                        }
                    }
                }
                self.update_int_list(c, int_id);
                self.set_curr_lr(c, lr, int_id);
            },
            _ => {},
        }
        r
    }
}


/// The frame facts that keep `wf`: same banks, same records, same lists.
proof fn lemma_wf_frame(before: Vgic, after: Vgic)
    requires
        before.wf(),
        after.ncpu() == before.ncpu(),
        forall|c2: int, id2: u16| #[trigger] after.valid_id(c2, id2) == before.valid_id(c2, id2),
        forall|c2: int, id2: u16| before.valid_id(c2, id2) ==> #[trigger] after.int_of(c2, id2) == before.int_of(c2, id2),
        forall|c2: int, b: bool| 0 <= c2 < before.ncpu() ==> #[trigger] after.list_of(c2, b) == before.list_of(c2, b),
    ensures
        after.wf(),
        forall|c2: int, id2: u16, b: bool| 0 <= c2 < before.ncpu() ==> #[trigger] after.listed(c2, id2, b) == before.listed(c2, id2, b),
{
    assert forall|c2: int, id2: u16, b: bool| 0 <= c2 < before.ncpu() implies #[trigger] after.listed(c2, id2, b) == before.listed(c2, id2, b) by {
        if id2 >= GIC_PRIVATE_INT_NUM {
            if before.listed(c2, id2, b) {
                let c3 = choose|c3: int| 0 <= c3 < before.ncpu() && #[trigger] before.list_of(c3, b).contains(id2);
                assert(after.list_of(c3, b).contains(id2));
            }
            if after.listed(c2, id2, b) {
                let c3 = choose|c3: int| 0 <= c3 < after.ncpu() && #[trigger] after.list_of(c3, b).contains(id2);
                assert(before.list_of(c3, b).contains(id2));
            }
        }
    }
    assert forall|c2: int, b: bool, x: u16| after.valid_id(c2, x) && #[trigger] flag_of(after.int_of(c2, x), b) implies after.listed(c2, x, b) by {
        assert(before.valid_id(c2, x));
        assert(before.listed(c2, x, b));
    }
    assert forall|c2: int, b: bool, x: u16| 0 <= c2 < after.ncpu() && #[trigger] after.list_of(c2, b).contains(x) implies after.valid_id(c2, x) && flag_of(after.int_of(c2, x), b) by {
        assert(before.list_of(c2, b).contains(x));
    }
    assert forall|c2: int, b: bool| 0 <= c2 < after.ncpu() implies #[trigger] after.list_of(c2, b).no_duplicates() by {
        assert(before.list_of(c2, b).no_duplicates());
    }
}

impl Vgic {
    /// A controller with no CPU banks and no shared interrupts.
    pub fn default() -> (r: Vgic)
        ensures
            r.wf(),
            r.ncpu() == 0,
            r.nshared() == 0,
            r.dist_regs() == (0u32, 0u32, 0u32),
    {
        Vgic { vgicd: Vgicd { ctlr: 0, typer: 0, iidr: 0, interrupts: Vec::new() }, cpu_priv: Vec::new() }
    }

    /// Shared interrupt `j`, of id `GIC_PRIVATE_INT_NUM + j`.
    pub closed spec fn shared_int(&self, j: int) -> VgicInt {
        self.vgicd.interrupts@[j]
    }

    /// Private interrupt `i` of CPU `c`.
    pub closed spec fn priv_int(&self, c: int, i: int) -> VgicInt {
        self.cpu_priv@[c].interrupts@[i]
    }

    /// Number of private interrupts of CPU `c`.
    pub closed spec fn npriv(&self, c: int) -> nat {
        self.cpu_priv@[c].interrupts@.len()
    }

    /// The software-generated interrupt bits of CPU `c`.
    pub closed spec fn sgis_of(&self, c: int) -> Seq<Sgis> {
        self.cpu_priv@[c].sgis@
    }

    /// Adds the bank of a new CPU, numbered `ncpu()`. Its lists must be empty
    /// and none of its interrupts marked listed.
    pub fn add_cpu_priv(&mut self, cpu: VgicCpuPriv)
        requires
            old(self).wf(),
            cpu.pend_list@.len() == 0,
            cpu.act_list@.len() == 0,
            cpu.interrupts@.len() <= GIC_PRIVATE_INT_NUM,
            forall|i: int| 0 <= i < cpu.interrupts@.len() ==> !(#[trigger] cpu.interrupts@[i]).in_pend && !cpu.interrupts@[i].in_act,
            old(self).ncpu() == 0 ==> forall|j: int| 0 <= j < old(self).nshared() ==> !(#[trigger] old(self).shared_int(j)).in_pend && !old(self).shared_int(j).in_act,
        ensures
            final(self).wf(),
            final(self).ncpu() == old(self).ncpu() + 1,
            final(self).nshared() == old(self).nshared(),
            final(self).npriv(old(self).ncpu() as int) == cpu.interrupts@.len(),
            forall|i: int| 0 <= i < cpu.interrupts@.len() ==> #[trigger] final(self).priv_int(old(self).ncpu() as int, i) == cpu.interrupts@[i],
            forall|c2: int, id2: u16| 0 <= c2 < old(self).ncpu() ==> #[trigger] final(self).valid_id(c2, id2) == old(self).valid_id(c2, id2),
            forall|c2: int, id2: u16| old(self).valid_id(c2, id2) ==> #[trigger] final(self).int_of(c2, id2) == old(self).int_of(c2, id2),
            final(self).dist_regs() == old(self).dist_regs(),
    {
        let ghost before = *self;
        let ghost n = self.cpu_priv@.len() as int;
        self.cpu_priv.push(cpu);
        proof {
            assert(self.list_of(n, true) =~= Seq::<u16>::empty());
            assert(self.list_of(n, false) =~= Seq::<u16>::empty());
            assert forall|c2: int, b: bool| 0 <= c2 < self.ncpu() implies #[trigger] self.list_of(c2, b).no_duplicates() by {
                if c2 < n {
                    assert(before.list_of(c2, b).no_duplicates());
                }
            }
            assert forall|c2: int, b: bool, x: u16| 0 <= c2 < self.ncpu() && #[trigger] self.list_of(c2, b).contains(x) implies self.valid_id(c2, x) && flag_of(self.int_of(c2, x), b) by {
                assert(c2 < n);
                assert(before.list_of(c2, b).contains(x));
            }
            assert forall|c2: int, b: bool, x: u16| self.valid_id(c2, x) && #[trigger] flag_of(self.int_of(c2, x), b) implies self.listed(c2, x, b) by {
                if c2 == n && x < GIC_PRIVATE_INT_NUM {
                    assert(!flag_of(self.int_of(c2, x), b));
                } else if x < GIC_PRIVATE_INT_NUM {
                    assert(before.valid_id(c2, x));
                    assert(before.int_of(c2, x) == self.int_of(c2, x));
                    assert(before.listed(c2, x, b));
                    assert(self.list_of(c2, b) == before.list_of(c2, b));
                } else {
                    assert(self.int_of(c2, x) == before.shared_int(x - GIC_PRIVATE_INT_NUM));
                    assert(before.ncpu() > 0);
                    let c0: int = if c2 < n { c2 } else { 0 };
                    assert(before.valid_id(c0, x));
                    assert(before.int_of(c0, x) == self.int_of(c2, x));
                    assert(before.listed(c0, x, b));
                    let c3 = choose|c3: int| 0 <= c3 < before.ncpu() && #[trigger] before.list_of(c3, b).contains(x);
                    assert(self.list_of(c3, b).contains(x));
                }
            }
        }
    }

    /// Adds a shared interrupt with the next free shared id. It must not be
    /// marked listed.
    pub fn add_shared_interrupt(&mut self, irq: VgicInt)
        requires
            old(self).wf(),
            !irq.in_pend,
            !irq.in_act,
            old(self).nshared() + GIC_PRIVATE_INT_NUM < u16::MAX,
        ensures
            final(self).wf(),
            final(self).ncpu() == old(self).ncpu(),
            final(self).nshared() == old(self).nshared() + 1,
            final(self).shared_int(old(self).nshared() as int) == irq,
            forall|c2: int, id2: u16| old(self).valid_id(c2, id2) ==> #[trigger] final(self).valid_id(c2, id2),
            forall|c2: int, id2: u16| old(self).valid_id(c2, id2) ==> #[trigger] final(self).int_of(c2, id2) == old(self).int_of(c2, id2),
            final(self).dist_regs() == old(self).dist_regs(),
    {
        let ghost before = *self;
        self.vgicd.interrupts.push(irq);
        proof {
            assert forall|c2: int, b: bool| 0 <= c2 < self.ncpu() implies #[trigger] self.list_of(c2, b).no_duplicates() by {
                assert(before.list_of(c2, b).no_duplicates());
            }
            assert forall|c2: int, b: bool, x: u16| 0 <= c2 < self.ncpu() && #[trigger] self.list_of(c2, b).contains(x) implies self.valid_id(c2, x) && flag_of(self.int_of(c2, x), b) by {
                assert(before.list_of(c2, b).contains(x));
            }
            assert forall|c2: int, b: bool, x: u16| self.valid_id(c2, x) && #[trigger] flag_of(self.int_of(c2, x), b) implies self.listed(c2, x, b) by {
                if x >= GIC_PRIVATE_INT_NUM && x - GIC_PRIVATE_INT_NUM == before.nshared() {
                    assert(self.int_of(c2, x) == irq);
                }
                assert(before.valid_id(c2, x));
                assert(before.int_of(c2, x) == self.int_of(c2, x));
                assert(before.listed(c2, x, b));
                if x >= GIC_PRIVATE_INT_NUM {
                    let c3 = choose|c3: int| 0 <= c3 < before.ncpu() && #[trigger] before.list_of(c3, b).contains(x);
                    assert(self.list_of(c3, b).contains(x));
                }
            }
        }
    }

    /// Sets the state of interrupt `int_id` of CPU `vcpu_id` and brings the
    /// lists in line with it.
    pub fn set_int_state(&mut self, vcpu_id: usize, int_id: u16, state: IrqState)
        requires
            old(self).wf(),
            old(self).valid_id(vcpu_id as int, int_id),
        ensures
            final(self).wf(),
            final(self).ncpu() == old(self).ncpu(),
            final(self).nshared() == old(self).nshared(),
            forall|c2: int, id2: u16| #[trigger] final(self).valid_id(c2, id2) == old(self).valid_id(c2, id2),
            ({
                let r = old(self).int_of(vcpu_id as int, int_id);
                let p = state_pending(state) && !r.in_lr;
                let a = state_active(state) && !r.in_lr;
                &&& final(self).int_of(vcpu_id as int, int_id) == VgicInt { state, in_pend: p, in_act: a, ..r }
                &&& final(self).listed(vcpu_id as int, int_id, true) == p
                &&& final(self).listed(vcpu_id as int, int_id, false) == a
            }),
            forall|c2: int, id2: u16| old(self).valid_id(c2, id2) && !same_record(vcpu_id as int, int_id, c2, id2) ==> #[trigger] final(self).int_of(c2, id2) == old(self).int_of(c2, id2),
            forall|c2: int, b: bool, x: u16| 0 <= c2 < old(self).ncpu() && x != int_id ==> (#[trigger] final(self).list_of(c2, b).contains(x) <==> old(self).list_of(c2, b).contains(x)),
            final(self).synced(vcpu_id as int, int_id),
            forall|c2: int, id2: u16| old(self).valid_id(c2, id2) && !same_record(vcpu_id as int, int_id, c2, id2) && old(self).synced(c2, id2) ==> #[trigger] final(self).synced(c2, id2),
            forall|c2: int, b: bool| 0 <= c2 < old(self).ncpu() ==> list_step(old(self).list_of(c2, b), #[trigger] final(self).list_of(c2, b), int_id),
            final(self).dist_regs() == old(self).dist_regs(),
    {
        let ghost before = *self;
        let mut rec = self.get_int(vcpu_id, int_id);
        rec.state = state;
        self.set_int(vcpu_id, int_id, rec);
        proof {
            assert forall|c2: int, b: bool, x: u16| 0 <= c2 < self.ncpu() && #[trigger] self.list_of(c2, b).contains(x) implies self.valid_id(c2, x) && flag_of(self.int_of(c2, x), b) by {
                assert(before.list_of(c2, b).contains(x));
                if same_record(vcpu_id as int, int_id, c2, x) {
                    assert(before.int_of(c2, x) == before.int_of(vcpu_id as int, int_id));
                    assert(self.int_of(c2, x) == self.int_of(vcpu_id as int, int_id));
                }
            }
            assert forall|c2: int, b: bool, x: u16| self.valid_id(c2, x) && #[trigger] flag_of(self.int_of(c2, x), b) implies self.listed(c2, x, b) by {
                if same_record(vcpu_id as int, int_id, c2, x) {
                    assert(before.int_of(c2, x) == before.int_of(vcpu_id as int, int_id));
                    assert(self.int_of(c2, x) == self.int_of(vcpu_id as int, int_id));
                }
                assert(flag_of(before.int_of(c2, x), b));
                assert(before.listed(c2, x, b));
                if x >= GIC_PRIVATE_INT_NUM {
                    let c3 = choose|c3: int| 0 <= c3 < before.ncpu() && #[trigger] before.list_of(c3, b).contains(x);
                    assert(self.list_of(c3, b).contains(x));
                }
            }
            assert forall|c2: int, b: bool| 0 <= c2 < self.ncpu() implies #[trigger] self.list_of(c2, b).no_duplicates() by {
                assert(before.list_of(c2, b).no_duplicates());
            }
        }
        self.update_int_list(vcpu_id, int_id);
    }

    /// Each list of a well-formed controller holds an id at most once.
    pub proof fn lemma_lists_no_duplicates(&self)
        requires
            self.wf(),
        ensures
            forall|c: int, b: bool| 0 <= c < self.ncpu() ==> #[trigger] self.list_of(c, b).no_duplicates(),
    {
    }

    /// Whether `id` names an interrupt seen from CPU `vcpu_id`.
    pub fn is_valid_id(&self, vcpu_id: usize, id: u16) -> (r: bool)
        ensures
            r == self.valid_id(vcpu_id as int, id),
    {
        if vcpu_id >= self.cpu_priv.len() {
            return false;
        }
        if id < GIC_PRIVATE_INT_NUM as u16 {
            (id as usize) < self.cpu_priv[vcpu_id].interrupts.len()
        } else {
            ((id - GIC_PRIVATE_INT_NUM as u16) as usize) < self.vgicd.interrupts.len()
        }
    }

    /// The oldest id on the chosen list of CPU `vcpu_id`, if any.
    pub fn int_list_head(&self, vcpu_id: usize, is_pend: bool) -> (r: Option<u16>)
        requires
            vcpu_id < self.ncpu(),
        ensures
            self.list_of(vcpu_id as int, is_pend).len() == 0 ==> r is None,
            self.list_of(vcpu_id as int, is_pend).len() > 0 ==> r == Some(self.list_of(vcpu_id as int, is_pend)[0]),
    {
        let l = if is_pend {
            &self.cpu_priv[vcpu_id].pend_list
        } else {
            &self.cpu_priv[vcpu_id].act_list
        };
        if l.len() == 0 {
            None
        } else {
            Some(l[0])
        }
    }

    /// Sets the distributor control register.
    pub fn set_vgicd_ctlr(&mut self, ctlr: u32)
        requires
            old(self).wf(),
        ensures
            final(self).wf(),
            final(self).dist_regs() == (ctlr, old(self).dist_regs().1, old(self).dist_regs().2),
            final(self).ncpu() == old(self).ncpu(),
            final(self).nshared() == old(self).nshared(),
            forall|c2: int, id2: u16| #[trigger] final(self).valid_id(c2, id2) == old(self).valid_id(c2, id2),
            forall|c2: int, id2: u16| old(self).valid_id(c2, id2) ==> #[trigger] final(self).int_of(c2, id2) == old(self).int_of(c2, id2),
            forall|c2: int, b: bool| 0 <= c2 < old(self).ncpu() ==> #[trigger] final(self).list_of(c2, b) == old(self).list_of(c2, b),
    {
        let ghost before = *self;
        self.vgicd.ctlr = ctlr;
        proof {
            lemma_wf_frame(before, *self);
        }
    }

    /// The distributor control register.
    pub fn vgicd_ctlr(&self) -> (r: u32)
        ensures
            r == self.dist_regs().0,
    {
        self.vgicd.ctlr
    }

    /// The distributor type register.
    pub fn vgicd_typer(&self) -> (r: u32)
        ensures
            r == self.dist_regs().1,
    {
        self.vgicd.typer
    }

    /// The distributor implementer identification register.
    pub fn vgicd_iidr(&self) -> (r: u32)
        ensures
            r == self.dist_regs().2,
    {
        self.vgicd.iidr
    }

    /// The interrupt id list register `idx` of CPU `cpu_id` last received.
    pub fn cpu_priv_curr_lrs(&self, cpu_id: usize, idx: usize) -> (r: u16)
        requires
            cpu_id < self.ncpu(),
            idx < GIC_LIST_REGS_NUM,
        ensures
            r == self.curr_lrs_of(cpu_id as int)[idx as int],
    {
        self.cpu_priv[cpu_id].curr_lrs[idx]
    }

    /// Records that list register `idx` of CPU `cpu_id` holds interrupt `val`.
    pub fn set_cpu_priv_curr_lrs(&mut self, cpu_id: usize, idx: usize, val: u16)
        requires
            old(self).wf(),
            cpu_id < old(self).ncpu(),
            idx < GIC_LIST_REGS_NUM,
        ensures
            final(self).wf(),
            final(self).curr_lrs_of(cpu_id as int) == old(self).curr_lrs_of(cpu_id as int).update(idx as int, val),
            final(self).ncpu() == old(self).ncpu(),
            final(self).nshared() == old(self).nshared(),
            forall|c2: int, id2: u16| #[trigger] final(self).valid_id(c2, id2) == old(self).valid_id(c2, id2),
            forall|c2: int, id2: u16| old(self).valid_id(c2, id2) ==> #[trigger] final(self).int_of(c2, id2) == old(self).int_of(c2, id2),
            forall|c2: int, b: bool| 0 <= c2 < old(self).ncpu() ==> #[trigger] final(self).list_of(c2, b) == old(self).list_of(c2, b),
    {
        self.set_curr_lr(cpu_id, idx, val);
    }

    /// Pending sources of software-generated interrupt `idx` of CPU `cpu_id`.
    pub fn cpu_priv_sgis_pend(&self, cpu_id: usize, idx: usize) -> (r: u8)
        requires
            cpu_id < self.ncpu(),
            idx < GIC_SGIS_NUM,
        ensures
            r == self.sgis_of(cpu_id as int)[idx as int].pend,
    {
        self.cpu_priv[cpu_id].sgis[idx].pend
    }

    /// Active sources of software-generated interrupt `idx` of CPU `cpu_id`.
    pub fn cpu_priv_sgis_act(&self, cpu_id: usize, idx: usize) -> (r: u8)
        requires
            cpu_id < self.ncpu(),
            idx < GIC_SGIS_NUM,
        ensures
            r == self.sgis_of(cpu_id as int)[idx as int].act,
    {
        self.cpu_priv[cpu_id].sgis[idx].act
    }

    /// Sets the pending sources of software-generated interrupt `idx` of CPU `cpu_id`.
    pub fn set_cpu_priv_sgis_pend(&mut self, cpu_id: usize, idx: usize, pend: u8)
        requires
            old(self).wf(),
            cpu_id < old(self).ncpu(),
            idx < GIC_SGIS_NUM,
        ensures
            final(self).wf(),
            final(self).sgis_of(cpu_id as int) == old(self).sgis_of(cpu_id as int).update(idx as int, Sgis { pend, act: old(self).sgis_of(cpu_id as int)[idx as int].act }),
            final(self).ncpu() == old(self).ncpu(),
            forall|c2: int, id2: u16| #[trigger] final(self).valid_id(c2, id2) == old(self).valid_id(c2, id2),
            forall|c2: int, id2: u16| old(self).valid_id(c2, id2) ==> #[trigger] final(self).int_of(c2, id2) == old(self).int_of(c2, id2),
            forall|c2: int, b: bool| 0 <= c2 < old(self).ncpu() ==> #[trigger] final(self).list_of(c2, b) == old(self).list_of(c2, b),
    {
        let ghost before = *self;
        self.cpu_priv[cpu_id].sgis[idx].pend = pend;
        proof {
            lemma_wf_frame(before, *self);
            assert(self.sgis_of(cpu_id as int) =~= before.sgis_of(cpu_id as int).update(idx as int, Sgis { pend, act: before.sgis_of(cpu_id as int)[idx as int].act }));
        }
    }

    /// Sets the active sources of software-generated interrupt `idx` of CPU `cpu_id`.
    pub fn set_cpu_priv_sgis_act(&mut self, cpu_id: usize, idx: usize, act: u8)
        requires
            old(self).wf(),
            cpu_id < old(self).ncpu(),
            idx < GIC_SGIS_NUM,
        ensures
            final(self).wf(),
            final(self).sgis_of(cpu_id as int) == old(self).sgis_of(cpu_id as int).update(idx as int, Sgis { pend: old(self).sgis_of(cpu_id as int)[idx as int].pend, act }),
            final(self).ncpu() == old(self).ncpu(),
            forall|c2: int, id2: u16| #[trigger] final(self).valid_id(c2, id2) == old(self).valid_id(c2, id2),
            forall|c2: int, id2: u16| old(self).valid_id(c2, id2) ==> #[trigger] final(self).int_of(c2, id2) == old(self).int_of(c2, id2),
            forall|c2: int, b: bool| 0 <= c2 < old(self).ncpu() ==> #[trigger] final(self).list_of(c2, b) == old(self).list_of(c2, b),
    {
        let ghost before = *self;
        self.cpu_priv[cpu_id].sgis[idx].act = act;
        proof {
            lemma_wf_frame(before, *self);
            assert(self.sgis_of(cpu_id as int) =~= before.sgis_of(cpu_id as int).update(idx as int, Sgis { pend: before.sgis_of(cpu_id as int)[idx as int].pend, act }));
        }
    }

    /// Shared interrupt number `idx`.
    pub fn vgicd_interrupt(&self, idx: usize) -> (r: VgicInt)
        requires
            idx < self.nshared(),
        ensures
            r == self.shared_int(idx as int),
    {
        self.vgicd.interrupts[idx]
    }

    /// Private interrupt `idx` of CPU `cpu_id`.
    pub fn cpu_priv_interrupt(&self, cpu_id: usize, idx: usize) -> (r: VgicInt)
        requires
            cpu_id < self.ncpu(),
            idx < self.npriv(cpu_id as int),
        ensures
            r == self.priv_int(cpu_id as int, idx as int),
    {
        self.cpu_priv[cpu_id].interrupts[idx]
    }
}

/// Mask of the virtual interrupt id in a list register.
pub const LR_VIRTIRQ_MASK: u16 = 0x3ff;

/// Shift of the physical interrupt id in a list register.
pub const LR_PHYSIRQ_SHIFT: u32 = 10;

/// List-register state bits: pending.
pub const LR_STATE_PENDING: u32 = 0x1000_0000;

/// List-register bit marking a hardware-backed interrupt.
pub const LR_HW_BIT: u32 = 0x8000_0000;

/// What an injection attempt did with the list registers.
#[derive(Clone, Copy, Debug, PartialEq, Eq, Structural)]
pub enum InjectOutcome {
    /// The interrupt already sits in register `lr`; nothing is written.
    Resident { lr: usize },
    /// Register `lr` was free and receives `value`.
    Allocated { lr: usize, value: u32 },
    /// Every register is occupied; the interrupt stays pending in software.
    Dropped,
}

/// Whether list register `i` is empty according to the status bits `elrsr`.
pub open spec fn lr_is_empty(elrsr: u64, i: int) -> bool {
    (elrsr >> (i as u64)) & 1u64 == 1u64
}

/// Whether list register `i` is occupied by virtual interrupt `id`.
pub open spec fn lr_holds(elrsr: u64, lrs: Seq<u32>, i: int, id: u32) -> bool {
    !lr_is_empty(elrsr, i) && lrs[i] & 0x3ffu32 == id
}

/// The list-register value that delivers hardware interrupt `id` as pending,
/// with the same id as physical interrupt.
pub open spec fn lr_value(id: u32) -> u32 {
    (id | (id << 10u32) | LR_STATE_PENDING | LR_HW_BIT) as u32
}

/// The outcome of scanning registers `lrs` with status bits `elrsr` for
/// interrupt `id`: a register already holding it wins; else the first empty
/// register is allocated; else the interrupt is dropped.
pub open spec fn scan_result(elrsr: u64, lrs: Seq<u32>, id: u32, r: InjectOutcome) -> bool {
    match r {
        InjectOutcome::Resident { lr } => {
            &&& lr < lrs.len()
            &&& lr_holds(elrsr, lrs, lr as int, id)
            &&& forall|j: int| 0 <= j < lr ==> !lr_holds(elrsr, lrs, j, id)
        },
        InjectOutcome::Allocated { lr, value } => {
            &&& forall|j: int| 0 <= j < lrs.len() ==> !lr_holds(elrsr, lrs, j, id)
            &&& lr < lrs.len()
            &&& lr_is_empty(elrsr, lr as int)
            &&& forall|j: int| 0 <= j < lr ==> !lr_is_empty(elrsr, j)
            &&& value == lr_value(id)
        },
        InjectOutcome::Dropped => forall|j: int|
            0 <= j < lrs.len() ==> !lr_holds(elrsr, lrs, j, id) && !lr_is_empty(elrsr, j),
    }
}

/// Scans the list registers for interrupt `irq_id`: if a non-empty register
/// already holds it the injection is a no-op; otherwise the first empty
/// register is chosen and the value to write into it returned; with no empty
/// register the interrupt is dropped.
pub fn scan_list_regs(elrsr: u64, lrs: &Vec<u32>, irq_id: u32) -> (r: InjectOutcome)
    requires
        lrs@.len() <= 64,
        irq_id <= 0x3ff,
    ensures
        scan_result(elrsr, lrs@, irq_id, r),
{
    let n = lrs.len();
    let mut first_empty: Option<usize> = None;
    let mut i: usize = 0;
    while i < n
        invariant
            n == lrs@.len(),
            n <= 64,
            i <= n,
            forall|j: int| 0 <= j < i ==> !lr_holds(elrsr, lrs@, j, irq_id),
            first_empty is None ==> forall|j: int| 0 <= j < i ==> !lr_is_empty(elrsr, j),
            first_empty matches Some(f) ==> f < i && lr_is_empty(elrsr, f as int) && forall|j: int| 0 <= j < f ==> !lr_is_empty(elrsr, j),
        decreases n - i,
    {
        let empty = (elrsr >> (i as u64)) & 1 == 1;
        if empty {
            if first_empty.is_none() {
                first_empty = Some(i);
            }
        } else if lrs[i] & 0x3ff == irq_id {
            return InjectOutcome::Resident { lr: i };
        }
        i += 1;
    }
    match first_empty {
        Some(lr) => {
            let value = irq_id | (irq_id << LR_PHYSIRQ_SHIFT) | LR_STATE_PENDING | LR_HW_BIT;
            InjectOutcome::Allocated { lr, value }
        },
        None => InjectOutcome::Dropped,
    }
}

} // verus!

verus! {

/// Injecting an interrupt a second time, after the register that the first
/// injection allocated has been written and marked occupied, finds it
/// resident in that register and allocates nothing.
pub proof fn lemma_inject_twice_is_resident(elrsr: u64, lrs: Seq<u32>, id: u32, lr: usize, value: u32)
    requires
        lrs.len() <= 64,
        id <= 0x3ff,
        scan_result(elrsr, lrs, id, (InjectOutcome::Allocated { lr, value })),
    ensures
        forall|r2: InjectOutcome| #[trigger] scan_result(elrsr & !(1u64 << (lr as u64)), lrs.update(lr as int, value), id, r2)
            ==> r2 == (InjectOutcome::Resident { lr }),
{
    let e2 = elrsr & !(1u64 << (lr as u64));
    let l2 = lrs.update(lr as int, value);
    let s = lr as u64;
    assert(s < 64);
    assert((e2 >> s) & 1u64 != 1u64) by (bit_vector)
        requires
            e2 == elrsr & !(1u64 << s),
            s < 64,
    ;
    assert((value & 0x3ffu32) == id) by (bit_vector)
        requires
            value == (id | (id << 10u32) | 0x1000_0000u32 | 0x8000_0000u32),
            id <= 0x3ff,
    ;
    assert(lr_holds(e2, l2, lr as int, id));
    assert forall|j: int| 0 <= j < lr implies !lr_holds(e2, l2, j, id) by {
        let t = j as u64;
        assert(t < 64);
        assert(t != s);
        assert((e2 >> t) & 1u64 == (elrsr >> t) & 1u64) by (bit_vector)
            requires
                e2 == elrsr & !(1u64 << s),
                s < 64,
                t < 64,
                t != s,
        ;
        assert(!lr_is_empty(elrsr, j));
        assert(!lr_holds(elrsr, lrs, j, id));
        assert(l2[j] == lrs[j]);
    }
    assert forall|r2: InjectOutcome| #[trigger] scan_result(e2, l2, id, r2) implies r2 == InjectOutcome::Resident { lr } by {
        match r2 {
            InjectOutcome::Resident { lr: k } => {
                if k < lr {
                    assert(!lr_holds(e2, l2, k as int, id));
                }
                if k > lr {
                    assert(!lr_holds(e2, l2, lr as int, id));
                }
            },
            InjectOutcome::Allocated { lr: k, value: v } => {
                assert(!lr_holds(e2, l2, lr as int, id));
            },
            InjectOutcome::Dropped => {
                assert(!lr_holds(e2, l2, lr as int, id));
            },
        }
    }
}

/// When every list register is occupied and none holds the interrupt, an
/// injection is dropped: nothing is allocated and, by `inject_irq`, the
/// software state stays as it was.
pub proof fn lemma_full_bank_drops(elrsr: u64, lrs: Seq<u32>, id: u32)
    requires
        forall|j: int| 0 <= j < lrs.len() ==> !lr_is_empty(elrsr, j) && (#[trigger] lrs[j] & 0x3ffu32) != id,
    ensures
        forall|r: InjectOutcome| #[trigger] scan_result(elrsr, lrs, id, r) ==> r == InjectOutcome::Dropped,
{
    assert forall|r: InjectOutcome| #[trigger] scan_result(elrsr, lrs, id, r) implies r == InjectOutcome::Dropped by {
        match r {
            InjectOutcome::Resident { lr } => {
                assert(lrs[lr as int] & 0x3ffu32 != id);
            },
            InjectOutcome::Allocated { lr, value } => {
                assert(lrs[lr as int] & 0x3ffu32 != id);
                assert(!lr_is_empty(elrsr, lr as int));
            },
            InjectOutcome::Dropped => {},
        }
    }
}

} // verus!
