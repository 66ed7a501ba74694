//! Interrupt-controller constants and the two-bit interrupt state.

use vstd::prelude::*;

verus! {

/// Number of private interrupts (SGIs and PPIs) banked per CPU.
pub const GIC_PRIVATE_INT_NUM: usize = 32;

/// Number of software-generated interrupts.
pub const GIC_SGIS_NUM: usize = 16;

/// Largest number of hardware list registers a CPU interface offers.
pub const GIC_LIST_REGS_NUM: usize = 64;

/// The state of an interrupt, as held in bits [29:28] of a list register:
/// 00 inactive, 01 pending, 10 active, 11 pending and active.
#[derive(Clone, Copy, Debug, PartialEq, Eq, Structural)]
pub enum IrqState {
    /// Inactive.
    IrqSInactive,
    /// Pending.
    IrqSPend,
    /// Active.
    IrqSActive,
    /// Pending and active.
    IrqSPendActive,
}

/// The two-bit encoding of a state.
pub open spec fn irq_state_num(s: IrqState) -> usize {
    match s {
        IrqState::IrqSInactive => 0,
        IrqState::IrqSPend => 1,
        IrqState::IrqSActive => 2,
        IrqState::IrqSPendActive => 3,
    }
}

/// Whether the state has its pending bit set.
pub open spec fn state_pending(s: IrqState) -> bool {
    s is IrqSPend || s is IrqSPendActive
}

/// Whether the state has its active bit set.
pub open spec fn state_active(s: IrqState) -> bool {
    s is IrqSActive || s is IrqSPendActive
}

impl IrqState {
    /// The state that a two-bit number encodes.
    pub fn num_to_state(num: usize) -> (r: IrqState)
        requires
            num < 4,
        ensures
            irq_state_num(r) == num,
    {
        match num {
            0 => IrqState::IrqSInactive,
            1 => IrqState::IrqSPend,
            2 => IrqState::IrqSActive,
            _ => IrqState::IrqSPendActive,
        }
    }

    /// The two-bit number that encodes this state.
    pub fn to_num(&self) -> (r: usize)
        ensures
            r == irq_state_num(*self),
            r & 1 != 0 <==> state_pending(*self),
            r & 2 != 0 <==> state_active(*self),
    {
        let r: usize = match self {
            IrqState::IrqSInactive => 0,
            IrqState::IrqSPend => 1,
            IrqState::IrqSActive => 2,
            IrqState::IrqSPendActive => 3,
        };
        assert(0usize & 1 == 0 && 0usize & 2 == 0 && 1usize & 1 != 0 && 1usize & 2 == 0)
            by (bit_vector);
        assert(2usize & 1 == 0 && 2usize & 2 != 0 && 3usize & 1 != 0 && 3usize & 2 != 0)
            by (bit_vector);
        r
    }
}

/// Offset of the priority-bits field in ICH_VTR_EL2.
pub const GICH_VTR_PRIBITS_OFF: usize = 29;

/// Width of the priority-bits field in ICH_VTR_EL2.
pub const GICH_VTR_PRIBITS_LEN: usize = 3;

/// ICC_CTLR_EL1.EOImode: priority drop and deactivation are separate.
pub const GICC_CTLR_EOIMODE_BIT: u32 = 0x2;

/// ICC_IGRPEN1_EL1.Enable.
pub const GICC_IGRPEN_EL1_ENB_BIT: usize = 0x1;

/// Number of private interrupt priority registers (four interrupts each).
pub const GIC_PRIV_PRIO_REGS: usize = 8;

/// The CPU-interface state of a guest saved across a world switch.
#[derive(Clone, Copy, Debug)]
pub struct GicState {
    /// Control register.
    pub ctlr: u32,
    /// Priority mask.
    pub pmr: u32,
    /// Binary point.
    pub bpr: u32,
    /// End of interrupt.
    pub eoir: u32,
    /// Running priority.
    pub rpr: u32,
    /// Highest pending interrupt.
    pub hppir: u32,
    /// Private interrupt enables.
    pub priv_isenabler: u32,
    /// Private interrupt priorities.
    pub priv_ipriorityr: [u32; GIC_PRIV_PRIO_REGS],
    /// Hypervisor control.
    pub hcr: usize,
    /// List registers.
    pub lr: [usize; GIC_LIST_REGS_NUM],
    /// Group 0 active priorities.
    pub apr0: [u32; 4],
    /// Group 1 active priorities.
    pub apr1: [u32; 4],
    /// Group 1 enable.
    pub igrpen1: usize,
    /// Virtual machine control.
    pub vmcr: u32,
    /// Number of virtual priority bits implemented.
    pub nr_prio: u32,
    /// EL1 system-register enable.
    pub sre_el1: u32,
}

/// The number of virtual priority bits that ICH_VTR_EL2 value `vtr` reports.
pub open spec fn nr_prio_of(vtr: usize) -> u32 {
    ((((vtr >> 29usize) & 0x7usize) + 1) as usize) as u32
}

/// How many active-priority registers per group hold state for `nr_prio`
/// priority bits: three for 7, two for 6, one for 5.
pub open spec fn apr_regs_of(nr_prio: u32) -> usize {
    (nr_prio - 4) as usize
}

/// What a CPU interface's state looks like right after the guest starts:
/// EOI mode split, group 1 enabled, all priorities lowest, nothing active.
pub open spec fn is_reset_state(g: GicState, vtr: usize) -> bool {
    &&& g.ctlr == GICC_CTLR_EOIMODE_BIT
    &&& g.igrpen1 == GICC_IGRPEN_EL1_ENB_BIT
    &&& g.pmr == 0xff
    &&& g.bpr == 0 && g.eoir == 0 && g.rpr == 0 && g.hppir == 0
    &&& g.priv_isenabler == 0
    &&& forall|i: int| 0 <= i < GIC_PRIV_PRIO_REGS ==> #[trigger] g.priv_ipriorityr@[i] == u32::MAX
    &&& g.hcr == 0b101
    &&& forall|i: int| 0 <= i < GIC_LIST_REGS_NUM ==> #[trigger] g.lr@[i] == 0
    &&& forall|i: int| 0 <= i < 4 ==> #[trigger] g.apr0@[i] == 0 && g.apr1@[i] == 0
    &&& g.vmcr == 0
    &&& g.nr_prio == nr_prio_of(vtr)
    &&& g.sre_el1 == 0
}

impl GicState {
    /// The state a guest's CPU interface starts in, on hardware whose
    /// ICH_VTR_EL2 reads `ich_vtr_el2`.
    pub fn default_from_vtr(ich_vtr_el2: usize) -> (r: GicState)
        ensures
            is_reset_state(r, ich_vtr_el2),
    {
        let width: usize = 1usize << GICH_VTR_PRIBITS_LEN;
        assert(width == 8) by (bit_vector)
            requires
                width == 1usize << 3usize,
        ;
        let field = (ich_vtr_el2 >> GICH_VTR_PRIBITS_OFF) & (width - 1);
        assert(field <= 7) by (bit_vector)
            requires
                field == (ich_vtr_el2 >> 29usize) & 7usize,
        ;
        let nr_prio = (field + 1) as u32;
        GicState {
            ctlr: GICC_CTLR_EOIMODE_BIT,
            pmr: 0xff,
            bpr: 0,
            eoir: 0,
            rpr: 0,
            hppir: 0,
            priv_isenabler: 0,
            priv_ipriorityr: [u32::MAX; GIC_PRIV_PRIO_REGS],
            hcr: 0b101,
            lr: [0; GIC_LIST_REGS_NUM],
            apr0: [0; 4],
            apr1: [0; 4],
            igrpen1: GICC_IGRPEN_EL1_ENB_BIT,
            vmcr: 0,
            nr_prio,
            sre_el1: 0,
        }
    }

    /// How many active-priority registers per group hold state.
    pub fn apr_regs(&self) -> (r: usize)
        requires
            5 <= self.nr_prio <= 7,
        ensures
            r == apr_regs_of(self.nr_prio),
            1 <= r <= 3,
    {
        match self.nr_prio {
            7 => 3,
            6 => 2,
            _ => 1,
        }
    }

    /// Keeps the active-priority registers `ap0r` and `ap1r` read from
    /// hardware, as many of them as the priority bits use.
    pub fn save_aprn_regs(&mut self, ap0r: [u32; 3], ap1r: [u32; 3])
        requires
            5 <= old(self).nr_prio <= 7,
        ensures
            forall|i: int| 0 <= i < 4 ==> #[trigger] final(self).apr0@[i] == if i < apr_regs_of(old(self).nr_prio) {
                ap0r@[i]
            } else {
                old(self).apr0@[i]
            },
            forall|i: int| 0 <= i < 4 ==> #[trigger] final(self).apr1@[i] == if i < apr_regs_of(old(self).nr_prio) {
                ap1r@[i]
            } else {
                old(self).apr1@[i]
            },
            final(self).nr_prio == old(self).nr_prio,
            final(self).lr == old(self).lr,
            final(self).hcr == old(self).hcr,
            final(self).vmcr == old(self).vmcr,
            final(self).sre_el1 == old(self).sre_el1,
    {
        let n = self.apr_regs();
        let mut i: usize = 0;
        while i < n
            invariant
                n == apr_regs_of(old(self).nr_prio),
                n <= 3,
                i <= n,
                self.nr_prio == old(self).nr_prio,
                self.lr == old(self).lr,
                self.hcr == old(self).hcr,
                self.vmcr == old(self).vmcr,
                self.sre_el1 == old(self).sre_el1,
                forall|j: int| 0 <= j < 4 ==> #[trigger] self.apr0@[j] == if j < i {
                    ap0r@[j]
                } else {
                    old(self).apr0@[j]
                },
                forall|j: int| 0 <= j < 4 ==> #[trigger] self.apr1@[j] == if j < i {
                    ap1r@[j]
                } else {
                    old(self).apr1@[j]
                },
            decreases n - i,
        {
            self.apr0[i] = ap0r[i];
            self.apr1[i] = ap1r[i];
            i += 1;
        }
    }

    /// The active-priority registers to write back, highest index first, as
    /// `(index, group 0 value, group 1 value)`.
    pub fn restore_aprn_regs(&self) -> (r: Vec<(usize, u32, u32)>)
        requires
            5 <= self.nr_prio <= 7,
        ensures
            r@.len() == apr_regs_of(self.nr_prio),
            forall|k: int| 0 <= k < r@.len() ==> {
                let idx = r@.len() - 1 - k;
                #[trigger] r@[k] == (idx as usize, self.apr0@[idx], self.apr1@[idx])
            },
    {
        let n = self.apr_regs();
        let mut out: Vec<(usize, u32, u32)> = Vec::new();
        let mut i: usize = n;
        while i > 0
            invariant
                n == apr_regs_of(self.nr_prio),
                n <= 3,
                i <= n,
                out@.len() == n - i,
                forall|k: int| 0 <= k < out@.len() ==> {
                    let idx = n - 1 - k;
                    #[trigger] out@[k] == (idx as usize, self.apr0@[idx], self.apr1@[idx])
                },
            decreases i,
        {
            i -= 1;
            out.push((i, self.apr0[i], self.apr1[i]));
        }
        out
    }

    /// Records the interface state read from hardware on leaving a guest:
    /// control, virtual machine control, the used active-priority registers,
    /// the list registers `lrs` and the EL1 system-register enable.
    pub fn save_state(&mut self, hcr: usize, vmcr: u32, ap0r: [u32; 3], ap1r: [u32; 3], lrs: &Vec<usize>, sre_el1: u32)
        requires
            5 <= old(self).nr_prio <= 7,
            lrs@.len() <= GIC_LIST_REGS_NUM,
        ensures
            final(self).hcr == hcr,
            final(self).vmcr == vmcr,
            final(self).sre_el1 == sre_el1,
            final(self).nr_prio == old(self).nr_prio,
            forall|i: int| 0 <= i < GIC_LIST_REGS_NUM ==> #[trigger] final(self).lr@[i] == if i < lrs@.len() {
                lrs@[i]
            } else {
                old(self).lr@[i]
            },
            forall|i: int| 0 <= i < 4 ==> #[trigger] final(self).apr0@[i] == if i < apr_regs_of(old(self).nr_prio) {
                ap0r@[i]
            } else {
                old(self).apr0@[i]
            },
            forall|i: int| 0 <= i < 4 ==> #[trigger] final(self).apr1@[i] == if i < apr_regs_of(old(self).nr_prio) {
                ap1r@[i]
            } else {
                old(self).apr1@[i]
            },
    {
        self.hcr = hcr;
        self.vmcr = vmcr;
        self.save_aprn_regs(ap0r, ap1r);
        let ghost mid = *self;
        let mut i: usize = 0;
        while i < lrs.len()
            invariant
                lrs@.len() <= GIC_LIST_REGS_NUM,
                i <= lrs@.len(),
                self.hcr == mid.hcr,
                self.vmcr == mid.vmcr,
                self.nr_prio == mid.nr_prio,
                self.apr0 == mid.apr0,
                self.apr1 == mid.apr1,
                forall|j: int| 0 <= j < GIC_LIST_REGS_NUM ==> #[trigger] self.lr@[j] == if j < i {
                    lrs@[j]
                } else {
                    mid.lr@[j]
                },
            decreases lrs@.len() - i,
        {
            self.lr[i] = lrs[i];
            i += 1;
        }
        self.sre_el1 = sre_el1;
    }
}

} // verus!
