//! A guest VM: its vCPU table, stage-2 table, emulated devices and the
//! interrupts those devices claim.

use vstd::prelude::*;
use crate::error::HyperResult;
use crate::util::bit_of;
use crate::vcpu::{is_init_of, running, VCpu};
use crate::vcpus_array::{VcpusArray, VM_CPUS_MAX};
use crate::vgic::Vgic;
use crate::vuart::Vuart;

verus! {

/// Slot of the interrupt controller in the emulated-device table.
pub const VGIC_DEV_ID: usize = 0;

/// Slot of the UART in the emulated-device table.
pub const UART_DEV_ID: usize = 1;

/// Number of interrupt ids the ownership bitmap covers.
pub const INT_BITMAP_BITS: usize = 256;

/// A stage-2 translation table, as the VM needs it.
pub trait GuestPageTableTrait {
    /// The table's hardware-loadable base value.
    fn token(&self) -> usize;
}

/// The stage-2 base register value for VM `vm_id` with table base `token`.
pub fn vttbr_token(vm_id: usize, token: usize) -> (r: usize)
    ensures
        r == vttbr_of(vm_id, token),
{
    (((vm_id as u64) << 48u64) | (token as u64)) as usize
}

/// An emulated device of a VM.
pub enum EmuDevs {
    /// Virtual interrupt controller.
    Vgic(Vgic),
    /// Virtual UART.
    Vuart(Vuart),
    /// An unused slot.
    Empty,
}

/// A guest VM.
pub struct VM<G: GuestPageTableTrait> {
    /// The VM's vCPUs.
    pub vcpus: VcpusArray,
    /// Stage-2 translation table.
    pub gpt: G,
    /// VM id.
    pub vm_id: usize,
    /// Slot of the interrupt controller among the emulated devices.
    pub intc_dev_id: usize,
    /// Interrupt ids claimed by the VM's emulated devices, 64 per word.
    pub int_bitmap: [u64; 4],
    /// Emulated devices, by slot.
    pub emu_devs: Vec<EmuDevs>,
}

/// The stage-2 base register value for VM `vm_id` with table base `token`:
/// the VM id in bits [63:48].
pub open spec fn vttbr_of(vm_id: usize, token: usize) -> usize {
    ((((vm_id as u64) << 48u64) | (token as u64)) as u64) as usize
}

/// The physical CPU of the vCPU in slot `i`, if registered.
pub open spec fn pcpu_of_slot(slots: Seq<Option<VCpu>>, i: int) -> Option<usize> {
    if 0 <= i < slots.len() && slots[i] is Some {
        Some(slots[i]->Some_0.pcpu_id)
    } else {
        None
    }
}

/// The first vCPU slot below `n` whose vCPU runs on physical CPU `p`.
pub open spec fn first_vcpu_on(slots: Seq<Option<VCpu>>, n: int, p: usize) -> Option<int>
    decreases n,
{
    if n <= 0 {
        None
    } else {
        match first_vcpu_on(slots, n - 1, p) {
            Some(i) => Some(i),
            None => if pcpu_of_slot(slots, n - 1) == Some(p) {
                Some(n - 1)
            } else {
                None
            },
        }
    }
}

/// Whether interrupt id `i` is marked in `bitmap`.
pub open spec fn int_marked(bitmap: Seq<u64>, i: int) -> bool {
    (bitmap[i / 64] >> ((i % 64) as u64)) & 1u64 == 1u64
}

proof fn lemma_or_bit(x: usize, s: usize, b: usize)
    requires
        s < usize::BITS,
        b < usize::BITS,
    ensures
        bit_of(x | (1usize << s), b) == 1 <==> (bit_of(x, b) == 1 || s == b),
        bit_of(x | (1usize << s), b) <= 1,
{
    assert(((x | (1usize << s)) >> b) & 1usize == 1usize <==> (((x >> b) & 1usize == 1usize) || s == b)) by (bit_vector)
        requires
            s < usize::BITS,
            b < usize::BITS,
    ;
    assert(((x | (1usize << s)) >> b) & 1usize <= 1usize) by (bit_vector);
}

proof fn lemma_test_bit(x: usize, i: usize)
    requires
        i < usize::BITS,
    ensures
        (x & (1usize << i) != 0) <==> bit_of(x, i) == 1,
{
    assert((x & (1usize << i) != 0usize) <==> ((x >> i) & 1usize == 1usize)) by (bit_vector)
        requires
            i < usize::BITS,
    ;
}

proof fn lemma_zero_bits(b: usize)
    requires
        b < usize::BITS,
    ensures
        bit_of(0usize, b) == 0,
{
    assert((0usize >> b) & 1usize == 0usize) by (bit_vector);
}

proof fn lemma_or_bit_u64(x: u64, s: u64, b: u64)
    requires
        s < 64,
        b < 64,
    ensures
        ((x | (1u64 << s)) >> b) & 1u64 == 1u64 <==> (((x >> b) & 1u64 == 1u64) || s == b),
{
    assert(((x | (1u64 << s)) >> b) & 1u64 == 1u64 <==> (((x >> b) & 1u64 == 1u64) || s == b)) by (bit_vector)
        requires
            s < 64,
            b < 64,
    ;
}

impl<G: GuestPageTableTrait> VM<G> {
    /// A VM with the given vCPUs and stage-2 table, no emulated devices and
    /// no claimed interrupts.
    pub fn new(vcpus: VcpusArray, gpt: G, id: usize) -> (r: HyperResult<Self>)
        ensures
            r matches Ok(vm) && vm.vcpus == vcpus && vm.gpt == gpt && vm.vm_id == id && vm.intc_dev_id == 0
                && vm.emu_devs@.len() == 0 && forall|i: int| 0 <= i < INT_BITMAP_BITS ==> !#[trigger] int_marked(vm.int_bitmap@, i),
    {
        let vm = VM { vcpus, gpt, vm_id: id, intc_dev_id: 0, int_bitmap: [0; 4], emu_devs: Vec::new() };
        proof {
            assert forall|i: int| 0 <= i < INT_BITMAP_BITS implies !#[trigger] int_marked(vm.int_bitmap@, i) by {
                let w = vm.int_bitmap@[i / 64];
                let s = (i % 64) as u64;
                assert(w == 0);
                assert((0u64 >> s) & 1u64 == 0u64) by (bit_vector);
            }
        }
        Ok(vm)
    }

    /// The vCPU registered at `idx`, if any.
    pub fn vcpu(&self, idx: usize) -> (r: Option<&VCpu>)
        requires
            self.vcpus.wf(),
        ensures
            idx >= VM_CPUS_MAX ==> r is None,
            idx < VM_CPUS_MAX ==> r == match self.vcpus@[idx as int] {
                Some(v) => Some(&v),
                None => None::<&VCpu>,
            },
    {
        self.vcpus.get_vcpu_ref(idx)
    }

    /// The vCPU registered at `idx`, for change in place, if any. The vCPU
    /// table stays well formed when the caller leaves the vCPU's index as it
    /// is.
    pub fn vcpu_mut(&mut self, idx: usize) -> (r: Option<&mut VCpu>)
        requires
            old(self).vcpus.wf(),
        ensures
            (idx >= VM_CPUS_MAX || old(self).vcpus@[idx as int] is None) ==> r is None && *final(self) == *old(self),
            idx < VM_CPUS_MAX && old(self).vcpus@[idx as int] is Some ==> r is Some && *r->Some_0
                == old(self).vcpus@[idx as int]->Some_0 && final(self).vcpus@ == old(self).vcpus@.update(
                idx as int,
                Some(*final(r->Some_0)),
            ) && final(self).vm_id == old(self).vm_id && r->Some_0.vcpu_id == idx,
            r is Some && (*final(r->Some_0)).vcpu_id == idx ==> final(self).vcpus.wf(),
    {
        proof {
            self.vcpus.lemma_wf();
        }
        match self.vcpus.get_vcpu(idx) {
            Ok(v) => Some(v),
            Err(_) => None,
        }
    }

    /// Prepares registered vCPU `vcpu_id` to enter the guest at
    /// `kernel_entry_point` with the device tree address in x0.
    pub fn init_vm_vcpu(&mut self, vcpu_id: usize, kernel_entry_point: usize, device_tree_ipa: usize)
        requires
            old(self).vcpus.wf(),
            vcpu_id < VM_CPUS_MAX,
            old(self).vcpus@[vcpu_id as int] is Some,
        ensures
            final(self).vcpus.wf(),
            final(self).vcpus@.len() == old(self).vcpus@.len(),
            final(self).vcpus@[vcpu_id as int] is Some,
            is_init_of(old(self).vcpus@[vcpu_id as int]->Some_0, final(self).vcpus@[vcpu_id as int]->Some_0, kernel_entry_point, device_tree_ipa),
            forall|i: int| 0 <= i < VM_CPUS_MAX && i != vcpu_id ==> #[trigger] final(self).vcpus@[i] == old(self).vcpus@[i],
            final(self).vcpus.spec_length() == old(self).vcpus.spec_length(),
            final(self).vm_id == old(self).vm_id,
            final(self).emu_devs@ == old(self).emu_devs@,
            final(self).int_bitmap == old(self).int_bitmap,
    {
        proof {
            self.vcpus.lemma_wf();
        }
        match self.vcpus.get_vcpu(vcpu_id) {
            Ok(vcpu) => vcpu.init(kernel_entry_point, device_tree_ipa),
            Err(_) => {},
        }
        proof {
            self.vcpus.lemma_wf();
        }
    }

    /// Registers `vcpu`, whose slot must be free.
    pub fn add_vm_vcpu(&mut self, vcpu: VCpu)
        requires
            old(self).vcpus.wf(),
            vcpu.vcpu_id < VM_CPUS_MAX,
            old(self).vcpus@[vcpu.vcpu_id as int] is None,
        ensures
            final(self).vcpus.wf(),
            final(self).vcpus@ == old(self).vcpus@.update(vcpu.vcpu_id as int, Some(vcpu)),
            final(self).vm_id == old(self).vm_id,
            final(self).emu_devs@ == old(self).emu_devs@,
            final(self).int_bitmap == old(self).int_bitmap,
    {
        proof {
            self.vcpus.lemma_wf();
        }
        let _ = self.vcpus.add_vcpu(vcpu);
    }

    /// Prepares every vCPU below the registered count to enter the guest at
    /// `kernel_entry_point` with the device tree address in x0.
    pub fn init_vm_vcpus(&mut self, kernel_entry_point: usize, device_tree_ipa: usize)
        requires
            old(self).vcpus.wf(),
            forall|i: int| 0 <= i < old(self).vcpus.spec_length() ==> (#[trigger] old(self).vcpus@[i]) is Some,
        ensures
            final(self).vcpus.wf(),
            final(self).vcpus@.len() == old(self).vcpus@.len(),
            forall|i: int| 0 <= i < old(self).vcpus.spec_length() ==> (#[trigger] final(self).vcpus@[i]) is Some
                && is_init_of(old(self).vcpus@[i]->Some_0, final(self).vcpus@[i]->Some_0, kernel_entry_point, device_tree_ipa),
            forall|i: int| old(self).vcpus.spec_length() <= i < VM_CPUS_MAX ==> #[trigger] final(self).vcpus@[i] == old(self).vcpus@[i],
            final(self).vm_id == old(self).vm_id,
    {
        let n = self.vcpus.len();
        proof {
            self.vcpus.lemma_wf();
        }
        let mut i: usize = 0;
        while i < n
            invariant
                n == old(self).vcpus.spec_length(),
                n <= VM_CPUS_MAX,
                i <= n,
                self.vcpus.wf(),
                self.vcpus@.len() == old(self).vcpus@.len(),
                self.vcpus.spec_length() == n,
                self.vm_id == old(self).vm_id,
                forall|j: int| 0 <= j < i ==> (#[trigger] self.vcpus@[j]) is Some
                    && is_init_of(old(self).vcpus@[j]->Some_0, self.vcpus@[j]->Some_0, kernel_entry_point, device_tree_ipa),
                forall|j: int| i <= j < VM_CPUS_MAX ==> #[trigger] self.vcpus@[j] == old(self).vcpus@[j],
                forall|j: int| 0 <= j < n ==> (#[trigger] old(self).vcpus@[j]) is Some,
            decreases n - i,
        {
            self.init_vm_vcpu(i, kernel_entry_point, device_tree_ipa);
            i += 1;
        }
    }

    /// Marks registered vCPU `vcpu_id` running under this VM's stage-2
    /// table, tagged with the VM id; the caller then enters the guest. The
    /// table base is whatever the table's `token` returned.
    pub fn run(&mut self, vcpu_id: usize)
        requires
            old(self).vcpus.wf(),
            vcpu_id < VM_CPUS_MAX,
            old(self).vcpus@[vcpu_id as int] is Some,
        ensures
            final(self).vcpus.wf(),
            exists|token: usize| final(self).vcpus@ == old(self).vcpus@.update(
                vcpu_id as int,
                Some(#[trigger] running(old(self).vcpus@[vcpu_id as int]->Some_0, vttbr_of(old(self).vm_id, token))),
            ),
            final(self).vm_id == old(self).vm_id,
            final(self).gpt == old(self).gpt,
    {
        let token = self.gpt.token();
        let vttbr = vttbr_token(self.vm_id, token);
        proof {
            self.vcpus.lemma_wf();
        }
        match self.vcpus.get_vcpu(vcpu_id) {
            Ok(vcpu) => vcpu.run(vttbr),
            Err(_) => {},
        }
        assert(self.vcpus@ == old(self).vcpus@.update(
            vcpu_id as int,
            Some(running(old(self).vcpus@[vcpu_id as int]->Some_0, vttbr_of(old(self).vm_id, token))),
        ));
    }

    /// The virtual interrupt controller in the controller's device slot.
    pub fn vgic(&self) -> (r: &Vgic)
        requires
            self.emu_devs@.len() > VGIC_DEV_ID,
            self.emu_devs@[VGIC_DEV_ID as int] is Vgic,
        ensures
            *r == self.emu_devs@[VGIC_DEV_ID as int]->Vgic_0,
    {
        match &self.emu_devs[VGIC_DEV_ID] {
            EmuDevs::Vgic(vgic) => vgic,
            _ => vstd::pervasive::unreached(),
        }
    }

    /// The virtual interrupt controller, for change in place.
    pub fn vgic_mut(&mut self) -> (r: &mut Vgic)
        requires
            old(self).emu_devs@.len() > VGIC_DEV_ID,
            old(self).emu_devs@[VGIC_DEV_ID as int] is Vgic,
        ensures
            *r == old(self).emu_devs@[VGIC_DEV_ID as int]->Vgic_0,
            final(self).emu_devs@ == old(self).emu_devs@.update(VGIC_DEV_ID as int, EmuDevs::Vgic(*final(r))),
            final(self).vm_id == old(self).vm_id,
    {
        match &mut self.emu_devs[VGIC_DEV_ID] {
            EmuDevs::Vgic(vgic) => vgic,
            _ => vstd::pervasive::unreached(),
        }
    }

    /// The virtual UART in the UART's device slot.
    pub fn vuart(&self) -> (r: &Vuart)
        requires
            self.emu_devs@.len() > UART_DEV_ID,
            self.emu_devs@[UART_DEV_ID as int] is Vuart,
        ensures
            *r == self.emu_devs@[UART_DEV_ID as int]->Vuart_0,
    {
        match &self.emu_devs[UART_DEV_ID] {
            EmuDevs::Vuart(vuart) => vuart,
            _ => vstd::pervasive::unreached(),
        }
    }

    /// The virtual UART, for change in place.
    pub fn vuart_mut(&mut self) -> (r: &mut Vuart)
        requires
            old(self).emu_devs@.len() > UART_DEV_ID,
            old(self).emu_devs@[UART_DEV_ID as int] is Vuart,
        ensures
            *r == old(self).emu_devs@[UART_DEV_ID as int]->Vuart_0,
            final(self).emu_devs@ == old(self).emu_devs@.update(UART_DEV_ID as int, EmuDevs::Vuart(*final(r))),
            final(self).vm_id == old(self).vm_id,
    {
        match &mut self.emu_devs[UART_DEV_ID] {
            EmuDevs::Vuart(vuart) => vuart,
            _ => vstd::pervasive::unreached(),
        }
    }

    /// Puts `emu` in device slot `idx`, which must be free; slots between
    /// the current end and `idx` are created free.
    pub fn set_emu_devs(&mut self, idx: usize, emu: EmuDevs)
        requires
            idx < old(self).emu_devs@.len() ==> old(self).emu_devs@[idx as int] is Empty,
            idx < usize::MAX,
        ensures
            idx < old(self).emu_devs@.len() ==> final(self).emu_devs@ == old(self).emu_devs@.update(idx as int, emu),
            idx >= old(self).emu_devs@.len() ==> {
                &&& final(self).emu_devs@.len() == idx + 1
                &&& final(self).emu_devs@.subrange(0, old(self).emu_devs@.len() as int) == old(self).emu_devs@
                &&& forall|i: int| old(self).emu_devs@.len() <= i < idx ==> #[trigger] final(self).emu_devs@[i] is Empty
                &&& final(self).emu_devs@[idx as int] == emu
            },
            final(self).vm_id == old(self).vm_id,
            final(self).vcpus == old(self).vcpus,
    {
        if idx < self.emu_devs.len() {
            self.emu_devs.set(idx, emu);
            return;
        }
        let ghost n0 = self.emu_devs@.len();
        while self.emu_devs.len() < idx
            invariant
                n0 <= self.emu_devs@.len() <= idx,
                self.emu_devs@.subrange(0, n0 as int) == old(self).emu_devs@,
                forall|i: int| n0 <= i < self.emu_devs@.len() ==> #[trigger] self.emu_devs@[i] is Empty,
                self.vm_id == old(self).vm_id,
                self.vcpus == old(self).vcpus,
            decreases idx - self.emu_devs@.len(),
        {
            let ghost before = self.emu_devs@;
            self.emu_devs.push(EmuDevs::Empty);
            proof {
                assert(self.emu_devs@.subrange(0, n0 as int) =~= before.subrange(0, n0 as int));
            }
        }
        let ghost before = self.emu_devs@;
        self.emu_devs.push(emu);
        proof {
            assert(self.emu_devs@.subrange(0, n0 as int) =~= before.subrange(0, n0 as int));
        }
    }

    /// Number of registered vCPUs.
    pub fn vcpu_num(&self) -> (r: usize)
        ensures
            r == self.vcpus.spec_length(),
    {
        self.vcpus.len()
    }

    /// Marks interrupt `int_id` as claimed by this VM's devices.
    pub fn set_int_bit_map(&mut self, int_id: usize)
        requires
            int_id < INT_BITMAP_BITS,
        ensures
            int_marked(final(self).int_bitmap@, int_id as int),
            forall|i: int| 0 <= i < INT_BITMAP_BITS && i != int_id ==> #[trigger] int_marked(final(self).int_bitmap@, i) == int_marked(old(self).int_bitmap@, i),
            final(self).vm_id == old(self).vm_id,
            final(self).vcpus == old(self).vcpus,
            final(self).emu_devs@ == old(self).emu_devs@,
    {
        let w = int_id / 64;
        let b = (int_id % 64) as u64;
        let old_word = self.int_bitmap[w];
        self.int_bitmap[w] = old_word | (1u64 << b);
        proof {
            assert forall|i: int| 0 <= i < INT_BITMAP_BITS implies #[trigger] int_marked(self.int_bitmap@, i) == (int_marked(old(self).int_bitmap@, i) || i == int_id) by {
                if i / 64 == w {
                    lemma_or_bit_u64(old_word, b, (i % 64) as u64);
                    if (i % 64) as u64 == b {
                        assert(i == int_id);
                    }
                }
            }
        }
    }

    /// Whether interrupt `int_id` is claimed by this VM's devices.
    pub fn has_interrupt(&self, int_id: usize) -> (r: bool)
        requires
            int_id < INT_BITMAP_BITS,
        ensures
            r == int_marked(self.int_bitmap@, int_id as int),
    {
        (self.int_bitmap[int_id / 64] >> ((int_id % 64) as u64)) & 1 == 1
    }

    /// Whether interrupt `int_id` belongs to an emulated device: only the
    /// interrupt controller's id 0 does.
    pub fn emu_has_interrupt(&self, int_id: usize) -> (r: bool)
        ensures
            r == (int_id == 0),
    {
        int_id == 0
    }

    /// Sets the slot of the interrupt controller among the emulated devices.
    pub fn set_intc_dev_id(&mut self, idx: usize)
        ensures
            final(self).intc_dev_id == idx,
            final(self).vm_id == old(self).vm_id,
            final(self).vcpus == old(self).vcpus,
            final(self).emu_devs@ == old(self).emu_devs@,
            final(self).int_bitmap == old(self).int_bitmap,
    {
        self.intc_dev_id = idx;
    }

    /// The physical CPU mask that runs the vCPUs set in `mask` among the
    /// first `len` vCPU indices; unregistered indices contribute nothing.
    pub fn vcpu_to_pcpu_mask(&self, mask: usize, len: usize) -> (r: usize)
        requires
            self.vcpus.wf(),
            len <= usize::BITS,
            forall|i: int| 0 <= i < VM_CPUS_MAX && (#[trigger] self.vcpus@[i]) is Some ==> self.vcpus@[i]->Some_0.pcpu_id < usize::BITS,
        ensures
            forall|b: usize| b < usize::BITS ==> (#[trigger] bit_of(r, b) == 1 <==> exists|i: usize| i < len && #[trigger] bit_of(mask, i) == 1
                && pcpu_of_slot(self.vcpus@, i as int) == Some(b)),
    {
        let mut pmask: usize = 0;
        let mut i: usize = 0;
        proof {
            assert forall|b: usize| b < usize::BITS implies #[trigger] bit_of(pmask, b) != 1 by {
                lemma_zero_bits(b);
            }
        }
        while i < len
            invariant
                i <= len,
                len <= usize::BITS,
                self.vcpus.wf(),
                forall|i: int| 0 <= i < VM_CPUS_MAX && (#[trigger] self.vcpus@[i]) is Some ==> self.vcpus@[i]->Some_0.pcpu_id < usize::BITS,
                forall|b: usize| b < usize::BITS ==> (#[trigger] bit_of(pmask, b) == 1 <==> exists|j: usize| j < i && #[trigger] bit_of(mask, j) == 1
                    && pcpu_of_slot(self.vcpus@, j as int) == Some(b)),
            decreases len - i,
        {
            let ghost before = pmask;
            let p = self.vcpuid_to_pcpuid(i);
            proof {
                self.vcpus.lemma_wf();
            }
            proof {
                lemma_test_bit(mask, i);
            }
            match p {
                Some(shift) => {
                    if mask & (1usize << i) != 0 {
                        pmask = pmask | (1usize << shift);
                    }
                },
                None => {},
            }
            proof {
                assert forall|b: usize| b < usize::BITS implies (#[trigger] bit_of(pmask, b) == 1 <==> exists|j: usize| j < i + 1 && #[trigger] bit_of(mask, j) == 1
                    && pcpu_of_slot(self.vcpus@, j as int) == Some(b)) by {
                    if let Some(shift) = p {
                        if bit_of(mask, i) == 1 {
                            lemma_or_bit(before, shift, b);
                        }
                    }
                    if bit_of(pmask, b) == 1 && bit_of(before, b) != 1 {
                        assert(bit_of(mask, i) == 1 && pcpu_of_slot(self.vcpus@, i as int) == Some(b));
                    }
                    if exists|j: usize| j < i + 1 && #[trigger] bit_of(mask, j) == 1 && pcpu_of_slot(self.vcpus@, j as int) == Some(b) {
                        let j = choose|j: usize| j < i + 1 && bit_of(mask, j) == 1 && pcpu_of_slot(self.vcpus@, j as int) == Some(b);
                        if j < i {
                            assert(bit_of(before, b) == 1);
                        }
                    }
                }
            }
            i += 1;
        }
        pmask
    }

    /// The vCPU mask of the vCPUs that run on the physical CPUs set in `mask`
    /// among the first `len` physical CPU ids; for each such CPU the first
    /// vCPU index below the registered count that runs there counts.
    pub fn pcpu_to_vcpu_mask(&self, mask: usize, len: usize) -> (r: usize)
        requires
            self.vcpus.wf(),
            len <= usize::BITS,
        ensures
            forall|b: usize| b < usize::BITS ==> (#[trigger] bit_of(r, b) == 1 <==> exists|i: usize| i < len && #[trigger] bit_of(mask, i) == 1
                && first_vcpu_on(self.vcpus@, self.vcpus.spec_length() as int, i) == Some(b as int)),
    {
        let mut vmask: usize = 0;
        let mut i: usize = 0;
        proof {
            assert forall|b: usize| b < usize::BITS implies #[trigger] bit_of(vmask, b) != 1 by {
                lemma_zero_bits(b);
            }
        }
        while i < len
            invariant
                i <= len,
                len <= usize::BITS,
                self.vcpus.wf(),
                forall|b: usize| b < usize::BITS ==> (#[trigger] bit_of(vmask, b) == 1 <==> exists|j: usize| j < i && #[trigger] bit_of(mask, j) == 1
                    && first_vcpu_on(self.vcpus@, self.vcpus.spec_length() as int, j) == Some(b as int)),
            decreases len - i,
        {
            let ghost before = vmask;
            let v = self.pcpuid_to_vcpuid(i);
            proof {
                lemma_test_bit(mask, i);
            }
            match v {
                Some(shift) => {
                    if mask & (1usize << i) != 0 {
                        vmask = vmask | (1usize << shift);
                    }
                },
                None => {},
            }
            proof {
                assert forall|b: usize| b < usize::BITS implies (#[trigger] bit_of(vmask, b) == 1 <==> exists|j: usize| j < i + 1 && #[trigger] bit_of(mask, j) == 1
                    && first_vcpu_on(self.vcpus@, self.vcpus.spec_length() as int, j) == Some(b as int)) by {
                    if let Some(shift) = v {
                        if bit_of(mask, i) == 1 {
                            lemma_or_bit(before, shift, b);
                        }
                    }
                    if bit_of(vmask, b) == 1 && bit_of(before, b) != 1 {
                        assert(bit_of(mask, i) == 1 && first_vcpu_on(self.vcpus@, self.vcpus.spec_length() as int, i) == Some(b as int));
                    }
                    if exists|j: usize| j < i + 1 && #[trigger] bit_of(mask, j) == 1 && first_vcpu_on(self.vcpus@, self.vcpus.spec_length() as int, j) == Some(b as int) {
                        let j = choose|j: usize| j < i + 1 && bit_of(mask, j) == 1 && first_vcpu_on(self.vcpus@, self.vcpus.spec_length() as int, j) == Some(b as int);
                        if j < i {
                            assert(bit_of(before, b) == 1);
                        }
                    }
                }
            }
            i += 1;
        }
        vmask
    }

    fn vcpuid_to_pcpuid(&self, vcpuid: usize) -> (r: Option<usize>)
        requires
            self.vcpus.wf(),
        ensures
            r == pcpu_of_slot(self.vcpus@, vcpuid as int),
    {
        proof {
            self.vcpus.lemma_wf();
        }
        match self.vcpus.get_vcpu_ref(vcpuid) {
            Some(vcpu) => Some(vcpu.pcpu_id),
            None => None,
        }
    }

    fn pcpuid_to_vcpuid(&self, pcpuid: usize) -> (r: Option<usize>)
        requires
            self.vcpus.wf(),
        ensures
            r matches Some(v) ==> first_vcpu_on(self.vcpus@, self.vcpus.spec_length() as int, pcpuid) == Some(v as int) && v < VM_CPUS_MAX,
            r is None ==> first_vcpu_on(self.vcpus@, self.vcpus.spec_length() as int, pcpuid) is None,
    {
        let n = self.vcpus.len();
        proof {
            self.vcpus.lemma_wf();
        }
        let mut vcpuid: usize = 0;
        while vcpuid < n
            invariant
                n == self.vcpus.spec_length(),
                vcpuid <= n,
                self.vcpus.wf(),
                first_vcpu_on(self.vcpus@, vcpuid as int, pcpuid) is None,
            decreases n - vcpuid,
        {
            proof {
                self.vcpus.lemma_wf();
                assert(first_vcpu_on(self.vcpus@, vcpuid + 1, pcpuid) == if pcpu_of_slot(self.vcpus@, vcpuid as int) == Some(pcpuid) {
                    Some(vcpuid as int)
                } else {
                    None
                });
            }
            if let Some(vcpu) = self.vcpus.get_vcpu_ref(vcpuid) {
                if vcpu.pcpu_id == pcpuid {
                    proof {
                        lemma_first_vcpu_on_stays(self.vcpus@, vcpuid as int + 1, self.vcpus.spec_length() as int, pcpuid);
                    }
                    return Some(vcpuid);
                }
            }
            vcpuid += 1;
        }
        None
    }
}

proof fn lemma_first_vcpu_on_stays(slots: Seq<Option<VCpu>>, m: int, n: int, p: usize)
    requires
        0 <= m <= n,
        first_vcpu_on(slots, m, p) is Some,
    ensures
        first_vcpu_on(slots, n, p) == first_vcpu_on(slots, m, p),
    decreases n - m,
{
    if m < n {
        lemma_first_vcpu_on_stays(slots, m, n - 1, p);
    }
}

} // verus!
