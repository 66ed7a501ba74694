//! Per-physical-core state: the active vCPU, the vCPUs this core hosts, and
//! the ids of the vCPUs it created.

use vstd::prelude::*;
use crate::error::{HyperError, HyperResult};
use crate::hal::{HyperCraftHal, PAGE_SIZE_4K};
use crate::vcpu::VCpu;

verus! {

/// State of one physical core.
#[derive(Debug)]
pub struct PerCpu {
    /// Physical core id.
    pub cpu_id: usize,
    /// vCPU currently running on this core.
    pub active_vcpu: Option<VCpu>,
    /// Ids of the vCPUs created on this core, oldest first.
    pub vcpu_queue: Vec<usize>,
    /// vCPUs bound to this core, at most one per VM.
    pub vcpu_array: Vec<VCpu>,
}

/// The position of the first vCPU of VM `vm_id` in `vs`, if any.
pub open spec fn first_vm_index(vs: Seq<VCpu>, vm_id: usize) -> Option<int>
    decreases vs.len(),
{
    if vs.len() == 0 {
        None
    } else {
        match first_vm_index(vs.drop_last(), vm_id) {
            Some(i) => Some(i),
            None => if vs.last().vm_id == vm_id {
                Some(vs.len() - 1)
            } else {
                None
            },
        }
    }
}

pub(crate) proof fn lemma_first_vm_index(vs: Seq<VCpu>, vm_id: usize)
    ensures
        first_vm_index(vs, vm_id) matches Some(i) ==> 0 <= i < vs.len() && vs[i].vm_id == vm_id
            && forall|j: int| 0 <= j < i ==> vs[j].vm_id != vm_id,
        first_vm_index(vs, vm_id) is None ==> forall|j: int| 0 <= j < vs.len() ==> vs[j].vm_id != vm_id,
    decreases vs.len(),
{
    if vs.len() > 0 {
        let d = vs.drop_last();
        lemma_first_vm_index(d, vm_id);
        assert forall|j: int| 0 <= j < d.len() implies d[j] == vs[j] by {}
        match first_vm_index(d, vm_id) {
            Some(i) => {
                assert(first_vm_index(vs, vm_id) == Some(i));
            },
            None => {
                if vs.last().vm_id == vm_id {
                    assert(first_vm_index(vs, vm_id) == Some(vs.len() - 1));
                } else {
                    assert(first_vm_index(vs, vm_id) is None);
                    assert forall|j: int| 0 <= j < vs.len() implies vs[j].vm_id != vm_id by {
                        if j < d.len() {
                            assert(d[j] == vs[j]);
                        }
                    }
                }
            },
        }
    }
}

impl PerCpu {
    /// The state of core `cpu_id` before it has any vCPU.
    pub fn new(cpu_id: usize) -> (r: Self)
        ensures
            r.cpu_id == cpu_id,
            r.active_vcpu is None,
            r.vcpu_queue@.len() == 0,
            r.vcpu_array@.len() == 0,
    {
        PerCpu { cpu_id, active_vcpu: None, vcpu_queue: Vec::new(), vcpu_array: Vec::new() }
    }

    /// Creates vCPU `vcpu_id` of VM `vm_id` bound to this core and records
    /// its id; the new vCPU goes to the caller.
    pub fn create_vcpu(&mut self, vm_id: usize, vcpu_id: usize) -> (r: HyperResult<VCpu>)
        ensures
            r matches Ok(v) && v.vcpu_id == vcpu_id && v.vm_id == vm_id && v.pcpu_id == old(self).cpu_id
                && v.state == crate::vcpu::VcpuState::Inv && v.regs.guest_trap_context_regs.is_zero(),
            final(self).vcpu_queue@ == old(self).vcpu_queue@.push(vcpu_id),
            final(self).cpu_id == old(self).cpu_id,
            final(self).active_vcpu == old(self).active_vcpu,
            final(self).vcpu_array@ == old(self).vcpu_array@,
    {
        self.vcpu_queue.push(vcpu_id);
        let vcpu = VCpu::new(vm_id, vcpu_id, self.cpu_id);
        Ok(vcpu)
    }

    /// Sets the vCPU running on this core.
    pub fn set_active_vcpu(&mut self, active_vcpu: Option<VCpu>)
        ensures
            final(self).active_vcpu == active_vcpu,
            final(self).cpu_id == old(self).cpu_id,
            final(self).vcpu_queue@ == old(self).vcpu_queue@,
            final(self).vcpu_array@ == old(self).vcpu_array@,
    {
        self.active_vcpu = active_vcpu;
    }

    /// The vCPU running on this core, for change in place.
    pub fn get_active_vcpu(&mut self) -> (r: &mut VCpu)
        requires
            old(self).active_vcpu is Some,
        ensures
            *r == old(self).active_vcpu->Some_0,
            final(self).active_vcpu == Some(*final(r)),
            final(self).cpu_id == old(self).cpu_id,
            final(self).vcpu_queue@ == old(self).vcpu_queue@,
            final(self).vcpu_array@ == old(self).vcpu_array@,
    {
        match &mut self.active_vcpu {
            Some(v) => v,
            None => vstd::pervasive::unreached(),
        }
    }

    /// Binds `vcpu` to this core. It must name this core as its physical
    /// CPU, and its VM must have no vCPU here yet; otherwise `InvalidParam`.
    pub fn host_vcpu(&mut self, vcpu: VCpu) -> (r: HyperResult<()>)
        ensures
            (vcpu.pcpu_id == old(self).cpu_id && first_vm_index(old(self).vcpu_array@, vcpu.vm_id) is None)
                ==> r is Ok && final(self).vcpu_array@ == old(self).vcpu_array@.push(vcpu),
            !(vcpu.pcpu_id == old(self).cpu_id && first_vm_index(old(self).vcpu_array@, vcpu.vm_id) is None)
                ==> r == Err::<(), HyperError>(HyperError::InvalidParam) && final(self).vcpu_array@ == old(self).vcpu_array@,
            final(self).cpu_id == old(self).cpu_id,
            final(self).active_vcpu == old(self).active_vcpu,
            final(self).vcpu_queue@ == old(self).vcpu_queue@,
    {
        if vcpu.pcpu_id != self.cpu_id {
            return Err(HyperError::InvalidParam);
        }
        if self.vcpu_index_of_vm(vcpu.vm_id).is_some() {
            return Err(HyperError::InvalidParam);
        }
        self.vcpu_array.push(vcpu);
        Ok(())
    }

    /// Position in `vcpu_array` of the vCPU of VM `vm_id`, if this core hosts one.
    pub fn vcpu_index_of_vm(&self, vm_id: usize) -> (r: Option<usize>)
        ensures
            r matches Some(i) ==> first_vm_index(self.vcpu_array@, vm_id) == Some(i as int),
            r is None ==> first_vm_index(self.vcpu_array@, vm_id) is None,
    {
        let mut i: usize = 0;
        while i < self.vcpu_array.len()
            invariant
                i <= self.vcpu_array@.len(),
                first_vm_index(self.vcpu_array@.subrange(0, i as int), vm_id) is None,
            decreases self.vcpu_array@.len() - i,
        {
            proof {
                assert(self.vcpu_array@.subrange(0, i + 1).drop_last() =~= self.vcpu_array@.subrange(0, i as int));
            }
            if self.vcpu_array[i].vm_id == vm_id {
                proof {
                    lemma_first_vm_prefix(self.vcpu_array@, vm_id, i as int);
                }
                return Some(i);
            }
            i += 1;
        }
        proof {
            assert(self.vcpu_array@.subrange(0, i as int) =~= self.vcpu_array@);
        }
        None
    }
}

/// A prefix of `vs` ending in a vCPU of VM `vm_id`, where the shorter prefix
/// has none, puts the first one at its end.
proof fn lemma_first_vm_prefix(vs: Seq<VCpu>, vm_id: usize, i: int)
    requires
        0 <= i < vs.len(),
        vs[i].vm_id == vm_id,
        first_vm_index(vs.subrange(0, i), vm_id) is None,
    ensures
        first_vm_index(vs, vm_id) == Some(i),
    decreases vs.len(),
{
    if i < vs.len() - 1 {
        assert(vs.drop_last().subrange(0, i) =~= vs.subrange(0, i));
        lemma_first_vm_prefix(vs.drop_last(), vm_id, i);
    } else {
        assert(vs.drop_last() =~= vs.subrange(0, i));
    }
}

/// Number of physical cores the per-core table is built for.
pub const CPU_NUMS: usize = 2;

/// The per-core states of all physical cores, indexed by core id, and the
/// core the caller runs on once it has been set up.
#[derive(Debug)]
pub struct PerCpuSet {
    /// Per-core states; entry `i` belongs to core `i`.
    pub cpus: Vec<PerCpu>,
    /// Address of the pages reserved for the per-core area.
    pub base: usize,
    /// The calling core, once set up.
    pub current: Option<usize>,
}

impl PerCpuSet {
    /// The table built on the pages at `pages`: core `i` gets a fresh state,
    /// and core `boot_id` becomes the current one. `None` pages is `NoMemory`;
    /// a boot core past the table is `BadState`.
    pub fn from_pages(pages: Option<usize>, boot_id: usize, cpu_nums: usize) -> (r: HyperResult<PerCpuSet>)
        ensures
            pages is None ==> r == Err::<PerCpuSet, HyperError>(HyperError::NoMemory),
            pages is Some && boot_id >= cpu_nums ==> r == Err::<PerCpuSet, HyperError>(HyperError::BadState),
            pages is Some && boot_id < cpu_nums ==> (r matches Ok(set) && set.base == pages->Some_0 && set.current == Some(boot_id)
                && set.cpus@.len() == cpu_nums && forall|i: int| 0 <= i < cpu_nums ==> {
                    &&& (#[trigger] set.cpus@[i]).cpu_id == i
                    &&& set.cpus@[i].active_vcpu is None
                    &&& set.cpus@[i].vcpu_queue@.len() == 0
                    &&& set.cpus@[i].vcpu_array@.len() == 0
                }),
    {
        let base = match pages {
            Some(b) => b,
            None => {
                return Err(HyperError::NoMemory);
            },
        };
        let mut cpus: Vec<PerCpu> = Vec::new();
        let mut i: usize = 0;
        while i < cpu_nums
            invariant
                i <= cpu_nums,
                cpus@.len() == i,
                forall|j: int| 0 <= j < i ==> {
                    &&& (#[trigger] cpus@[j]).cpu_id == j
                    &&& cpus@[j].active_vcpu is None
                    &&& cpus@[j].vcpu_queue@.len() == 0
                    &&& cpus@[j].vcpu_array@.len() == 0
                },
            decreases cpu_nums - i,
        {
            cpus.push(PerCpu::new(i));
            i += 1;
        }
        let mut set = PerCpuSet { cpus, base, current: None };
        match PerCpu::setup_this_cpu(&mut set, boot_id) {
            Ok(()) => Ok(set),
            Err(e) => Err(e),
        }
    }
}

impl PerCpu {
    /// Records core `cpu_id` of `set` as the calling core; `BadState` when
    /// the table has no such core.
    pub fn setup_this_cpu(set: &mut PerCpuSet, cpu_id: usize) -> (r: HyperResult<()>)
        ensures
            cpu_id < old(set).cpus@.len() ==> r is Ok && final(set).current == Some(cpu_id),
            cpu_id >= old(set).cpus@.len() ==> r == Err::<(), HyperError>(HyperError::BadState) && final(set).current == old(set).current,
            final(set).cpus@ == old(set).cpus@,
            final(set).base == old(set).base,
    {
        if cpu_id >= set.cpus.len() {
            return Err(HyperError::BadState);
        }
        set.current = Some(cpu_id);
        Ok(())
    }

    /// The state of the calling core in `set`.
    pub fn this_cpu(set: &mut PerCpuSet) -> (r: &mut PerCpu)
        requires
            old(set).current matches Some(c) && c < old(set).cpus@.len(),
        ensures
            *r == old(set).cpus@[old(set).current->Some_0 as int],
            final(set).cpus@ == old(set).cpus@.update(old(set).current->Some_0 as int, *final(r)),
            final(set).current == old(set).current,
            final(set).base == old(set).base,
    {
        let c = match set.current {
            Some(c) => c,
            None => vstd::pervasive::unreached(),
        };
        PerCpu::ptr_for_cpu(set, c)
    }

    /// The state of core `cpu_id` in `set`.
    pub fn ptr_for_cpu(set: &mut PerCpuSet, cpu_id: usize) -> (r: &mut PerCpu)
        requires
            cpu_id < old(set).cpus@.len(),
        ensures
            *r == old(set).cpus@[cpu_id as int],
            final(set).cpus@ == old(set).cpus@.update(cpu_id as int, *final(r)),
            final(set).current == old(set).current,
            final(set).base == old(set).base,
    {
        &mut set.cpus[cpu_id]
    }

    /// Reserves pages for the per-core area of `CPU_NUMS` cores from the
    /// allocator `H` (`per_cpu_pages` of `CPU_NUMS` times the size of a
    /// `PerCpu`), builds a fresh state for each core and makes core
    /// `boot_id` the current one. Fails with `NoMemory` when the area's size
    /// overflows or the allocator has no pages, and with `BadState` when
    /// `boot_id` names no core.
    pub fn init<H: HyperCraftHal>(boot_id: usize) -> (r: HyperResult<PerCpuSet>)
        ensures
            r matches Err(e) ==> e == HyperError::NoMemory || (e == HyperError::BadState && boot_id >= CPU_NUMS),
            r matches Ok(set) ==> set.current == Some(boot_id) && set.cpus@.len() == CPU_NUMS
                && forall|i: int| 0 <= i < CPU_NUMS ==> (#[trigger] set.cpus@[i]).cpu_id == i,
    {
        let area = match core::mem::size_of::<PerCpu>().checked_mul(CPU_NUMS) {
            Some(a) => a,
            None => {
                return Err(HyperError::NoMemory);
            },
        };
        let pages = H::alloc_pages(per_cpu_pages(area));
        PerCpuSet::from_pages(pages, boot_id, CPU_NUMS)
    }
}

/// The number of whole pages that hold `area_bytes` bytes.
pub fn per_cpu_pages(area_bytes: usize) -> (r: usize)
    ensures
        r * PAGE_SIZE_4K >= area_bytes,
        r * PAGE_SIZE_4K < area_bytes + PAGE_SIZE_4K,
{
    let q = area_bytes / PAGE_SIZE_4K;
    let m = area_bytes % PAGE_SIZE_4K;
    proof {
        assert(area_bytes == q * 4096 + m && m < 4096) by (nonlinear_arith)
            requires
                q == area_bytes / 4096usize,
                m == area_bytes % 4096usize,
        ;
    }
    if m == 0 {
        q
    } else {
        q + 1
    }
}

} // verus!
