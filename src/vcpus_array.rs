//! Per-VM tables of vCPUs, one slot per vCPU index, each filled at most once.

use vstd::prelude::*;
use crate::error::{HyperError, HyperResult};
use crate::vcpu::VCpu;

verus! {

/// The maximum number of CPUs supported.
pub const MAX_CPUS: usize = 8;

/// Number of vCPU slots of a VM.
pub const VM_CPUS_MAX: usize = MAX_CPUS;

/// Number of occupied slots in `s`.
pub open spec fn count_some(s: Seq<Option<VCpu>>) -> nat
    decreases s.len(),
{
    if s.len() == 0 {
        0
    } else {
        count_some(s.drop_last()) + if s.last() is Some {
            1nat
        } else {
            0nat
        }
    }
}

proof fn lemma_count_some_bound(s: Seq<Option<VCpu>>)
    ensures
        count_some(s) <= s.len(),
        (exists|i: int| 0 <= i < s.len() && s[i] is None) ==> count_some(s) < s.len(),
    decreases s.len(),
{
    if s.len() > 0 {
        lemma_count_some_bound(s.drop_last());
        if exists|i: int| 0 <= i < s.len() && s[i] is None {
            let i = choose|i: int| 0 <= i < s.len() && s[i] is None;
            if i < s.len() - 1 {
                assert(s.drop_last()[i] is None);
            }
        }
    }
}

proof fn lemma_count_some_update(s: Seq<Option<VCpu>>, i: int, v: Option<VCpu>)
    requires
        0 <= i < s.len(),
    ensures
        count_some(s.update(i, v)) == count_some(s) - (if s[i] is Some {
            1int
        } else {
            0int
        }) + (if v is Some {
            1int
        } else {
            0int
        }),
    decreases s.len(),
{
    let t = s.update(i, v);
    if i == s.len() - 1 {
        assert(t.drop_last() =~= s.drop_last());
    } else {
        assert(t.drop_last() =~= s.drop_last().update(i, v));
        lemma_count_some_update(s.drop_last(), i, v);
    }
}

proof fn lemma_count_some_preserved(s: Seq<Option<VCpu>>, i: int)
    requires
        0 <= i < s.len(),
        s[i] is Some,
    ensures
        forall|v: VCpu| #[trigger] count_some(s.update(i, Some(v))) == count_some(s),
{
    assert forall|v: VCpu| #[trigger] count_some(s.update(i, Some(v))) == count_some(s) by {
        lemma_count_some_update(s, i, Some(v));
    }
}

/// Every occupied slot `i` of `slots` holds the vCPU of index `i`.
pub open spec fn slots_indexed(slots: Seq<Option<VCpu>>) -> bool {
    forall|i: int| 0 <= i < slots.len() && (#[trigger] slots[i]) is Some ==> slots[i]->Some_0.vcpu_id == i
}

/// The table and the result after registering `v` in `slots`.
pub open spec fn add_vcpu_spec(slots: Seq<Option<VCpu>>, v: VCpu) -> (Seq<Option<VCpu>>, HyperResult<()>) {
    if v.vcpu_id >= VM_CPUS_MAX {
        (slots, Err(HyperError::BadState))
    } else if slots[v.vcpu_id as int] is Some {
        (slots, Err(HyperError::InvalidParam))
    } else {
        (slots.update(v.vcpu_id as int, Some(v)), Ok(()))
    }
}

/// Registration is write-once: registering a second vCPU under an index
/// that a first registration used fails and leaves the table as the first
/// registration left it.
pub proof fn lemma_register_twice_rejected(slots: Seq<Option<VCpu>>, v1: VCpu, v2: VCpu)
    requires
        slots.len() == VM_CPUS_MAX,
        v1.vcpu_id == v2.vcpu_id,
    ensures
        ({
            let first = add_vcpu_spec(slots, v1);
            let second = add_vcpu_spec(first.0, v2);
            &&& second.1 is Err
            &&& second.0 == first.0
        }),
{
}

/// The vCPUs of a VM, one slot per vCPU index.
#[derive(Debug)]
pub struct VcpusArray {
    inner: Vec<Option<VCpu>>,
    /// Number of registered vCPUs.
    pub length: usize,
}

impl View for VcpusArray {
    type V = Seq<Option<VCpu>>;

    closed spec fn view(&self) -> Seq<Option<VCpu>> {
        self.inner@
    }
}

impl VcpusArray {
    /// There are `VM_CPUS_MAX` slots, `length` counts the occupied ones, and
    /// the vCPU in slot `i` has index `i`.
    pub closed spec fn wf(&self) -> bool {
        &&& self.inner@.len() == VM_CPUS_MAX
        &&& self.length == count_some(self.inner@)
        &&& slots_indexed(self.inner@)
    }

    /// What `wf` gives a caller: `VM_CPUS_MAX` slots, `length` of them
    /// taken, each holding the vCPU of its own index.
    pub proof fn lemma_wf(&self)
        requires
            self.wf(),
        ensures
            self@.len() == VM_CPUS_MAX,
            slots_indexed(self@),
            self.spec_length() == count_some(self@),
            self.spec_length() <= VM_CPUS_MAX,
    {
        lemma_count_some_bound(self.inner@);
    }

    /// The number of registered vCPUs.
    pub fn len(&self) -> (r: usize)
        ensures
            r == self.spec_length(),
    {
        self.length
    }

    /// The number of registered vCPUs.
    pub closed spec fn spec_length(&self) -> usize {
        self.length
    }

    /// A table with every slot empty.
    pub fn new() -> (r: Self)
        ensures
            r.wf(),
            r@.len() == VM_CPUS_MAX,
            forall|i: int| 0 <= i < VM_CPUS_MAX ==> #[trigger] r@[i] is None,
            r.spec_length() == 0,
    {
        let mut inner: Vec<Option<VCpu>> = Vec::with_capacity(VM_CPUS_MAX);
        let mut k: usize = 0;
        while k < VM_CPUS_MAX
            invariant
                k <= VM_CPUS_MAX,
                inner@.len() == k,
                forall|i: int| 0 <= i < k ==> #[trigger] inner@[i] is None,
                count_some(inner@) == 0,
            decreases VM_CPUS_MAX - k,
        {
            let ghost before = inner@;
            inner.push(None);
            assert(inner@.drop_last() =~= before);
            k += 1;
        }
        VcpusArray { inner, length: 0 }
    }

    /// Registers `vcpu` in the slot of its index. An index past the table is
    /// `BadState`; an occupied slot is `InvalidParam` and keeps its vCPU.
    pub fn add_vcpu(&mut self, vcpu: VCpu) -> (r: HyperResult<()>)
        requires
            old(self).wf(),
        ensures
            final(self).wf(),
            vcpu.vcpu_id >= VM_CPUS_MAX ==> r == Err::<(), HyperError>(HyperError::BadState)
                && final(self)@ == old(self)@,
            vcpu.vcpu_id < VM_CPUS_MAX && old(self)@[vcpu.vcpu_id as int] is Some ==> r == Err::<
                (),
                HyperError,
            >(HyperError::InvalidParam) && final(self)@ == old(self)@,
            vcpu.vcpu_id < VM_CPUS_MAX && old(self)@[vcpu.vcpu_id as int] is None ==> r == Ok::<
                (),
                HyperError,
            >(()) && final(self)@ == old(self)@.update(vcpu.vcpu_id as int, Some(vcpu)),
            final(self).spec_length() == count_some(final(self)@),
            (final(self)@, r) == add_vcpu_spec(old(self)@, vcpu),
    {
        let vcpu_id = vcpu.vcpu_id();
        if vcpu_id >= VM_CPUS_MAX {
            return Err(HyperError::BadState);
        }
        if self.inner[vcpu_id].is_some() {
            return Err(HyperError::InvalidParam);
        }
        proof {
            lemma_count_some_bound(self.inner@);
            lemma_count_some_update(self.inner@, vcpu_id as int, Some(vcpu));
        }
        self.inner.set(vcpu_id, Some(vcpu));
        self.length += 1;
        Ok(())
    }

    /// The vCPU registered at `vcpu_id`, for change in place. An index past
    /// the table is `BadState`; an empty slot is `NotFound`. The table stays
    /// well formed when the caller leaves the vCPU's index as it is.
    pub fn get_vcpu(&mut self, vcpu_id: usize) -> (r: HyperResult<&mut VCpu>)
        requires
            old(self).wf(),
        ensures
            vcpu_id >= VM_CPUS_MAX ==> r == Err::<&mut VCpu, HyperError>(HyperError::BadState)
                && *final(self) == *old(self),
            vcpu_id < VM_CPUS_MAX && old(self)@[vcpu_id as int] is None ==> r == Err::<
                &mut VCpu,
                HyperError,
            >(HyperError::NotFound) && *final(self) == *old(self),
            vcpu_id < VM_CPUS_MAX && old(self)@[vcpu_id as int] is Some ==> r is Ok && *r->Ok_0
                == old(self)@[vcpu_id as int]->Some_0 && final(self)@ == old(self)@.update(
                vcpu_id as int,
                Some(*final(r->Ok_0)),
            ) && final(self).spec_length() == old(self).spec_length(),
            r is Ok ==> r->Ok_0.vcpu_id == vcpu_id,
            r is Err ==> final(self).wf(),
            r is Ok && (*final(r->Ok_0)).vcpu_id == vcpu_id ==> final(self).wf(),
    {
        if vcpu_id >= VM_CPUS_MAX {
            return Err(HyperError::BadState);
        }
        if self.inner[vcpu_id].is_none() {
            return Err(HyperError::NotFound);
        }
        proof {
            lemma_count_some_preserved(self.inner@, vcpu_id as int);
        }
        match &mut self.inner[vcpu_id] {
            Some(vcpu) => Ok(vcpu),
            None => Err(HyperError::NotFound),
        }
    }

    /// The vCPU registered at `vcpu_id`, if any.
    pub fn get_vcpu_ref(&self, vcpu_id: usize) -> (r: Option<&VCpu>)
        requires
            self.wf(),
        ensures
            vcpu_id >= VM_CPUS_MAX ==> r is None,
            vcpu_id < VM_CPUS_MAX ==> r == match self@[vcpu_id as int] {
                Some(v) => Some(&v),
                None => None::<&VCpu>,
            },
    {
        if vcpu_id >= VM_CPUS_MAX {
            return None;
        }
        match &self.inner[vcpu_id] {
            Some(vcpu) => Some(vcpu),
            None => None,
        }
    }
}

/// The registered vCPUs of a VM: each slot is written once, and later
/// registrations for the same index are ignored.
#[derive(Debug)]
pub struct VmCpus {
    inner: Vec<Option<VCpu>>,
}

impl View for VmCpus {
    type V = Seq<Option<VCpu>>;

    closed spec fn view(&self) -> Seq<Option<VCpu>> {
        self.inner@
    }
}

impl VmCpus {
    /// There are `VM_CPUS_MAX` slots, and the vCPU in slot `i` has index `i`.
    pub closed spec fn wf(&self) -> bool {
        &&& self.inner@.len() == VM_CPUS_MAX
        &&& slots_indexed(self.inner@)
    }

    /// A set with every slot empty.
    pub fn new() -> (r: Self)
        ensures
            r.wf(),
            r@.len() == VM_CPUS_MAX,
            forall|i: int| 0 <= i < VM_CPUS_MAX ==> #[trigger] r@[i] is None,
    {
        let mut inner: Vec<Option<VCpu>> = Vec::with_capacity(VM_CPUS_MAX);
        let mut k: usize = 0;
        while k < VM_CPUS_MAX
            invariant
                k <= VM_CPUS_MAX,
                inner@.len() == k,
                forall|i: int| 0 <= i < k ==> #[trigger] inner@[i] is None,
            decreases VM_CPUS_MAX - k,
        {
            inner.push(None);
            k += 1;
        }
        VmCpus { inner }
    }

    /// Registers `vcpu` in the slot of its index unless the slot is taken, in
    /// which case the first vCPU stays. An index past the set is `BadState`.
    pub fn add_vcpu(&mut self, vcpu: VCpu) -> (r: HyperResult<()>)
        requires
            old(self).wf(),
        ensures
            final(self).wf(),
            vcpu.vcpu_id >= VM_CPUS_MAX ==> r == Err::<(), HyperError>(HyperError::BadState)
                && final(self)@ == old(self)@,
            vcpu.vcpu_id < VM_CPUS_MAX ==> r == Ok::<(), HyperError>(()),
            vcpu.vcpu_id < VM_CPUS_MAX && old(self)@[vcpu.vcpu_id as int] is Some ==> final(self)@ == old(self)@,
            vcpu.vcpu_id < VM_CPUS_MAX && old(self)@[vcpu.vcpu_id as int] is None ==> final(self)@
                == old(self)@.update(vcpu.vcpu_id as int, Some(vcpu)),
    {
        let vcpu_id = vcpu.vcpu_id();
        if vcpu_id >= VM_CPUS_MAX {
            return Err(HyperError::BadState);
        }
        if self.inner[vcpu_id].is_none() {
            self.inner.set(vcpu_id, Some(vcpu));
        }
        Ok(())
    }

    /// The vCPU registered at `vcpu_id`, for change in place. An index past
    /// the set is `BadState`; an empty slot is `NotFound`. The set stays well
    /// formed when the caller leaves the vCPU's index as it is.
    pub fn get_vcpu(&mut self, vcpu_id: usize) -> (r: HyperResult<&mut VCpu>)
        requires
            old(self).wf(),
        ensures
            vcpu_id >= VM_CPUS_MAX ==> r == Err::<&mut VCpu, HyperError>(HyperError::BadState)
                && *final(self) == *old(self),
            vcpu_id < VM_CPUS_MAX && old(self)@[vcpu_id as int] is None ==> r == Err::<
                &mut VCpu,
                HyperError,
            >(HyperError::NotFound) && *final(self) == *old(self),
            vcpu_id < VM_CPUS_MAX && old(self)@[vcpu_id as int] is Some ==> r is Ok && *r->Ok_0
                == old(self)@[vcpu_id as int]->Some_0 && final(self)@ == old(self)@.update(
                vcpu_id as int,
                Some(*final(r->Ok_0)),
            ),
            r is Ok ==> r->Ok_0.vcpu_id == vcpu_id,
            r is Err ==> final(self).wf(),
            r is Ok && (*final(r->Ok_0)).vcpu_id == vcpu_id ==> final(self).wf(),
    {
        if vcpu_id >= VM_CPUS_MAX {
            return Err(HyperError::BadState);
        }
        if self.inner[vcpu_id].is_none() {
            return Err(HyperError::NotFound);
        }
        match &mut self.inner[vcpu_id] {
            Some(vcpu) => Ok(vcpu),
            None => Err(HyperError::NotFound),
        }
    }
}

} // verus!
