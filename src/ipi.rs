//! Messages between physical cores, carried by per-core inbound queues.

use vstd::prelude::*;
use std::collections::VecDeque;

verus! {

/// Kind of an inter-processor message; selects its handler.
#[derive(Clone, Copy, Debug, PartialEq, Eq, Structural)]
pub enum IpiType {
    /// Guest CPU power event.
    Power,
}

/// A guest CPU power event.
#[derive(Clone, Copy, Debug, PartialEq, Eq, Structural)]
pub enum PowerEvent {
    /// Power a vCPU on.
    PsciIpiCpuOn,
    /// Power a vCPU off.
    PsciIpiCpuOff,
    /// Reset a vCPU.
    PsciIpiCpuReset,
}

/// A power event for the vCPU of VM `src` hosted on the receiving core.
#[derive(Clone, Copy, Debug, PartialEq, Eq, Structural)]
pub struct IpiPowerMessage {
    /// VM id of the target vCPU.
    pub src: usize,
    /// The event.
    pub event: PowerEvent,
    /// Guest entry address for power-on.
    pub entry: usize,
    /// Context argument of the power-on request.
    pub context: usize,
}

/// The payload of a message.
#[derive(Clone, Copy, Debug, PartialEq, Eq, Structural)]
pub enum IpiInnerMsg {
    /// A power event.
    Power(IpiPowerMessage),
    /// No payload.
    Empty,
}

/// A message between cores.
#[derive(Clone, Copy, Debug, PartialEq, Eq, Structural)]
pub struct IpiMessage {
    /// Kind, which selects the handler.
    pub ipi_type: IpiType,
    /// Payload.
    pub ipi_message: IpiInnerMsg,
}

/// The inbound message queue of one core, oldest first.
#[derive(Debug)]
pub struct CpuIf {
    msg_queue: VecDeque<IpiMessage>,
}

impl View for CpuIf {
    type V = Seq<IpiMessage>;

    closed spec fn view(&self) -> Seq<IpiMessage> {
        self.msg_queue@
    }
}

impl CpuIf {
    /// An empty queue.
    pub fn new() -> (r: Self)
        ensures
            r@.len() == 0,
    {
        CpuIf { msg_queue: VecDeque::new() }
    }

    /// Number of queued messages.
    pub fn len(&self) -> (r: usize)
        ensures
            r == self@.len(),
    {
        self.msg_queue.len()
    }

    /// Appends `msg` to the queue.
    pub fn push(&mut self, msg: IpiMessage)
        ensures
            final(self)@ == old(self)@.push(msg),
    {
        self.msg_queue.push_back(msg);
    }

    /// Removes and returns the oldest message, if any.
    pub fn pop(&mut self) -> (r: Option<IpiMessage>)
        ensures
            old(self)@.len() == 0 ==> r is None && final(self)@ == old(self)@,
            old(self)@.len() > 0 ==> r == Some(old(self)@[0]) && final(self)@ == old(self)@.subrange(1, old(self)@.len() as int),
    {
        self.msg_queue.pop_front()
    }
}

/// Sends a message of kind `ipi_type` to core `target_id`: it is queued on
/// that core's inbound queue. Fails, queueing nothing, when there is no such
/// core. The caller then raises the physical interrupt on the target.
pub fn ipi_send_msg(cpu_if_list: &mut Vec<CpuIf>, target_id: usize, ipi_type: IpiType, ipi_message: IpiInnerMsg) -> (r: bool)
    ensures
        r == (target_id < old(cpu_if_list)@.len()),
        r ==> final(cpu_if_list)@.len() == old(cpu_if_list)@.len()
            && final(cpu_if_list)@[target_id as int]@ == old(cpu_if_list)@[target_id as int]@.push(IpiMessage { ipi_type, ipi_message })
            && forall|i: int| 0 <= i < old(cpu_if_list)@.len() && i != target_id ==> #[trigger] final(cpu_if_list)@[i] == old(cpu_if_list)@[i],
        !r ==> final(cpu_if_list)@ == old(cpu_if_list)@,
{
    let msg = IpiMessage { ipi_type, ipi_message };
    ipi_send(cpu_if_list, target_id, msg)
}

fn ipi_send(cpu_if_list: &mut Vec<CpuIf>, target_id: usize, msg: IpiMessage) -> (r: bool)
    ensures
        r == (target_id < old(cpu_if_list)@.len()),
        r ==> final(cpu_if_list)@.len() == old(cpu_if_list)@.len()
            && final(cpu_if_list)@[target_id as int]@ == old(cpu_if_list)@[target_id as int]@.push(msg)
            && forall|i: int| 0 <= i < old(cpu_if_list)@.len() && i != target_id ==> #[trigger] final(cpu_if_list)@[i] == old(cpu_if_list)@[i],
        !r ==> final(cpu_if_list)@ == old(cpu_if_list)@,
{
    if target_id >= cpu_if_list.len() {
        return false;
    }
    cpu_if_list[target_id].push(msg);
    true
}

/// Removes and returns the oldest message queued for core `cpu_id`.
pub fn ipi_pop_message(cpu_if_list: &mut Vec<CpuIf>, cpu_id: usize) -> (r: Option<IpiMessage>)
    requires
        cpu_id < old(cpu_if_list)@.len(),
    ensures
        final(cpu_if_list)@.len() == old(cpu_if_list)@.len(),
        forall|i: int| 0 <= i < old(cpu_if_list)@.len() && i != cpu_id ==> #[trigger] final(cpu_if_list)@[i] == old(cpu_if_list)@[i],
        old(cpu_if_list)@[cpu_id as int]@.len() == 0 ==> r is None && final(cpu_if_list)@[cpu_id as int]@ == old(cpu_if_list)@[cpu_id as int]@,
        old(cpu_if_list)@[cpu_id as int]@.len() > 0 ==> r == Some(old(cpu_if_list)@[cpu_id as int]@[0])
            && final(cpu_if_list)@[cpu_id as int]@ == old(cpu_if_list)@[cpu_id as int]@.subrange(1, old(cpu_if_list)@[cpu_id as int]@.len() as int),
{
    cpu_if_list[cpu_id].pop()
}

} // verus!
