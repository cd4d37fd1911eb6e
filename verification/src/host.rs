//! The host channel: the external collaborator that records forwarded
//! telemetry.
//!
//! Every call is a one-way notification with no observable return value,
//! so the channel is modelled as the ordered log of the notifications it
//! has received.  The naming follows the host ABI: the op-code interpreter
//! subsystem reports through `runtime_event`, the call/sub-call subsystem
//! through `evm_event`, and the gas accountant through `gasometer_event`.

use vstd::prelude::*;

use crate::event::canonical;
use crate::event::EventModel;

verus! {

/// One notification received by the host.
#[derive(Debug, PartialEq, Eq)]
pub enum HostCall {
    ListNew,
    EvmEvent(Vec<u8>),
    GasometerEvent(Vec<u8>),
    RuntimeEvent(Vec<u8>),
}

/// The mathematical model of a [`HostCall`].
pub enum HostCallModel {
    ListNew,
    EvmEvent(Seq<u8>),
    GasometerEvent(Seq<u8>),
    RuntimeEvent(Seq<u8>),
}

impl View for HostCall {
    type V = HostCallModel;

    open spec fn view(&self) -> HostCallModel {
        match self {
            HostCall::ListNew => HostCallModel::ListNew,
            HostCall::EvmEvent(b) => HostCallModel::EvmEvent(b@),
            HostCall::GasometerEvent(b) => HostCallModel::GasometerEvent(b@),
            HostCall::RuntimeEvent(b) => HostCallModel::RuntimeEvent(b@),
        }
    }
}

/// The notification that delivering an event produces: the event's
/// canonical bytes, on the channel call belonging to its subsystem.
pub open spec fn host_call_of(e: EventModel) -> HostCallModel {
    match e {
        EventModel::Execution(_) => HostCallModel::RuntimeEvent(canonical(e)),
        EventModel::Gas(_) => HostCallModel::GasometerEvent(canonical(e)),
        EventModel::Call(_) => HostCallModel::EvmEvent(canonical(e)),
    }
}

/// A host channel, remembered as the ordered log of received calls.
pub struct HostChannel {
    pub calls: Vec<HostCall>,
}

impl View for HostChannel {
    type V = Seq<HostCallModel>;

    open spec fn view(&self) -> Seq<HostCallModel> {
        self.calls@.map_values(|c: HostCall| c@)
    }
}

impl HostChannel {
    /// A channel that has received nothing yet.
    pub fn new() -> (h: HostChannel)
        ensures
            h@ == Seq::<HostCallModel>::empty(),
    {
        let h = HostChannel { calls: Vec::new() };
        proof {
            assert(h@ =~= Seq::<HostCallModel>::empty());
        }
        h
    }

    /// Starts a new top-level recording session.
    pub fn call_list_new(&mut self)
        ensures
            final(self)@ == old(self)@.push(HostCallModel::ListNew),
    {
        self.calls.push(HostCall::ListNew);
        proof {
            assert(self@ =~= old(self)@.push(HostCallModel::ListNew));
        }
    }

    /// Delivers one canonical call/sub-call event.
    pub fn evm_event(&mut self, message: Vec<u8>)
        ensures
            final(self)@ == old(self)@.push(HostCallModel::EvmEvent(message@)),
    {
        let ghost bytes = message@;
        self.calls.push(HostCall::EvmEvent(message));
        proof {
            assert(self@ =~= old(self)@.push(HostCallModel::EvmEvent(bytes)));
        }
    }

    /// Delivers one canonical gas event.
    pub fn gasometer_event(&mut self, message: Vec<u8>)
        ensures
            final(self)@ == old(self)@.push(HostCallModel::GasometerEvent(message@)),
    {
        let ghost bytes = message@;
        self.calls.push(HostCall::GasometerEvent(message));
        proof {
            assert(self@ =~= old(self)@.push(HostCallModel::GasometerEvent(bytes)));
        }
    }

    /// Delivers one canonical op-code execution event.
    pub fn runtime_event(&mut self, message: Vec<u8>)
        ensures
            final(self)@ == old(self)@.push(HostCallModel::RuntimeEvent(message@)),
    {
        let ghost bytes = message@;
        self.calls.push(HostCall::RuntimeEvent(message));
        proof {
            assert(self@ =~= old(self)@.push(HostCallModel::RuntimeEvent(bytes)));
        }
    }
}

} // verus!
