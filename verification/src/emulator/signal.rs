//! The signals between the modules of the emulated device.

use crate::emulator::fake_protocol::IfaceKind;
use futures::channel::oneshot;
use vstd::prelude::*;
use vstd::std_specs::convert::FromSpecImpl;

verus! {

/// `futures::channel::oneshot::Sender`, the sending end of a one-shot
/// channel: carried through as it is, never looked into.
#[verifier::external_type_specification]
#[verifier::external_body]
#[verifier::reject_recursive_types(T)]
pub struct ExSender<T>(oneshot::Sender<T>);

/// Signal sent to control module.
pub enum ControlSignal {
    /// Signal notifying that the device has received data from the host.
    ReceiveData(Vec<u8>),
    /// Signal to cancel all jobs running on the control module. The sender
    /// is for the module to say that it has done so.
    CancelJobs(oneshot::Sender<()>),
    /// Signal to clear Ei register.
    ClearEiRegister,
    /// Signal to clear Si register.
    ClearSiRegister,
    /// Signal to shutdown.
    Shutdown,
}

/// Signal sent to event module.
pub enum EventSignal {
    /// Signal to send event data to the host.
    EventData { event_id: u16, data: Vec<u8>, request_id: u16 },
    /// Signal to update timestamp.
    UpdateTimestamp(u64),
    /// Signal to enable event module.
    Enable,
    /// Signal to disable event module. The sender is for the module to say
    /// that it has done so.
    Disable(oneshot::Sender<()>),
    /// Signal to shutdown.
    Shutdown,
}

/// Signal sent to stream module.
pub enum StreamSignal {
    /// Signal to enable stream module.
    Enable,
    /// Signal to disable stream module. The sender is for the module to
    /// say that it has done so.
    Disable(oneshot::Sender<()>),
    /// Signal to shutdown.
    Shutdown,
}

/// Signal sent from each module to interface.
pub enum InterfaceSignal {
    ToControl(ControlSignal),
    ToEvent(EventSignal),
    ToStream(StreamSignal),
    Halt(IfaceKind),
}

impl From<ControlSignal> for InterfaceSignal {
    fn from(val: ControlSignal) -> (signal: InterfaceSignal) {
        InterfaceSignal::ToControl(val)
    }
}

impl FromSpecImpl<ControlSignal> for InterfaceSignal {
    open spec fn obeys_from_spec() -> bool {
        true
    }

    open spec fn from_spec(val: ControlSignal) -> InterfaceSignal {
        InterfaceSignal::ToControl(val)
    }
}

impl From<EventSignal> for InterfaceSignal {
    fn from(val: EventSignal) -> (signal: InterfaceSignal) {
        InterfaceSignal::ToEvent(val)
    }
}

impl FromSpecImpl<EventSignal> for InterfaceSignal {
    open spec fn obeys_from_spec() -> bool {
        true
    }

    open spec fn from_spec(val: EventSignal) -> InterfaceSignal {
        InterfaceSignal::ToEvent(val)
    }
}

impl From<StreamSignal> for InterfaceSignal {
    fn from(val: StreamSignal) -> (signal: InterfaceSignal) {
        InterfaceSignal::ToStream(val)
    }
}

impl FromSpecImpl<StreamSignal> for InterfaceSignal {
    open spec fn obeys_from_spec() -> bool {
        true
    }

    open spec fn from_spec(val: StreamSignal) -> InterfaceSignal {
        InterfaceSignal::ToStream(val)
    }
}

} // verus!
