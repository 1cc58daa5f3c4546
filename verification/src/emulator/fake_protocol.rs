//! The packets that travel between the host and the emulated device.

use vstd::prelude::*;

verus! {

/// The interface that a packet is meant for.
#[derive(Debug, Clone, Copy, PartialEq, Eq, Hash, Structural)]
pub enum IfaceKind {
    Control,
    Event,
    Stream,
}

/// What the host asks for.
#[derive(Debug, PartialEq, Eq)]
pub enum FakeReqKind {
    Send(Vec<u8>),
    Recv,
    SetHalt,
    ClearHalt,
}

/// This packet is sent from a host.
#[derive(Debug, PartialEq, Eq)]
pub struct FakeReqPacket {
    pub iface: IfaceKind,
    pub kind: FakeReqKind,
}

impl FakeReqPacket {
    /// A request of `kind` for the interface `iface`.
    pub fn new(iface: IfaceKind, kind: FakeReqKind) -> (packet: FakeReqPacket)
        ensures
            packet.iface == iface,
            packet.kind == kind,
    {
        FakeReqPacket { iface, kind }
    }
}

impl FakeReqKind {
    /// Whether the request is to halt the interface.
    pub fn is_set_halt(&self) -> (b: bool)
        ensures
            b == (self is SetHalt),
    {
        matches!(self, FakeReqKind::SetHalt)
    }

    /// Whether the request is to clear the halt of the interface.
    pub fn is_clear_halt(&self) -> (b: bool)
        ensures
            b == (self is ClearHalt),
    {
        matches!(self, FakeReqKind::ClearHalt)
    }
}

/// What the device answers.
#[derive(Debug, PartialEq, Eq)]
pub enum FakeAckKind {
    SendAck,
    RecvAck(Vec<u8>),
    RecvNak,
    IfaceHalted,
    SetHaltAck,
    ClearHaltAck,
    BrokenReq,
}

/// This packet is sent from a device.
#[derive(Debug, PartialEq, Eq)]
pub struct FakeAckPacket {
    pub iface: IfaceKind,
    pub kind: FakeAckKind,
}

impl FakeAckPacket {
    /// An answer of `kind` from the interface `iface`.
    pub fn new(iface: IfaceKind, kind: FakeAckKind) -> (packet: FakeAckPacket)
        ensures
            packet.iface == iface,
            packet.kind == kind,
    {
        FakeAckPacket { iface, kind }
    }
}

} // verus!
