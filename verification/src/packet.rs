//! The packets that the guest and the host exchange over TCP.
use vstd::prelude::*;

verus! {

/// A bridge packet. Sessions are named by the 128-bit value of their UUID.
#[derive(Debug, Clone, PartialEq, Eq)]
pub enum Packet {
    /// A Discord client on the guest opened session `0`.
    Connect(u128),
    /// Session `0` ended.
    Disconnect(u128),
    /// Bytes of session `0`, in the direction of the packet.
    Data(u128, Vec<u8>),
}

impl Packet {
    /// The session that the packet belongs to.
    pub open spec fn spec_session(&self) -> u128 {
        match self {
            Packet::Connect(id) => *id,
            Packet::Disconnect(id) => *id,
            Packet::Data(id, _) => *id,
        }
    }

    /// The session that the packet belongs to.
    pub fn session(&self) -> (id: u128)
        ensures
            id == self.spec_session(),
    {
        match self {
            Packet::Connect(id) => *id,
            Packet::Disconnect(id) => *id,
            Packet::Data(id, _) => *id,
        }
    }
}

/// What happens on one Discord IPC connection that the guest accepted.
#[derive(Debug, Clone, PartialEq, Eq)]
pub enum IpcEvent {
    /// The connection of session `0` was accepted.
    Accepted(u128),
    /// These bytes were read from the connection of session `0`.
    Received(u128, Vec<u8>),
    /// The connection of session `0` ended.
    Ended(u128),
}

/// The packet that tells the host of an event on a guest's IPC connection.
pub open spec fn spec_packet_for(event: IpcEvent) -> Packet {
    match event {
        IpcEvent::Accepted(id) => Packet::Connect(id),
        IpcEvent::Received(id, data) => Packet::Data(id, data),
        IpcEvent::Ended(id) => Packet::Disconnect(id),
    }
}

/// The session of an event.
pub open spec fn event_session(event: IpcEvent) -> u128 {
    match event {
        IpcEvent::Accepted(id) => id,
        IpcEvent::Received(id, _) => id,
        IpcEvent::Ended(id) => id,
    }
}

/// The packet for an event names the event's session, whole; the packet for bytes
/// read carries exactly those bytes; acceptance and end give the packets that open
/// and close the session.
pub proof fn lemma_packet_for_keeps_session(event: IpcEvent)
    ensures
        spec_packet_for(event).spec_session() == event_session(event),
        event matches IpcEvent::Received(id, data) ==> spec_packet_for(event) == Packet::Data(
            id,
            data,
        ),
        event is Accepted ==> spec_packet_for(event) is Connect,
        event is Ended ==> spec_packet_for(event) is Disconnect,
{
}

/// The packet that tells the host of an event on a guest's IPC connection: `Connect`
/// when it is accepted, `Data` with the bytes of each read, `Disconnect` when it ends.
pub fn packet_for(event: IpcEvent) -> (p: Packet)
    ensures
        p == spec_packet_for(event),
        event matches IpcEvent::Accepted(id) ==> p == Packet::Connect(id),
        event matches IpcEvent::Received(id, data) ==> p == Packet::Data(id, data),
        event matches IpcEvent::Ended(id) ==> p == Packet::Disconnect(id),
{
    match event {
        IpcEvent::Accepted(id) => Packet::Connect(id),
        IpcEvent::Received(id, data) => Packet::Data(id, data),
        IpcEvent::Ended(id) => Packet::Disconnect(id),
    }
}

} // verus!
