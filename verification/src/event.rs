//! What happens to the core, and what it tells others.
use std::sync::Arc;
use tokio::sync::mpsc::UnboundedSender;
use tokio::sync::watch;
use vstd::prelude::*;

use crate::channel::detached_watch;
use crate::device::{Certificate, Device, DeviceId, PairState};
use crate::protocol::{MprisRequest, PacketType, ProtocolPacket};

verus! {

/// A stream of bytes that goes with a packet. The program that embeds the core keeps the stream
/// itself under the number given here.
#[derive(Clone, Copy, Debug)]
pub struct Payload {
    pub stream: u64,
    pub size: u64,
}

/// What the parts of the program ask of the core.
#[derive(Debug)]
pub enum CoreEvent {
    /// A paired device sent a packet for a plugin.
    PacketReceived { device: DeviceId, packet: ProtocolPacket },
    DeviceDiscovered(Device),
    DevicePaired((DeviceId, Device)),
    DevicePairCancelled(DeviceId),
    DevicePairStateChanged((DeviceId, PairState)),
    /// Send a packet.
    SendPacket { device: DeviceId, packet: ProtocolPacket },
    /// Send a packet and the payload that goes with it.
    SendPaylod { device: DeviceId, packet: ProtocolPacket, payload: Payload },
    Error(String),
}

/// What the user asks of the core.
#[derive(Debug)]
pub enum AppEvent {
    /// Announce this side on the network.
    Broadcasting,
    Pair(DeviceId),
    Ping((DeviceId, String)),
    SendPacket(DeviceId, ProtocolPacket),
    SendFiles((DeviceId, Vec<String>)),
    /// Have a player, named second, take the action named third.
    MprisAction((DeviceId, String, String)),
    SendMprisRequest((DeviceId, MprisRequest)),
    Unpair(DeviceId),
    AcceptPairing(DeviceId),
    RejectPairing(DeviceId),
    Disconnect(DeviceId),
    SetPluginEnabled { device_id: DeviceId, plugin_id: String, enabled: bool },
}

/// What the core tells the user and the media player bridge.
#[derive(Debug)]
pub enum ConnectionEvent {
    Connected((DeviceId, Device)),
    Disconnected(DeviceId),
    DevicePaired((DeviceId, Device)),
    PairStateChanged((DeviceId, PairState)),
    /// A device asks to pair; its name comes second.
    PairingRequested((DeviceId, String)),
    /// Pairing came to nothing.
    PairingTimedOut(DeviceId),
}

impl ConnectionEvent {
    /// Another copy of the event.
    pub fn duplicate(&self) -> (copy: ConnectionEvent)
        ensures
            copy == *self,
    {
        match self {
            ConnectionEvent::Connected((id, device)) => ConnectionEvent::Connected(
                (id.duplicate(), device.duplicate()),
            ),
            ConnectionEvent::Disconnected(id) => ConnectionEvent::Disconnected(id.duplicate()),
            ConnectionEvent::DevicePaired((id, device)) => ConnectionEvent::DevicePaired(
                (id.duplicate(), device.duplicate()),
            ),
            ConnectionEvent::PairStateChanged((id, state)) => ConnectionEvent::PairStateChanged(
                (id.duplicate(), *state),
            ),
            ConnectionEvent::PairingRequested((id, name)) => ConnectionEvent::PairingRequested(
                (id.duplicate(), name.clone()),
            ),
            ConnectionEvent::PairingTimedOut(id) => ConnectionEvent::PairingTimedOut(
                id.duplicate(),
            ),
        }
    }
}

/// What a peer said of itself when its connection was made.
pub struct ConnMetadata {
    pub device_type: String,
    pub incoming_capabilities: Arc<Vec<String>>,
    pub outgoing_capabilities: Arc<Vec<String>>,
    pub protocol_version: u32,
    pub pairing_timestamp: u64,
    pub peer_certificate: Option<Certificate>,
    pub shutdown_tx: watch::Sender<bool>,
}

impl ConnMetadata {
    /// What is taken for granted of a peer that said nothing.
    pub open spec fn is_unknown(self) -> bool {
        &&& self.device_type@ == "phone"@
        &&& self.incoming_capabilities@ == Seq::<String>::empty()
        &&& self.outgoing_capabilities@ == Seq::<String>::empty()
        &&& self.protocol_version == 0
        &&& self.pairing_timestamp == 0
        &&& self.peer_certificate is None
    }

    /// Whether this is what the peer said, or what is taken for granted if it said nothing.
    pub open spec fn stands_for(self, meta: Option<ConnMetadata>) -> bool {
        match meta {
            Some(said) => self == said,
            None => self.is_unknown(),
        }
    }

    /// What the peer said, or what is taken for granted if it said nothing.
    pub fn or_unknown(meta: Option<ConnMetadata>) -> (known: ConnMetadata)
        ensures
            known.stands_for(meta),
    {
        match meta {
            Some(said) => said,
            None => ConnMetadata {
                device_type: "phone".to_owned(),
                incoming_capabilities: Arc::new(Vec::new()),
                outgoing_capabilities: Arc::new(Vec::new()),
                protocol_version: 0,
                pairing_timestamp: 0,
                peer_certificate: None,
                shutdown_tx: detached_watch(false),
            },
        }
    }
}

/// What happens on the network.
pub enum TransportEvent {
    NewConnection {
        addr: String,
        id: DeviceId,
        name: String,
        write_tx: UnboundedSender<ProtocolPacket>,
        conn_id: u64,
        /// What the peer said of itself, if anything is on record.
        meta: Option<ConnMetadata>,
    },
    IncomingPacket {
        addr: String,
        id: DeviceId,
        /// The number of the connection it came over, if that is on record.
        via: Option<u64>,
        /// The packet, or why the bytes are none.
        packet: Result<ProtocolPacket, String>,
    },
    Disconnected { id: DeviceId, conn_id: u64 },
    PacketSendFailed { id: DeviceId, packet_type: PacketType, conn_id: u64 },
    /// A paired device presented a certificate that is not its own.
    PairTrustFailed { id: DeviceId },
}

} // verus!
