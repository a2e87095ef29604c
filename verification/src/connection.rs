//! The live connections, and the rules that go with them.
use tokio::sync::mpsc::UnboundedSender;
use tokio::sync::watch;
use vstd::prelude::*;

use crate::channel::{Flow, Outlet, Signals, Switch};
use crate::device::{DeviceId, PairState};
use crate::device_map::DeviceMap;
use crate::protocol::{pair_packet, PacketType, Pair, ProtocolPacket};

verus! {

/// How far the clocks of two devices may be apart when they pair, in seconds.
pub const ALLOWED_TIMESTAMP_DIFF_SECS: u64 = 1800;

/// How long a pairing request waits for an answer, in seconds.
pub const PAIRING_TIMEOUT_SECS: u64 = 30;

/// How long after a resync notice the next one for the same device is held back, in nanoseconds.
pub const UNPAIRED_RESYNC_INTERVAL: u64 = 2_000_000_000;

/// How long a connection outlives the resync notice sent over it, in milliseconds.
pub const UNPAIRED_RESYNC_DROP_DELAY: u64 = 250;

/// The account of a connection: the packets written to it, whether it took each of them, and the
/// signals that end it.
#[verifier::ext_equal]
pub struct Link {
    pub writes: Flow<ProtocolPacket>,
    pub answers: Seq<bool>,
    pub shutdown: Signals,
}

impl Link {
    /// Nothing was written and nothing signalled.
    pub open spec fn fresh(
        write_tx: UnboundedSender<ProtocolPacket>,
        shutdown_tx: watch::Sender<bool>,
    ) -> Link {
        Link {
            writes: Flow::fresh(write_tx),
            answers: Seq::empty(),
            shutdown: Signals::fresh(shutdown_tx),
        }
    }

    /// Whether the connection was ever told anything.
    pub open spec fn told(self) -> bool {
        self.shutdown.sent.len() > 0
    }

    /// The connection was told to shut down, once more.
    pub open spec fn shut(self) -> Link {
        Link { shutdown: self.shutdown.with(true), ..self }
    }

    /// One more packet was written.
    pub open spec fn with(self, packet: ProtocolPacket) -> Link {
        Link { writes: self.writes.with(packet), ..self }
    }

    /// The connection answered one more packet: it took it, or did not.
    pub open spec fn answered(self, taken: bool) -> Link {
        Link { answers: self.answers.push(taken), ..self }
    }

    /// One more copy of the sender was handed out.
    pub open spec fn copied(self) -> Link {
        Link { writes: self.writes.copied(), ..self }
    }
}

/// The two channels into the task that serves a connection.
pub struct ConnectionHandle {
    /// Packets for the peer.
    pub write_tx: Outlet<ProtocolPacket>,
    /// Turns true when the connection is to end.
    pub shutdown_tx: Switch,
}

impl View for ConnectionHandle {
    type V = Link;

    open spec fn view(&self) -> Link {
        Link {
            writes: self.write_tx@,
            answers: self.write_tx.answers(),
            shutdown: self.shutdown_tx@,
        }
    }
}

impl ConnectionHandle {
    /// Whether this is a handle on these channels through which nothing went yet.
    pub open spec fn is_fresh(
        self,
        write_tx: UnboundedSender<ProtocolPacket>,
        shutdown_tx: watch::Sender<bool>,
    ) -> bool {
        self@ == Link::fresh(write_tx, shutdown_tx)
    }

    /// A handle on a new connection.
    pub fn new(
        write_tx: UnboundedSender<ProtocolPacket>,
        shutdown_tx: watch::Sender<bool>,
    ) -> (handle: ConnectionHandle)
        ensures
            handle.is_fresh(write_tx, shutdown_tx),
    {
        ConnectionHandle { write_tx: Outlet::new(write_tx), shutdown_tx: Switch::new(shutdown_tx) }
    }

    /// Tells the connection to shut down, once, and does nothing else.
    fn shut_down(&mut self)
        ensures
            final(self)@ == old(self)@.shut(),
    {
        self.shutdown_tx.notify(true);
    }
}

/// Makes a connection the current one of its device. The connection that it replaces, if any, is
/// told to shut down and comes back; no other is told anything.
pub fn install_connection(
    writer_map: &mut DeviceMap<ConnectionHandle>,
    conn_id_map: &mut DeviceMap<u64>,
    device_id: DeviceId,
    conn_id: u64,
    handle: ConnectionHandle,
) -> (replaced: Option<ConnectionHandle>)
    ensures
        final(writer_map)@ == old(writer_map)@.insert(device_id@, handle@),
        final(conn_id_map)@ == old(conn_id_map)@.insert(device_id@, conn_id),
        match replaced {
            Some(previous) => old(writer_map)@.contains_key(device_id@) && previous@ == old(
                writer_map,
            )@[device_id@].shut(),
            None => !old(writer_map)@.contains_key(device_id@),
        },
{
    conn_id_map.insert(device_id.duplicate(), conn_id);
    match writer_map.insert(device_id, handle) {
        Some(previous) => {
            let mut previous = previous;
            previous.shut_down();
            Some(previous)
        },
        None => None,
    }
}

/// Forgets the connection of a device. If there was one, it is told to shut down and comes back; no
/// other is told anything.
pub fn remove_connection(
    writer_map: &mut DeviceMap<ConnectionHandle>,
    conn_id_map: &mut DeviceMap<u64>,
    device_id: &DeviceId,
) -> (removed: Option<ConnectionHandle>)
    ensures
        final(writer_map)@ == old(writer_map)@.remove(device_id@),
        final(conn_id_map)@ == old(conn_id_map)@.remove(device_id@),
        match removed {
            Some(handle) => old(writer_map)@.contains_key(device_id@) && handle@ == old(
                writer_map,
            )@[device_id@].shut(),
            None => !old(writer_map)@.contains_key(device_id@),
        },
{
    conn_id_map.remove(device_id);
    match writer_map.remove(device_id) {
        Some(handle) => {
            let mut handle = handle;
            handle.shut_down();
            Some(handle)
        },
        None => None,
    }
}

/// Whether a connection is the one its device currently uses.
pub open spec fn is_current(conn_ids: Map<Seq<char>, u64>, device: Seq<char>, conn_id: u64) -> bool {
    conn_ids.contains_key(device) && conn_ids[device] == conn_id
}

/// Whether a connection is the one its device currently uses.
pub fn is_current_connection(
    conn_id_map: &DeviceMap<u64>,
    device_id: &DeviceId,
    conn_id: u64,
) -> (current: bool)
    ensures
        current == is_current(conn_id_map@, device_id@, conn_id),
{
    match conn_id_map.get(device_id) {
        Some(current) => *current == conn_id,
        None => false,
    }
}

/// Like `remove_connection`, but only where the given connection is the current one. Otherwise
/// nothing changes, and no connection is told anything.
pub fn remove_connection_if_current(
    writer_map: &mut DeviceMap<ConnectionHandle>,
    conn_id_map: &mut DeviceMap<u64>,
    device_id: &DeviceId,
    conn_id: u64,
) -> (removed: Option<ConnectionHandle>)
    ensures
        is_current(old(conn_id_map)@, device_id@, conn_id) ==> {
            &&& final(writer_map)@ == old(writer_map)@.remove(device_id@)
            &&& final(conn_id_map)@ == old(conn_id_map)@.remove(device_id@)
        },
        !is_current(old(conn_id_map)@, device_id@, conn_id) ==> {
            &&& final(writer_map)@ == old(writer_map)@
            &&& final(conn_id_map)@ == old(conn_id_map)@
        },
        match removed {
            Some(handle) => is_current(old(conn_id_map)@, device_id@, conn_id) && old(
                writer_map,
            )@.contains_key(device_id@) && handle@ == old(writer_map)@[device_id@].shut(),
            None => !(is_current(old(conn_id_map)@, device_id@, conn_id) && old(
                writer_map,
            )@.contains_key(device_id@)),
        },
{
    if !is_current_connection(conn_id_map, device_id, conn_id) {
        return None;
    }
    remove_connection(writer_map, conn_id_map, device_id)
}

/// Writes a packet to the connection of a device, if it has one, and to no other. The result is what
/// the connection answered: whether it took the packet.
pub fn write_packet(
    writer_map: &mut DeviceMap<ConnectionHandle>,
    device_id: &DeviceId,
    packet: ProtocolPacket,
) -> (answer: Option<bool>)
    ensures
        match answer {
            Some(taken) => old(writer_map)@.contains_key(device_id@) && final(writer_map)@ == old(
                writer_map,
            )@.insert(device_id@, old(writer_map)@[device_id@].with(packet).answered(taken)),
            None => !old(writer_map)@.contains_key(device_id@) && final(writer_map)@ == old(
                writer_map,
            )@,
        },
{
    match writer_map.remove(device_id) {
        Some(handle) => {
            let mut handle = handle;
            let taken = handle.write_tx.hand_over(packet);
            writer_map.insert(device_id.duplicate(), handle);
            assert(writer_map@ =~= old(writer_map)@.insert(
                device_id@,
                old(writer_map)@[device_id@].with(packet).answered(taken),
            ));
            Some(taken)
        },
        None => {
            assert(writer_map@ =~= old(writer_map)@);
            None
        },
    }
}

/// A copy of the sender that leads to a device, if it is connected. Nothing is written.
pub fn sender_to(writer_map: &mut DeviceMap<ConnectionHandle>, device_id: &DeviceId) -> (sender:
    Option<UnboundedSender<ProtocolPacket>>)
    ensures
        match sender {
            Some(copy) => {
                &&& old(writer_map)@.contains_key(device_id@)
                &&& copy == old(writer_map)@[device_id@].writes.channel
                &&& final(writer_map)@ == old(writer_map)@.insert(
                    device_id@,
                    old(writer_map)@[device_id@].copied(),
                )
            },
            None => !old(writer_map)@.contains_key(device_id@) && final(writer_map)@ == old(
                writer_map,
            )@,
        },
{
    match writer_map.remove(device_id) {
        Some(handle) => {
            let mut handle = handle;
            let copy = handle.write_tx.share();
            writer_map.insert(device_id.duplicate(), handle);
            assert(writer_map@ =~= old(writer_map)@.insert(
                device_id@,
                old(writer_map)@[device_id@].copied(),
            ));
            Some(copy)
        },
        None => {
            assert(writer_map@ =~= old(writer_map)@);
            None
        },
    }
}

/// Forgets the pairing attempt of a device, which ends the watch over it.
pub fn remove_pairing_attempt(pairing_attempts: &mut DeviceMap<u64>, device_id: &DeviceId)
    ensures
        final(pairing_attempts)@ == old(pairing_attempts)@.remove(device_id@),
{
    pairing_attempts.remove(device_id);
}

/// The number of the next pairing attempt with a device. Numbers wrap around.
pub open spec fn next_attempt(attempts: Map<Seq<char>, u64>, device: Seq<char>) -> u64 {
    if !attempts.contains_key(device) {
        1
    } else if attempts[device] == u64::MAX {
        0
    } else {
        (attempts[device] + 1) as u64
    }
}

/// Starts a new pairing attempt with a device, which supersedes the one before.
pub fn start_pairing_attempt(pairing_attempts: &mut DeviceMap<u64>, device_id: &DeviceId) -> (attempt:
    u64)
    ensures
        attempt == next_attempt(old(pairing_attempts)@, device_id@),
        final(pairing_attempts)@ == old(pairing_attempts)@.insert(device_id@, attempt),
{
    let last: u64 = match pairing_attempts.get(device_id) {
        Some(last) => *last,
        None => 0,
    };
    let attempt: u64 = last.wrapping_add(1);
    pairing_attempts.insert(device_id.duplicate(), attempt);
    attempt
}

/// The notice that tells a peer it is not paired.
pub open spec fn pair_false() -> ProtocolPacket {
    crate::protocol::pair_packet_of(Pair { pair: false, timestamp: None })
}

/// The notice that tells a peer it is not paired.
pub fn pair_false_packet() -> (notice: ProtocolPacket)
    ensures
        notice == pair_false(),
{
    pair_packet(Pair::reject())
}

/// The packets that pairing itself is made of.
pub open spec fn is_protocol_packet(packet_type: PacketType) -> bool {
    packet_type is Pair || packet_type is Identity
}

/// Which packets may go to a device: those of the protocol always, all others only once the two
/// are paired.
pub open spec fn allowed(packet_type: PacketType, pair_state: Option<PairState>) -> bool {
    is_protocol_packet(packet_type) || pair_state == Some(PairState::Paired)
}

/// Which packets may go to a device: those of the protocol always, all others only once the two
/// are paired.
pub fn packet_allowed_for_pair_state(
    packet_type: &PacketType,
    pair_state: Option<PairState>,
) -> (may_send: bool)
    ensures
        may_send == allowed(*packet_type, pair_state),
{
    matches!(packet_type, PacketType::Pair | PacketType::Identity)
        || matches!(pair_state, Some(PairState::Paired))
}

/// Holds back resync notices to devices that were sent one a moment ago.
pub struct UnpairedResyncLimiter {
    last_sent: DeviceMap<u64>,
}

impl View for UnpairedResyncLimiter {
    /// When each device was last sent a notice.
    type V = Map<Seq<char>, u64>;

    closed spec fn view(&self) -> Map<Seq<char>, u64> {
        self.last_sent@
    }
}

/// Whether a notice is due for a device: it was never sent one, or the interval has passed.
pub open spec fn resync_due(last_sent: Map<Seq<char>, u64>, device: Seq<char>, now: u64) -> bool {
    last_sent.contains_key(device) ==> now >= last_sent[device] + UNPAIRED_RESYNC_INTERVAL
}

/// The record after a notice was asked for at the given time.
pub open spec fn resync_record(
    last_sent: Map<Seq<char>, u64>,
    device: Seq<char>,
    now: u64,
) -> Map<Seq<char>, u64> {
    if resync_due(last_sent, device, now) {
        last_sent.insert(device, now)
    } else {
        last_sent
    }
}

impl UnpairedResyncLimiter {
    /// A limiter that has let nothing through yet.
    pub fn new() -> (limiter: UnpairedResyncLimiter)
        ensures
            limiter@ == Map::<Seq<char>, u64>::empty(),
    {
        UnpairedResyncLimiter { last_sent: DeviceMap::new() }
    }

    /// Whether a notice may go to the device now, in nanoseconds of a clock that does not run
    /// backwards. If so, it counts as sent.
    pub fn should_send_at(&mut self, device_id: &DeviceId, now: u64) -> (send: bool)
        ensures
            send == resync_due(old(self)@, device_id@, now),
            final(self)@ == resync_record(old(self)@, device_id@, now),
    {
        let recent = match self.last_sent.get(device_id) {
            Some(last_sent) => now.saturating_sub(*last_sent) < UNPAIRED_RESYNC_INTERVAL,
            None => false,
        };
        if recent {
            return false;
        }
        self.last_sent.insert(device_id.duplicate(), now);
        true
    }

    /// Forgets when the device was last sent a notice.
    pub fn clear(&mut self, device_id: &DeviceId)
        ensures
            final(self)@ == old(self)@.remove(device_id@),
    {
        self.last_sent.remove(device_id);
    }
}

} // verus!
