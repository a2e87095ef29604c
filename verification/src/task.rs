//! The work that events give rise to, cut into operations.
//!
//! Between two operations anything may happen elsewhere in the program: another device may
//! connect, the user may act, a timer may run out. So an operation never relies on what was true
//! when the work began, and whatever it needs to know it finds out when its turn comes.
use std::sync::Arc;
use tokio::sync::mpsc::UnboundedSender;
use vstd::prelude::*;

use crate::connection::ConnectionHandle;
use crate::device::{Certificate, Device, DeviceId, PairState};
use crate::event::{ConnectionEvent, CoreEvent, Payload};
use crate::plugin_set::PluginSet;
use crate::protocol::{PacketBody, Pair, ProtocolPacket};

verus! {

/// What a peer that has just connected is to be looked up by.
#[derive(Debug)]
pub struct Discovery {
    pub id: DeviceId,
    pub name: String,
    pub device_type: String,
    pub incoming_capabilities: Arc<Vec<String>>,
    pub outgoing_capabilities: Arc<Vec<String>>,
    pub addr: String,
}

/// Work that runs beside the rest.
#[derive(Debug)]
pub enum Job {
    /// Refuse a peer's pairing request that the user leaves unanswered.
    IncomingPairTimeout(DeviceId),
    /// End a connection once the notice sent over it has had time to leave.
    DropLater(DeviceId),
    /// Clean up after a device that was unpaired, giving the notice, if it was sent, time to
    /// leave.
    UnpairCleanup { device: DeviceId, queued: bool },
    /// Watch over a pairing request made from this side: send it later if it could not be sent at
    /// once, and give up if it goes unanswered.
    PairWatch { device: DeviceId, attempt: u64, queued: bool, pair: Pair },
}

/// What the program around the core is to do.
pub enum Action {
    /// Look a device up; answered by `Reply::Device`.
    Lookup(DeviceId),
    UpdatePairState(DeviceId, PairState),
    SetPaired(DeviceId),
    AddOrUpdateDevice(DeviceId, Device),
    SetProtocolVersion(DeviceId, u32),
    SetPairingTimestamp(DeviceId, u64),
    /// Make the record of a connected peer; answered by `Reply::Discovered`.
    Discover(Discovery),
    /// Set the pair state in a record and save it; answered by `Reply::Saved`.
    SavePairState(Device, PairState),
    /// Announce this side on the network.
    SendIdentity,
    /// Remove what is stored about a device.
    CleanUp(DeviceId),
    StopSystemVolume(DeviceId),
    StartSystemVolume(DeviceId),
    SendBatteryState(DeviceId),
    SendCommandList(DeviceId),
    /// Take up a peer's pairing request; answered by `Reply::NewRequest`.
    HandlePairRequest { device_id: DeviceId, name: String, address: String, packet: ProtocolPacket },
    /// Hand a packet to its plugin.
    Dispatch(Device, ProtocolPacket),
    /// Have a plugin send a packet.
    PluginSend(Device, ProtocolPacket),
    /// Make ready to share files; answered by `Reply::Shares`.
    PrepareShare(Vec<String>),
    /// Open a file to be shared; answered by `Reply::Opened`.
    OpenFile(String),
    /// Send a packet and its payload.
    SendPayload {
        sender: Arc<UnboundedSender<ProtocolPacket>>,
        packet: ProtocolPacket,
        payload: Payload,
    },
    /// Let go of a payload whose packet is not sent.
    DiscardPayload(Payload),
    /// Read which plugins are stored as switched off; answered by `Reply::Disabled`.
    LoadDisabled(DeviceId),
    SaveDisabled(DeviceId, Arc<PluginSet>),
    /// Read a clock that does not run backwards, in nanoseconds; answered by `Reply::Time`.
    ReadMonotonicClock,
    /// Read the seconds since the Unix epoch; answered by `Reply::Time`.
    ReadUnixClock,
    /// Wait, in milliseconds.
    Sleep(u64),
    /// Start a job beside the current work.
    Spawn(Job),
}

/// A file to be shared: the body of the packet that announces it, and where it lies.
#[derive(Debug)]
pub struct SharedFile {
    pub body: PacketBody,
    pub path: String,
}

/// What came of an action.
#[derive(Debug)]
pub enum Reply {
    /// The action has no answer, or there was none.
    Done,
    Device(Option<Device>),
    /// Nothing where no record could be made.
    Discovered(Option<Device>),
    Saved(Device),
    /// Whether the request is a new one that the user has to answer.
    NewRequest(bool),
    /// Nothing where the files could not be prepared.
    Shares(Option<Vec<SharedFile>>),
    /// Nothing where the file could not be opened.
    Opened(Option<Payload>),
    Disabled(PluginSet),
    Time(u64),
}

/// What depends on whether a packet could be queued.
#[derive(Debug)]
pub enum Then {
    Nothing,
    /// The packet accepted a pairing request.
    Accepted(DeviceId),
    /// The packet asked to pair.
    Requested(DeviceId, Pair),
    /// The packet ended a pairing.
    Unpaired(DeviceId),
    /// The packet told a stranger that it is not paired.
    Resync(DeviceId),
}

/// What is due once a connection was dropped.
#[derive(Clone, Copy, Debug)]
pub enum AfterDrop {
    Nothing,
    StopVolume,
    /// Stop the volume control and tell the user.
    Tell,
    /// As `Tell`, and call out for the device if it is paired.
    Broadcast,
}

/// What a device is asked for, or sent, when it becomes available. Each belongs to a plugin.
#[derive(Clone, Copy, Debug)]
pub enum Greeting {
    Contacts,
    Notification,
    Sms,
    Battery,
    Connectivity,
    Mousepad,
    RunCommand,
    SystemVolume,
    MprisPlayers,
}

/// A connection that is not installed yet.
pub struct Arrival {
    pub id: DeviceId,
    pub conn_id: u64,
    pub handle: ConnectionHandle,
    pub protocol_version: u32,
    pub pairing_timestamp: u64,
    pub peer_certificate: Option<Certificate>,
}

/// One operation. Those that take the answer to the action before them say so.
pub enum Op {
    /// Have the program do something.
    Do(Action),
    ForgetAttempt(DeviceId),
    ClearResync(DeviceId),
    /// Tell the user and the media player bridge.
    Publish(ConnectionEvent),
    /// Ask something of the core itself, later.
    Post(CoreEvent),
    Install(DeviceId, u64, ConnectionHandle),
    /// Greet a device if the plugin is switched on for it.
    Greet(DeviceId, Greeting),
    /// Send a packet if that is allowed and the device is connected.
    Queue(DeviceId, ProtocolPacket, Then),
    /// The second half of `Queue`. Takes a device.
    Offer(DeviceId, ProtocolPacket, Then),
    /// Call out for a device that is gone if it is paired. Takes a device.
    BroadcastIfPaired(DeviceId),
    /// Drop the connection of a device.
    Drop(DeviceId, AfterDrop),
    /// Drop a connection unless it was replaced already.
    DropIfCurrent(DeviceId, u64, AfterDrop),
    /// Hand a packet to its plugin if the device is known. Takes a device.
    DispatchTo(ProtocolPacket),
    /// Send a packet and payload if that is allowed and the device connected; otherwise let go of
    /// the payload. Takes a device.
    PayloadGate(DeviceId, ProtocolPacket, Payload),
    /// Share files if that is allowed and the device connected. Takes a device.
    ShareGate(DeviceId, Vec<String>),
    /// Share the files that were prepared. Takes shares.
    Share(Arc<UnboundedSender<ProtocolPacket>>),
    /// Send the file that was opened. Takes a payload.
    ShareFile(Arc<UnboundedSender<ProtocolPacket>>, PacketBody),
    /// Have a plugin send a packet if the device is known. Takes a device.
    PluginSendTo(ProtocolPacket),
    /// Settle whether a connection is let in. Takes a discovered device.
    Admit(Arrival),
    /// Install the connection of a device that was just saved. Takes a saved device.
    Settle(Arrival),
    /// React to a pair packet. Takes a device.
    PairReceived(DeviceId, Pair, ProtocolPacket),
    /// Let the user know of a pairing request. Takes whether it is new.
    PairAsked(DeviceId, String),
    /// React to any other packet. Takes a device.
    PacketReceived(DeviceId, ProtocolPacket),
    /// Mark a stranger as not paired. Takes a device.
    Disown(DeviceId),
    /// Tell a stranger that it is not paired, unless it was just told. Takes a time.
    Resync(DeviceId),
    /// End a pairing that is under way. Takes a device.
    FailPairing(DeviceId),
    /// Forget the certificate of a device. Takes a device.
    Distrust(DeviceId),
    /// Pair because the user wants to. Takes a device.
    PairWanted(DeviceId),
    /// Ask a device to pair. Takes a time.
    AskToPair(DeviceId),
    /// Count a pairing request and watch over it.
    BeginAttempt(DeviceId, Pair, bool),
    /// Accept a pairing request. Takes a device.
    Accept(DeviceId),
    /// Accept a pairing request made at the given time if the clocks agree. Takes a time.
    AcceptInTime(DeviceId, u64),
    /// Refuse a pairing request. Takes a device.
    Refuse(DeviceId),
    /// Switch a plugin on or off. Takes a set of plugins.
    Toggle(DeviceId, String, bool),
    SetDisabled(DeviceId, Arc<PluginSet>),
    /// Put in force which plugins are stored as switched off. Takes a set of plugins.
    RestoreDisabled(DeviceId),
    /// Give up on a peer's unanswered request. Takes a device.
    IncomingTimeout(DeviceId),
    /// Stop here unless the attempt is still the latest.
    CheckAttempt(DeviceId, u64),
    /// Repeat a pairing request if the device is connected by now; otherwise try again later, up
    /// to the given number of times.
    Poll(DeviceId, Pair, u32),
    /// Give up on a request that is still unanswered. One that was sent at once and answered
    /// meanwhile is done with. Takes a device.
    FinalTimeout(DeviceId, bool),
}

/// What kind of answer an operation takes.
#[derive(Clone, Copy, Debug, PartialEq, Eq, Structural)]
pub enum Takes {
    Anything,
    Device,
    Discovered,
    Saved,
    NewRequest,
    Shares,
    Opened,
    Disabled,
    Time,
}

impl Op {
    /// What kind of answer the operation takes.
    pub open spec fn wants(self) -> Takes {
        match self {
            Op::Offer(..)
            | Op::BroadcastIfPaired(..)
            | Op::DispatchTo(..)
            | Op::PayloadGate(..)
            | Op::ShareGate(..)
            | Op::PluginSendTo(..)
            | Op::PairReceived(..)
            | Op::PacketReceived(..)
            | Op::Disown(..)
            | Op::FailPairing(..)
            | Op::Distrust(..)
            | Op::PairWanted(..)
            | Op::Accept(..)
            | Op::Refuse(..)
            | Op::IncomingTimeout(..)
            | Op::FinalTimeout(..) => Takes::Device,
            Op::Admit(..) => Takes::Discovered,
            Op::Settle(..) => Takes::Saved,
            Op::PairAsked(..) => Takes::NewRequest,
            Op::Share(..) => Takes::Shares,
            Op::ShareFile(..) => Takes::Opened,
            Op::Toggle(..) | Op::RestoreDisabled(..) => Takes::Disabled,
            Op::Resync(..) | Op::AskToPair(..) | Op::AcceptInTime(..) => Takes::Time,
            _ => Takes::Anything,
        }
    }

    /// What kind of answer the operation takes.
    pub fn takes(&self) -> (takes: Takes)
        ensures
            takes == self.wants(),
    {
        match self {
            Op::Offer(..)
            | Op::BroadcastIfPaired(..)
            | Op::DispatchTo(..)
            | Op::PayloadGate(..)
            | Op::ShareGate(..)
            | Op::PluginSendTo(..)
            | Op::PairReceived(..)
            | Op::PacketReceived(..)
            | Op::Disown(..)
            | Op::FailPairing(..)
            | Op::Distrust(..)
            | Op::PairWanted(..)
            | Op::Accept(..)
            | Op::Refuse(..)
            | Op::IncomingTimeout(..)
            | Op::FinalTimeout(..) => Takes::Device,
            Op::Admit(..) => Takes::Discovered,
            Op::Settle(..) => Takes::Saved,
            Op::PairAsked(..) => Takes::NewRequest,
            Op::Share(..) => Takes::Shares,
            Op::ShareFile(..) => Takes::Opened,
            Op::Toggle(..) | Op::RestoreDisabled(..) => Takes::Disabled,
            Op::Resync(..) | Op::AskToPair(..) | Op::AcceptInTime(..) => Takes::Time,
            _ => Takes::Anything,
        }
    }
}

/// Whether an answer is of the kind that an operation takes.
pub open spec fn fits(takes: Takes, reply: Reply) -> bool {
    match takes {
        Takes::Anything => true,
        Takes::Device => reply is Device,
        Takes::Discovered => reply is Discovered,
        Takes::Saved => reply is Saved,
        Takes::NewRequest => reply is NewRequest,
        Takes::Shares => reply is Shares,
        Takes::Opened => reply is Opened,
        Takes::Disabled => reply is Disabled,
        Takes::Time => reply is Time,
    }
}

/// Whether an answer is of the kind that an operation takes.
pub fn is_fitting(takes: Takes, reply: &Reply) -> (fitting: bool)
    ensures
        fitting == fits(takes, *reply),
{
    match takes {
        Takes::Anything => true,
        Takes::Device => matches!(reply, Reply::Device(..)),
        Takes::Discovered => matches!(reply, Reply::Discovered(..)),
        Takes::Saved => matches!(reply, Reply::Saved(..)),
        Takes::NewRequest => matches!(reply, Reply::NewRequest(..)),
        Takes::Shares => matches!(reply, Reply::Shares(..)),
        Takes::Opened => matches!(reply, Reply::Opened(..)),
        Takes::Disabled => matches!(reply, Reply::Disabled(..)),
        Takes::Time => matches!(reply, Reply::Time(..)),
    }
}

/// Work under way: the operations still to come, in order.
pub struct Task {
    ops: Vec<Op>,
}

impl View for Task {
    type V = Seq<Op>;

    closed spec fn view(&self) -> Seq<Op> {
        self.ops@
    }
}

impl Task {
    /// A task that consists of these operations.
    pub(crate) fn new(ops: Vec<Op>) -> (task: Task)
        ensures
            task@ == ops@,
    {
        Task { ops }
    }

    /// What kind of answer the next operation takes; nothing where no operation is left.
    pub fn takes(&self) -> (takes: Option<Takes>)
        ensures
            takes == (if self@.len() == 0 { None } else { Some(self@[0].wants()) }),
    {
        if self.ops.len() == 0 {
            None
        } else {
            Some(self.ops[0].takes())
        }
    }

    /// Takes the next operation off.
    pub(crate) fn next(&mut self) -> (op: Op)
        requires
            old(self)@.len() > 0,
        ensures
            op == old(self)@[0],
            final(self)@ == old(self)@.drop_first(),
    {
        let op = self.ops.remove(0);
        assert(self.ops@ =~= old(self)@.drop_first());
        op
    }

    /// Puts operations before those still to come.
    pub(crate) fn put_first(&mut self, ops: Vec<Op>)
        ensures
            final(self)@ == ops@ + old(self)@,
    {
        let mut all = ops;
        all.append(&mut self.ops);
        self.ops = all;
    }

    /// Drops the operations still to come.
    pub(crate) fn stop(&mut self)
        ensures
            final(self)@ == Seq::<Op>::empty(),
    {
        self.ops = Vec::new();
    }
}

/// What one step of a task came to.
pub enum Step {
    /// Nothing left the core.
    Idle,
    /// The program is to do this, and pass the answer to the next step.
    Act(Action),
    /// A packet was written to the connection of a device; what the connection answered, that is
    /// whether it took the packet.
    Offered(bool),
    /// An event was sent to the user and to the media player bridge.
    Published,
    /// A request was sent to the core itself.
    Posted,
    /// This connection was told to shut down.
    Closed(ConnectionHandle),
    /// The answer was not of the kind that the next operation takes; nothing was done.
    WrongReply(Reply),
    /// No operation was left.
    Finished,
}

} // verus!
