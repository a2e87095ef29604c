//! The packets that travel between devices.
use vstd::prelude::*;

verus! {

/// A JSON document, carried through without being looked into.
#[verifier::external_type_specification]
#[verifier::external_body]
pub struct ExJsonValue(serde_json::Value);

/// What a packet is about.
#[derive(Debug)]
pub enum PacketType {
    Battery,
    BatteryRequest,
    Clipboard,
    ClipboardConnect,
    ConnectivityReport,
    ConnectivityReportRequest,
    ContactsRequestAllUidsTimestamps,
    ContactsRequestVcardsByUid,
    ContactsResponseUidsTimestamps,
    ContactsResponseVcards,
    Digitizer,
    DigitizerSession,
    FindMyPhoneRequest,
    Identity,
    Lock,
    LockRequest,
    MousePadEcho,
    MousePadKeyboardState,
    MousePadRequest,
    Mpris,
    MprisRequest,
    Notification,
    NotificationAction,
    NotificationReply,
    NotificationRequest,
    Pair,
    Ping,
    Presenter,
    RunCommand,
    RunCommandRequest,
    Sftp,
    SftpRequest,
    ShareRequest,
    ShareRequestUpdate,
    SmsAttachmentFile,
    SmsMessages,
    SmsRequest,
    SmsRequestAttachment,
    SmsRequestConversation,
    SmsRequestConversations,
    SystemVolume,
    SystemVolumeRequest,
    Telephony,
    TelephonyRequestMute,
    /// A type this side does not know, with the name it came under.
    Unknown(String),
}

/// What tells packet types apart: the kind, and for unknown types the name.
pub enum PacketKey {
    Known(PacketType),
    Unknown(Seq<char>),
}

impl PacketType {
    pub open spec fn key(self) -> PacketKey {
        match self {
            PacketType::Unknown(name) => PacketKey::Unknown(name@),
            _ => PacketKey::Known(self),
        }
    }

    /// A number for each kind; all unknown types share one.
    pub closed spec fn code(self) -> int {
        match self {
            PacketType::Battery => 0,
            PacketType::BatteryRequest => 1,
            PacketType::Clipboard => 2,
            PacketType::ClipboardConnect => 3,
            PacketType::ConnectivityReport => 4,
            PacketType::ConnectivityReportRequest => 5,
            PacketType::ContactsRequestAllUidsTimestamps => 6,
            PacketType::ContactsRequestVcardsByUid => 7,
            PacketType::ContactsResponseUidsTimestamps => 8,
            PacketType::ContactsResponseVcards => 9,
            PacketType::Digitizer => 10,
            PacketType::DigitizerSession => 11,
            PacketType::FindMyPhoneRequest => 12,
            PacketType::Identity => 13,
            PacketType::Lock => 14,
            PacketType::LockRequest => 15,
            PacketType::MousePadEcho => 16,
            PacketType::MousePadKeyboardState => 17,
            PacketType::MousePadRequest => 18,
            PacketType::Mpris => 19,
            PacketType::MprisRequest => 20,
            PacketType::Notification => 21,
            PacketType::NotificationAction => 22,
            PacketType::NotificationReply => 23,
            PacketType::NotificationRequest => 24,
            PacketType::Pair => 25,
            PacketType::Ping => 26,
            PacketType::Presenter => 27,
            PacketType::RunCommand => 28,
            PacketType::RunCommandRequest => 29,
            PacketType::Sftp => 30,
            PacketType::SftpRequest => 31,
            PacketType::ShareRequest => 32,
            PacketType::ShareRequestUpdate => 33,
            PacketType::SmsAttachmentFile => 34,
            PacketType::SmsMessages => 35,
            PacketType::SmsRequest => 36,
            PacketType::SmsRequestAttachment => 37,
            PacketType::SmsRequestConversation => 38,
            PacketType::SmsRequestConversations => 39,
            PacketType::SystemVolume => 40,
            PacketType::SystemVolumeRequest => 41,
            PacketType::Telephony => 42,
            PacketType::TelephonyRequestMute => 43,
            PacketType::Unknown(_) => 44,
        }
    }

    fn number(&self) -> (number: u8)
        ensures
            number == self.code(),
    {
        match self {
            PacketType::Battery => 0,
            PacketType::BatteryRequest => 1,
            PacketType::Clipboard => 2,
            PacketType::ClipboardConnect => 3,
            PacketType::ConnectivityReport => 4,
            PacketType::ConnectivityReportRequest => 5,
            PacketType::ContactsRequestAllUidsTimestamps => 6,
            PacketType::ContactsRequestVcardsByUid => 7,
            PacketType::ContactsResponseUidsTimestamps => 8,
            PacketType::ContactsResponseVcards => 9,
            PacketType::Digitizer => 10,
            PacketType::DigitizerSession => 11,
            PacketType::FindMyPhoneRequest => 12,
            PacketType::Identity => 13,
            PacketType::Lock => 14,
            PacketType::LockRequest => 15,
            PacketType::MousePadEcho => 16,
            PacketType::MousePadKeyboardState => 17,
            PacketType::MousePadRequest => 18,
            PacketType::Mpris => 19,
            PacketType::MprisRequest => 20,
            PacketType::Notification => 21,
            PacketType::NotificationAction => 22,
            PacketType::NotificationReply => 23,
            PacketType::NotificationRequest => 24,
            PacketType::Pair => 25,
            PacketType::Ping => 26,
            PacketType::Presenter => 27,
            PacketType::RunCommand => 28,
            PacketType::RunCommandRequest => 29,
            PacketType::Sftp => 30,
            PacketType::SftpRequest => 31,
            PacketType::ShareRequest => 32,
            PacketType::ShareRequestUpdate => 33,
            PacketType::SmsAttachmentFile => 34,
            PacketType::SmsMessages => 35,
            PacketType::SmsRequest => 36,
            PacketType::SmsRequestAttachment => 37,
            PacketType::SmsRequestConversation => 38,
            PacketType::SmsRequestConversations => 39,
            PacketType::SystemVolume => 40,
            PacketType::SystemVolumeRequest => 41,
            PacketType::Telephony => 42,
            PacketType::TelephonyRequestMute => 43,
            PacketType::Unknown(_) => 44,
        }
    }

    /// Whether two packets are of the same type; unknown types are compared by name.
    pub fn same_type(&self, other: &PacketType) -> (same: bool)
        ensures
            same == (self.key() == other.key()),
    {
        if self.number() != other.number() {
            return false;
        }
        match (self, other) {
            (PacketType::Unknown(a), PacketType::Unknown(b)) => *a == *b,
            _ => true,
        }
    }
}

/// The body of a pair packet: a request or an acceptance where `pair` holds, a refusal otherwise.
#[derive(Clone, Copy, Debug)]
pub struct Pair {
    pub pair: bool,
    /// When the request was made, in seconds since the Unix epoch. Only requests carry it.
    pub timestamp: Option<u64>,
}

impl Pair {
    /// A request made at the given time.
    pub fn request(now: u64) -> (pair: Pair)
        ensures
            pair == (Pair { pair: true, timestamp: Some(now) }),
    {
        Pair { pair: true, timestamp: Some(now) }
    }

    /// The answer that accepts a request.
    pub fn accept() -> (pair: Pair)
        ensures
            pair == (Pair { pair: true, timestamp: None }),
    {
        Pair { pair: true, timestamp: None }
    }

    /// The answer that refuses a request, and the notice that ends a pairing.
    pub fn reject() -> (pair: Pair)
        ensures
            pair == (Pair { pair: false, timestamp: None }),
    {
        Pair { pair: false, timestamp: None }
    }
}

/// The body of a ping packet.
#[derive(Debug)]
pub struct Ping {
    pub message: Option<String>,
}

/// The body of a packet that asks a peer's media player for something.
#[derive(Debug)]
pub struct MprisRequest {
    pub player: Option<String>,
    pub request_now_playing: Option<bool>,
    pub request_player_list: Option<bool>,
    pub request_volume: Option<bool>,
    pub seek: Option<i64>,
    pub set_loop_status: Option<String>,
    pub set_position: Option<i64>,
    pub set_shuffle: Option<bool>,
    pub set_volume: Option<i64>,
    pub action: Option<String>,
    pub album_art_url: Option<String>,
}

impl MprisRequest {
    /// A request for nothing.
    pub open spec fn nothing() -> MprisRequest {
        MprisRequest {
            player: None,
            request_now_playing: None,
            request_player_list: None,
            request_volume: None,
            seek: None,
            set_loop_status: None,
            set_position: None,
            set_shuffle: None,
            set_volume: None,
            action: None,
            album_art_url: None,
        }
    }

    /// A request for the list of players.
    pub fn player_list() -> (request: MprisRequest)
        ensures
            request == (MprisRequest { request_player_list: Some(true), ..MprisRequest::nothing() }),
    {
        MprisRequest {
            player: None,
            request_now_playing: None,
            request_player_list: Some(true),
            request_volume: None,
            seek: None,
            set_loop_status: None,
            set_position: None,
            set_shuffle: None,
            set_volume: None,
            action: None,
            album_art_url: None,
        }
    }

    /// A request that a player take an action.
    pub fn player_action(player: String, action: String) -> (request: MprisRequest)
        ensures
            request == (MprisRequest {
                player: Some(player),
                action: Some(action),
                ..MprisRequest::nothing()
            }),
    {
        MprisRequest {
            player: Some(player),
            request_now_playing: None,
            request_player_list: None,
            request_volume: None,
            seek: None,
            set_loop_status: None,
            set_position: None,
            set_shuffle: None,
            set_volume: None,
            action: Some(action),
            album_art_url: None,
        }
    }
}

/// The body of a packet.
#[derive(Debug)]
pub enum PacketBody {
    /// `{}`
    Empty,
    /// `{ "request": true }`
    Request,
    /// `{ "state": true }`
    KeyboardState,
    Pair(Pair),
    Ping(Ping),
    MprisRequest(MprisRequest),
    /// A body that only the plugins understand.
    Json(serde_json::Value),
}

/// Where the payload that goes with a packet can be fetched.
#[derive(Clone, Copy, Debug)]
pub struct PacketPayloadTransferInfo {
    pub port: u16,
}

/// One packet.
#[derive(Debug)]
pub struct ProtocolPacket {
    pub packet_type: PacketType,
    pub body: PacketBody,
    pub payload_transfer_info: Option<PacketPayloadTransferInfo>,
}

/// A packet without payload.
pub open spec fn packet(packet_type: PacketType, body: PacketBody) -> ProtocolPacket {
    ProtocolPacket { packet_type, body, payload_transfer_info: None }
}

/// The packet that carries a pair body.
pub open spec fn pair_packet_of(pair: Pair) -> ProtocolPacket {
    packet(PacketType::Pair, PacketBody::Pair(pair))
}

impl ProtocolPacket {
    /// A packet without payload.
    pub fn new(packet_type: PacketType, body: PacketBody) -> (new: ProtocolPacket)
        ensures
            new == packet(packet_type, body),
    {
        ProtocolPacket { packet_type, body, payload_transfer_info: None }
    }
}

/// The packet that carries a pair body.
pub fn pair_packet(pair: Pair) -> (new: ProtocolPacket)
    ensures
        new == pair_packet_of(pair),
{
    ProtocolPacket::new(PacketType::Pair, PacketBody::Pair(pair))
}

} // verus!
