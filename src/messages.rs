//! Messages of the control protocol. Every variant carries a
//! [`MessageHeader`]; instants and durations are nanoseconds.
use vstd::prelude::*;
use crate::protocol::{ErrorCode, MessageHeader, NetworkQuality, NodeType};

verus! {

/// Clock synchronization request.
#[derive(Debug, Clone, Copy, PartialEq, Eq, Structural)]
pub struct ClockSyncMessage {
    pub header: MessageHeader,
    /// Client time when sending.
    pub t1: i64,
}

/// Clock synchronization reply.
#[derive(Debug, Clone, Copy, PartialEq, Eq, Structural)]
pub struct ClockSyncResponse {
    pub header: MessageHeader,
    /// The request's client send time, echoed.
    pub t1: i64,
    /// Server time when the request arrived.
    pub t2: i64,
    /// Server time when the reply left.
    pub t3: i64,
}

/// Initial handshake.
#[derive(Debug, Clone)]
pub struct HelloMessage {
    pub header: MessageHeader,
    pub protocol_version: String,
    pub capabilities: Vec<String>,
    pub node_type: NodeType,
    pub auth_token: Option<String>,
}

/// Playback command.
#[derive(Debug, Clone, Copy, PartialEq, Eq, Structural)]
pub enum MediaAction {
    Play,
    Pause,
    Stop,
    Seek,
    Load,
    Unload,
}

/// Optional parameters of a playback command.
#[derive(Debug, Clone, Copy, PartialEq, Eq, Structural)]
pub struct MediaParams {
    /// Volume in thousandths of full scale.
    pub volume: Option<u32>,
    pub loop_count: Option<u32>,
    pub fade_in_ms: Option<u32>,
    pub fade_out_ms: Option<u32>,
    /// Seek target, nanoseconds into the track.
    pub seek_position: Option<i64>,
}

/// Playback command for one track.
#[derive(Debug, Clone)]
pub struct MediaControlMessage {
    pub header: MessageHeader,
    pub action: MediaAction,
    pub track_id: String,
    /// Network-clock instant at which the command takes effect.
    pub start_at: i64,
    pub params: MediaParams,
}

/// A chunk of encoded media.
#[derive(Debug, Clone)]
pub struct MediaDataMessage {
    pub header: MessageHeader,
    pub track_id: String,
    pub chunk_index: u64,
    /// Presentation timestamp.
    pub timestamp: i64,
    /// Duration of the chunk.
    pub duration: i64,
    pub data: Vec<u8>,
    pub codec: String,
    pub is_keyframe: bool,
}

/// Announcement of a node for cluster discovery.
#[derive(Debug, Clone)]
pub struct NodeAnnounceMessage {
    pub header: MessageHeader,
    pub node_type: NodeType,
    pub capabilities: Vec<String>,
    /// Address as host and port, or a domain.
    pub endpoint: String,
    pub public_key: Option<Vec<u8>>,
}

/// Periodic status of a node.
#[derive(Debug, Clone, Copy, PartialEq, Eq, Structural)]
pub struct NodeStatusMessage {
    pub header: MessageHeader,
    pub node_type: NodeType,
    pub connected_clients: u32,
    /// CPU load in hundredths of a percent.
    pub cpu_usage: u32,
    /// Memory use in hundredths of a percent.
    pub memory_usage: u32,
    /// Battery charge in hundredths of a percent.
    pub battery_level: Option<u32>,
    pub network_quality: NetworkQuality,
    /// Mean round-trip time, microseconds.
    pub avg_rtt_us: i64,
    /// Packet loss, thousandths of a percent.
    pub packet_loss_millipercent: u64,
    pub uptime_seconds: u64,
}

/// Master election round.
#[derive(Debug, Clone, Copy, PartialEq, Eq, Structural)]
pub struct MasterElectionMessage {
    pub header: MessageHeader,
    pub election_id: u128,
    /// Candidate score in millionths.
    pub candidate_score: i64,
    pub current_master: Option<u128>,
}

/// Keep-alive, echoed by the server with its own time.
#[derive(Debug, Clone, Copy, PartialEq, Eq, Structural)]
pub struct HeartbeatMessage {
    pub header: MessageHeader,
    pub client_time: i64,
    pub server_time: Option<i64>,
}

/// Error report.
#[derive(Debug, Clone)]
pub struct ErrorMessage {
    pub header: MessageHeader,
    pub code: ErrorCode,
    pub message: String,
    /// Structured details as JSON text.
    pub details: Option<String>,
}

/// Every message of the protocol.
#[derive(Debug, Clone)]
pub enum Message {
    ClockSync(ClockSyncMessage),
    ClockSyncResponse(ClockSyncResponse),
    MediaControl(MediaControlMessage),
    MediaData(MediaDataMessage),
    NodeAnnounce(NodeAnnounceMessage),
    NodeStatus(NodeStatusMessage),
    MasterElection(MasterElectionMessage),
    Hello(HelloMessage),
    Heartbeat(HeartbeatMessage),
    Error(ErrorMessage),
}

/// Header of any message.
pub open spec fn header_of(m: Message) -> MessageHeader {
    match m {
        Message::ClockSync(x) => x.header,
        Message::ClockSyncResponse(x) => x.header,
        Message::MediaControl(x) => x.header,
        Message::MediaData(x) => x.header,
        Message::NodeAnnounce(x) => x.header,
        Message::NodeStatus(x) => x.header,
        Message::MasterElection(x) => x.header,
        Message::Hello(x) => x.header,
        Message::Heartbeat(x) => x.header,
        Message::Error(x) => x.header,
    }
}

impl Message {
    /// The header this message carries.
    pub fn header(&self) -> (r: MessageHeader)
        ensures
            r == header_of(*self),
    {
        match self {
            Message::ClockSync(x) => x.header,
            Message::ClockSyncResponse(x) => x.header,
            Message::MediaControl(x) => x.header,
            Message::MediaData(x) => x.header,
            Message::NodeAnnounce(x) => x.header,
            Message::NodeStatus(x) => x.header,
            Message::MasterElection(x) => x.header,
            Message::Hello(x) => x.header,
            Message::Heartbeat(x) => x.header,
            Message::Error(x) => x.header,
        }
    }
}

} // verus!
