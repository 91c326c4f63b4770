//! Shared protocol vocabulary: node roles, network quality levels, error
//! codes, the time source and the common message header.
use vstd::prelude::*;

verus! {

/// One millisecond in nanoseconds.
pub const NANOS_PER_MILLI: u64 = 1_000_000;

/// Role of a node in the cluster.
#[derive(Debug, Clone, Copy, PartialEq, Eq, Structural)]
pub enum NodeType {
    Master,
    Replica,
    Client,
}

/// Network quality, from best (`Excellent`) to worst (`Critical`).
#[derive(Debug, Clone, Copy, PartialEq, Eq, Structural)]
pub enum NetworkQuality {
    Excellent,
    Good,
    Fair,
    Poor,
    Critical,
}

/// Position of a quality level in the order `Excellent < Good < Fair < Poor < Critical`.
pub open spec fn quality_rank(q: NetworkQuality) -> nat {
    match q {
        NetworkQuality::Excellent => 0,
        NetworkQuality::Good => 1,
        NetworkQuality::Fair => 2,
        NetworkQuality::Poor => 3,
        NetworkQuality::Critical => 4,
    }
}

/// The quality table: round-trip time in microseconds and packet loss in
/// thousandths of a percent, each row taken when both thresholds are met.
pub open spec fn quality_of_metrics(rtt_us: int, loss_millipercent: int) -> NetworkQuality {
    if rtt_us < 10_000 && loss_millipercent == 0 {
        NetworkQuality::Excellent
    } else if rtt_us < 50_000 && loss_millipercent < 100 {
        NetworkQuality::Good
    } else if rtt_us < 100_000 && loss_millipercent < 1_000 {
        NetworkQuality::Fair
    } else if rtt_us < 200_000 && loss_millipercent < 5_000 {
        NetworkQuality::Poor
    } else {
        NetworkQuality::Critical
    }
}

/// Recommended future-buffer latency of a quality level, in milliseconds.
pub open spec fn recommended_ms(q: NetworkQuality) -> u64 {
    match q {
        NetworkQuality::Excellent => 30,
        NetworkQuality::Good => 80,
        NetworkQuality::Fair => 120,
        NetworkQuality::Poor => 180,
        NetworkQuality::Critical => 250,
    }
}

/// Jitter-buffer depth of a quality level, in milliseconds.
pub open spec fn jitter_ms(q: NetworkQuality) -> u64 {
    match q {
        NetworkQuality::Excellent => 5,
        NetworkQuality::Good => 10,
        NetworkQuality::Fair => 20,
        NetworkQuality::Poor => 40,
        NetworkQuality::Critical => 80,
    }
}

impl NetworkQuality {
    /// Classifies a link from its round-trip time (microseconds) and its
    /// packet loss (thousandths of a percent).
    pub fn from_metrics(rtt_us: i64, loss_millipercent: u64) -> (r: Self)
        ensures
            r == quality_of_metrics(rtt_us as int, loss_millipercent as int),
    {
        if rtt_us < 10_000 && loss_millipercent == 0 {
            NetworkQuality::Excellent
        } else if rtt_us < 50_000 && loss_millipercent < 100 {
            NetworkQuality::Good
        } else if rtt_us < 100_000 && loss_millipercent < 1_000 {
            NetworkQuality::Fair
        } else if rtt_us < 200_000 && loss_millipercent < 5_000 {
            NetworkQuality::Poor
        } else {
            NetworkQuality::Critical
        }
    }

    /// Recommended future-buffer latency for this quality, in milliseconds.
    pub fn recommended_buffer_ms(&self) -> (r: u64)
        ensures
            r == recommended_ms(*self),
    {
        match self {
            NetworkQuality::Excellent => 30,
            NetworkQuality::Good => 80,
            NetworkQuality::Fair => 120,
            NetworkQuality::Poor => 180,
            NetworkQuality::Critical => 250,
        }
    }

    /// Jitter-buffer depth for this quality, in milliseconds.
    pub fn jitter_buffer_ms(&self) -> (r: u64)
        ensures
            r == jitter_ms(*self),
    {
        match self {
            NetworkQuality::Excellent => 5,
            NetworkQuality::Good => 10,
            NetworkQuality::Fair => 20,
            NetworkQuality::Poor => 40,
            NetworkQuality::Critical => 80,
        }
    }
}

/// Worse quality never recommends a smaller buffer.
pub proof fn lemma_recommended_monotone(a: NetworkQuality, b: NetworkQuality)
    requires
        quality_rank(a) <= quality_rank(b),
    ensures
        recommended_ms(a) <= recommended_ms(b),
        jitter_ms(a) <= jitter_ms(b),
{
}

/// Error codes carried by error messages.
#[derive(Debug, Clone, Copy, PartialEq, Eq, Structural)]
pub enum ErrorCode {
    AuthenticationFailed,
    Unauthorized,
    NotFound,
    RateLimited,
    InternalError,
    ProtocolError,
    NetworkError,
    ClockSyncFailed,
    MediaError,
    ClusterError,
}

/// Numeric value of each error code on the wire.
pub open spec fn error_code_value(c: ErrorCode) -> u16 {
    match c {
        ErrorCode::AuthenticationFailed => 401,
        ErrorCode::Unauthorized => 403,
        ErrorCode::NotFound => 404,
        ErrorCode::RateLimited => 429,
        ErrorCode::InternalError => 500,
        ErrorCode::ProtocolError => 501,
        ErrorCode::NetworkError => 502,
        ErrorCode::ClockSyncFailed => 510,
        ErrorCode::MediaError => 520,
        ErrorCode::ClusterError => 530,
    }
}

impl ErrorCode {
    /// The numeric code of this error.
    pub fn code(&self) -> (r: u16)
        ensures
            r == error_code_value(*self),
    {
        match self {
            ErrorCode::AuthenticationFailed => 401,
            ErrorCode::Unauthorized => 403,
            ErrorCode::NotFound => 404,
            ErrorCode::RateLimited => 429,
            ErrorCode::InternalError => 500,
            ErrorCode::ProtocolError => 501,
            ErrorCode::NetworkError => 502,
            ErrorCode::ClockSyncFailed => 510,
            ErrorCode::MediaError => 520,
            ErrorCode::ClusterError => 530,
        }
    }

    /// The error code with the given numeric value, if there is one.
    pub fn from_code(code: u16) -> (r: Option<ErrorCode>)
        ensures
            match r {
                Some(c) => error_code_value(c) == code,
                None => forall|c: ErrorCode| error_code_value(c) != code,
            },
    {
        match code {
            401 => Some(ErrorCode::AuthenticationFailed),
            403 => Some(ErrorCode::Unauthorized),
            404 => Some(ErrorCode::NotFound),
            429 => Some(ErrorCode::RateLimited),
            500 => Some(ErrorCode::InternalError),
            501 => Some(ErrorCode::ProtocolError),
            502 => Some(ErrorCode::NetworkError),
            510 => Some(ErrorCode::ClockSyncFailed),
            520 => Some(ErrorCode::MediaError),
            530 => Some(ErrorCode::ClusterError),
            _ => None,
        }
    }
}

/// Version nibble and variant bits of a random (version 4, RFC 4122) UUID.
pub open spec fn is_v4_uuid(id: u128) -> bool {
    &&& (id >> 76u128) & 0xfu128 == 4
    &&& (id >> 62u128) & 0x3u128 == 2
}

/// Relies on uuid::Uuid::new_v4: a random identifier whose version nibble
/// is 4 and whose variant bits are `10`.
#[verifier::external_body]
pub(crate) fn new_uuid() -> (r: u128)
    ensures
        is_v4_uuid(r),
{
    uuid::Uuid::new_v4().as_u128()
}

/// Current wall-clock time in nanoseconds since the Unix epoch; zero when
/// the clock reads before the epoch.
///
/// Relies on std::time::SystemTime::elapsed, measured from the Unix epoch.
#[verifier::external_body]
pub fn get_current_time() -> (r: i64)
    ensures
        r >= 0,
{
    std::time::UNIX_EPOCH.elapsed().map_or(0, |d| i64::try_from(d.as_nanos()).unwrap_or(i64::MAX))
}

/// Common header of every message.
#[derive(Debug, Clone, Copy, PartialEq, Eq, Structural)]
pub struct MessageHeader {
    /// Identifier of this message.
    pub id: u128,
    /// Creation time, nanoseconds since the Unix epoch.
    pub timestamp: i64,
    /// Identifier of the sending node.
    pub node_id: u128,
    /// Sender-side sequence number.
    pub sequence: u64,
}

impl MessageHeader {
    /// A header stamped now, to the whole microsecond, with a fresh random
    /// identifier.
    pub fn new(node_id: u128, sequence: u64) -> (r: Self)
        ensures
            r.node_id == node_id,
            r.sequence == sequence,
            is_v4_uuid(r.id),
            r.timestamp >= 0,
            r.timestamp % 1000 == 0,
    {
        let now = get_current_time();
        MessageHeader { id: new_uuid(), timestamp: now - now % 1000, node_id, sequence }
    }
}

} // verus!
