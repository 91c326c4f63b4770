//! Server-side core of a synchronized multi-device playback fabric: clock
//! offset estimation, a per-peer clock registry, per-client future-buffer
//! control, stream fan-out scheduling and the control-message envelope.
//!
//! Instants, offsets and durations are integer counts of nanoseconds
//! unless a name or a doc comment gives another unit.
use vstd::prelude::*;

pub mod messages;
pub mod protocol;
pub mod sync;
pub mod buffer;
pub mod clock;
pub mod control;
pub mod handlers;
pub mod media;

pub use buffer::{BufferStats, DynamicFutureBuffer, FrameType, MediaFrame};
pub use clock::{ClockManager, PeerClock};
pub use control::{ControlAction, ControlServer};
pub use handlers::{play_start_at, sync_offset, ApiResponse};
pub use media::{MediaServer, PlaybackState};
pub use messages::{
    ClockSyncMessage, ClockSyncResponse, ErrorMessage, HeartbeatMessage, HelloMessage,
    MasterElectionMessage, MediaAction, MediaControlMessage, MediaDataMessage, MediaParams,
    Message, NodeAnnounceMessage, NodeStatusMessage,
};
pub use protocol::{get_current_time, ErrorCode, MessageHeader, NetworkQuality, NodeType};
pub use sync::{ClockSample, ClockSync};
