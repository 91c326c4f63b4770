//! Four-timestamp clock offset estimation.
use vstd::prelude::*;
use crate::clock::{network_time, ClockManager, ClockView};
use crate::protocol::{get_current_time, MessageHeader};
use crate::messages::{ClockSyncMessage, ClockSyncResponse};

verus! {

/// `x` clamped into the range of `i64`.
pub open spec fn saturate(x: int) -> i64 {
    if x < i64::MIN {
        i64::MIN
    } else if x > i64::MAX {
        i64::MAX
    } else {
        x as i64
    }
}

/// Clamps a wide value into the range of `i64`.
pub fn saturate_i128(x: i128) -> (r: i64)
    ensures
        r == saturate(x as int),
{
    if x < i64::MIN as i128 {
        i64::MIN
    } else if x > i64::MAX as i128 {
        i64::MAX
    } else {
        x as i64
    }
}

/// Offset of the server clock against the client clock, rounded down to a
/// whole nanosecond: `((t2 - t1) + (t3 - t4)) / 2`.
pub open spec fn offset_of(t1: int, t2: int, t3: int, t4: int) -> int {
    ((t2 - t1) + (t3 - t4)) / 2
}

/// Round-trip time without the server's processing: `(t4 - t1) - (t3 - t2)`.
pub open spec fn rtt_of(t1: int, t2: int, t3: int, t4: int) -> int {
    (t4 - t1) - (t3 - t2)
}

/// One clock synchronization sample, in nanoseconds.
#[derive(Debug, Clone, Copy, PartialEq, Eq, Structural)]
pub struct ClockSample {
    /// Estimated offset of the remote clock.
    pub offset: i64,
    /// Round-trip time; negative when the clocks are skewed.
    pub rtt: i64,
    /// Client receive time of the exchange.
    pub timestamp: i64,
}

/// The four-timestamp synchronization exchange.
pub struct ClockSync;

impl ClockSync {
    /// Computes offset and round-trip time from client send `t1`, server
    /// receive `t2`, server send `t3` and client receive `t4`. Total: a
    /// result beyond the range of `i64` is clamped to it.
    pub fn calculate_offset(t1: i64, t2: i64, t3: i64, t4: i64) -> (r: ClockSample)
        ensures
            r.offset == saturate(offset_of(t1 as int, t2 as int, t3 as int, t4 as int)),
            r.rtt == saturate(rtt_of(t1 as int, t2 as int, t3 as int, t4 as int)),
            r.timestamp == t4,
    {
        let a = t1 as i128;
        let b = t2 as i128;
        let c = t3 as i128;
        let d = t4 as i128;
        let rtt = (d - a) - (c - b);
        let sum = (b - a) + (c - d);
        let half: i128 = if sum >= 0 {
            sum / 2
        } else {
            -((1 - sum) / 2)
        };
        assert(half == offset_of(t1 as int, t2 as int, t3 as int, t4 as int));
        ClockSample { offset: saturate_i128(half), rtt: saturate_i128(rtt), timestamp: t4 }
    }

    /// The reply to a synchronization request received at `t2` and sent at
    /// `t3` (server clock).
    pub fn create_response_at(msg: &ClockSyncMessage, header: MessageHeader, t2: i64, t3: i64) -> (r: ClockSyncResponse)
        requires
            t2 <= t3,
        ensures
            r.header == header,
            r.t1 == msg.t1,
            r.t2 == t2,
            r.t3 == t3,
    {
        ClockSyncResponse { header, t1: msg.t1, t2, t3 }
    }

    /// The reply to a synchronization request, stamped with the network
    /// clock: once on receipt, and again as late as possible before the
    /// reply leaves.
    pub fn create_response(msg: &ClockSyncMessage, clock: &mut ClockManager) -> (r: ClockSyncResponse)
        ensures
            r.header.node_id == msg.header.node_id,
            r.header.sequence == 0,
            r.t1 == msg.t1,
            r.t2 <= r.t3,
            final(clock)@ == (ClockView { last_local: final(clock)@.last_local, ..old(clock)@ }),
            final(clock).wf() == old(clock).wf(),
            exists|received: int|
                old(clock)@.last_local <= received <= final(clock)@.last_local && r.t2 == network_time(
                    old(clock)@,
                    received,
                ),
            r.t3 == network_time(final(clock)@, final(clock)@.last_local as int),
    {
        let t2 = clock.now();
        let ghost mid = clock@;
        let header = MessageHeader::new(msg.header.node_id, 0);
        let t3 = clock.now();
        proof {
            lemma_network_time_monotone(mid, mid.last_local as int, clock@.last_local as int);
            assert(t2 == network_time(old(clock)@, mid.last_local as int));
        }
        Self::create_response_at(msg, header, t2, t3)
    }

    /// The sample of a completed exchange started at `original_t1`; the
    /// client receive time `t4` is read from the local clock.
    pub fn process_response(original_t1: i64, response: &ClockSyncResponse) -> (r: ClockSample)
        ensures
            r.timestamp >= 0,
            r.offset == saturate(offset_of(original_t1 as int, response.t2 as int, response.t3 as int, r.timestamp as int)),
            r.rtt == saturate(rtt_of(original_t1 as int, response.t2 as int, response.t3 as int, r.timestamp as int)),
    {
        let t4 = get_current_time();
        Self::calculate_offset(original_t1, response.t2, response.t3, t4)
    }
}

/// The network clock never runs backwards while the master offset stays.
pub proof fn lemma_network_time_monotone(v: ClockView, a: int, b: int)
    requires
        a <= b,
    ensures
        network_time(v, a) <= network_time(v, b),
{
}

/// With a symmetric one-way delay `d`, a true offset `theta` and a server
/// hold time `hold`, the estimate recovers the offset exactly and the
/// round-trip time is twice the delay.
pub proof fn lemma_symmetric_delay_exact(t1: int, d: int, theta: int, hold: int)
    requires
        d >= 0,
        hold >= 0,
    ensures
        ({
            let t2 = t1 + d + theta;
            let t3 = t2 + hold;
            let t4 = t3 + d - theta;
            &&& t2 - t1 >= theta
            &&& offset_of(t1, t2, t3, t4) == theta
            &&& rtt_of(t1, t2, t3, t4) == 2 * d
        }),
{
}

/// When every timestamp and the true offset lie strictly within a quarter of the
/// `i64` range, the computed sample is the exact estimate, not a clamped one.
pub proof fn lemma_estimate_in_range(t1: int, t2: int, t3: int, t4: int)
    requires
        -0x1fff_ffff_ffff_ffff <= t1 <= 0x1fff_ffff_ffff_ffff,
        -0x1fff_ffff_ffff_ffff <= t2 <= 0x1fff_ffff_ffff_ffff,
        -0x1fff_ffff_ffff_ffff <= t3 <= 0x1fff_ffff_ffff_ffff,
        -0x1fff_ffff_ffff_ffff <= t4 <= 0x1fff_ffff_ffff_ffff,
    ensures
        saturate(offset_of(t1, t2, t3, t4)) == offset_of(t1, t2, t3, t4),
        saturate(rtt_of(t1, t2, t3, t4)) == rtt_of(t1, t2, t3, t4),
{
}

} // verus!
