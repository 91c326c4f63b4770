//! Per-client future-buffer latency controller, and media frames.
use vstd::prelude::*;
use crate::protocol::{jitter_ms, recommended_ms, NetworkQuality, NANOS_PER_MILLI};

verus! {

/// Smallest target latency, in nanoseconds (30 ms).
pub const MIN_LATENCY: u64 = 30_000_000;

/// Largest target latency, in nanoseconds (500 ms).
pub const MAX_LATENCY: u64 = 500_000_000;

/// Shortest time between two quality-driven adjustments, in nanoseconds (500 ms).
pub const ADJUSTMENT_INTERVAL: i64 = 500_000_000;

/// Adjustment rate, in percent (0.1).
pub const ADJUSTMENT_RATE_PERCENT: u64 = 10;

/// Kind of a media frame.
#[derive(Debug, Clone, Copy, PartialEq, Eq, Structural)]
pub enum FrameType {
    Audio,
    Video,
    VideoKeyframe,
}

/// A media frame on its way from a source to the subscribers.
#[derive(Debug, Clone)]
pub struct MediaFrame {
    /// Encoded payload.
    pub data: Vec<u8>,
    /// Source presentation timestamp, nanoseconds.
    pub timestamp: i64,
    /// Duration of the frame, nanoseconds.
    pub duration: u64,
    pub frame_type: FrameType,
    /// Sequence number within the stream.
    pub sequence: u64,
}

/// Snapshot of a buffer's counters and settings.
#[derive(Debug, Clone, Copy, PartialEq, Eq, Structural)]
pub struct BufferStats {
    /// Target latency in whole milliseconds.
    pub target_latency_ms: u32,
    pub underrun_count: u64,
    pub overrun_count: u64,
    pub network_quality: NetworkQuality,
}

/// Mathematical state of a [`DynamicFutureBuffer`]; latencies in nanoseconds.
pub ghost struct BufferView {
    pub target_latency: int,
    pub min_latency: int,
    pub max_latency: int,
    pub network_quality: NetworkQuality,
    pub last_adjustment: int,
    pub underrun_count: int,
    pub overrun_count: int,
}

/// `x` held within `[MIN_LATENCY, MAX_LATENCY]`.
pub open spec fn clamp_latency(x: int) -> int {
    if x < MIN_LATENCY {
        MIN_LATENCY as int
    } else if x > MAX_LATENCY {
        MAX_LATENCY as int
    } else {
        x
    }
}

/// Target after an underrun: grown by the adjustment rate, capped at the maximum.
pub open spec fn grown(t: int) -> int {
    let g = t * (100 + ADJUSTMENT_RATE_PERCENT) / 100;
    if g > MAX_LATENCY {
        MAX_LATENCY as int
    } else {
        g
    }
}

/// Target after an overrun: shrunk by half the adjustment rate, floored at the minimum.
pub open spec fn shrunk(t: int) -> int {
    let s = t * (200 - ADJUSTMENT_RATE_PERCENT) / 200;
    if s < MIN_LATENCY {
        MIN_LATENCY as int
    } else {
        s
    }
}

/// One exponential-moving-average step of the target toward `recommended`,
/// clamped to the latency bounds.
pub open spec fn smoothed(t: int, recommended: int) -> int {
    clamp_latency(
        (t * (100 - ADJUSTMENT_RATE_PERCENT) + recommended * ADJUSTMENT_RATE_PERCENT) / 100,
    )
}

/// Whether enough time has passed since the last adjustment for another one.
pub open spec fn adjustment_due(last: int, now: int) -> bool {
    now - last >= ADJUSTMENT_INTERVAL
}

/// Saturating increment of a counter.
pub open spec fn bump(c: int) -> int {
    if c < u64::MAX {
        c + 1
    } else {
        c
    }
}

/// Effect of a network-quality report at `now`.
pub open spec fn quality_update(v: BufferView, q: NetworkQuality, now: int) -> BufferView {
    if adjustment_due(v.last_adjustment, now) {
        BufferView {
            target_latency: smoothed(v.target_latency, recommended_ms(q) * NANOS_PER_MILLI),
            network_quality: q,
            last_adjustment: now,
            ..v
        }
    } else {
        BufferView { network_quality: q, ..v }
    }
}

/// Effect of an underrun report.
pub open spec fn underrun_update(v: BufferView) -> BufferView {
    BufferView {
        target_latency: grown(v.target_latency),
        underrun_count: bump(v.underrun_count),
        ..v
    }
}

/// Effect of an overrun report.
pub open spec fn overrun_update(v: BufferView) -> BufferView {
    BufferView {
        target_latency: shrunk(v.target_latency),
        overrun_count: bump(v.overrun_count),
        ..v
    }
}

/// Target presentation latency of one client, driven by network quality
/// and buffer-health reports. The target always lies within
/// `[MIN_LATENCY, MAX_LATENCY]`.
pub struct DynamicFutureBuffer {
    target_latency: u64,
    min_latency: u64,
    max_latency: u64,
    network_quality: NetworkQuality,
    last_adjustment: i64,
    underrun_count: u64,
    overrun_count: u64,
}

impl View for DynamicFutureBuffer {
    type V = BufferView;

    closed spec fn view(&self) -> BufferView {
        BufferView {
            target_latency: self.target_latency as int,
            min_latency: self.min_latency as int,
            max_latency: self.max_latency as int,
            network_quality: self.network_quality,
            last_adjustment: self.last_adjustment as int,
            underrun_count: self.underrun_count as int,
            overrun_count: self.overrun_count as int,
        }
    }
}

impl DynamicFutureBuffer {
    #[verifier::type_invariant]
    spec fn inv(&self) -> bool {
        &&& self.min_latency == MIN_LATENCY
        &&& self.max_latency == MAX_LATENCY
        &&& MIN_LATENCY <= self.target_latency <= MAX_LATENCY
    }

    /// A buffer starting at `initial_latency` (clamped to the bounds), with
    /// `now` as the time of its last adjustment.
    pub fn new(initial_latency: u64, quality: NetworkQuality, now: i64) -> (r: Self)
        ensures
            r@ == (BufferView {
                target_latency: clamp_latency(initial_latency as int),
                min_latency: MIN_LATENCY as int,
                max_latency: MAX_LATENCY as int,
                network_quality: quality,
                last_adjustment: now as int,
                underrun_count: 0,
                overrun_count: 0,
            }),
    {
        let target = if initial_latency < MIN_LATENCY {
            MIN_LATENCY
        } else if initial_latency > MAX_LATENCY {
            MAX_LATENCY
        } else {
            initial_latency
        };
        DynamicFutureBuffer {
            target_latency: target,
            min_latency: MIN_LATENCY,
            max_latency: MAX_LATENCY,
            network_quality: quality,
            last_adjustment: now,
            underrun_count: 0,
            overrun_count: 0,
        }
    }

    /// Records a new network quality at time `now`; when at least
    /// `ADJUSTMENT_INTERVAL` has passed since the last adjustment, moves the
    /// target one smoothing step toward the quality's recommendation.
    pub fn update_network_quality(&mut self, quality: NetworkQuality, now: i64)
        ensures
            final(self)@ == quality_update(old(self)@, quality, now as int),
    {
        proof {
            use_type_invariant(&*self);
        }
        self.network_quality = quality;
        let elapsed = now as i128 - self.last_adjustment as i128;
        if elapsed < ADJUSTMENT_INTERVAL as i128 {
            return;
        }
        let recommended = quality.recommended_buffer_ms() * NANOS_PER_MILLI;
        self.adjust_target_latency(recommended);
        self.last_adjustment = now;
    }

    /// Moves the target one smoothing step toward `recommended` nanoseconds.
    fn adjust_target_latency(&mut self, recommended: u64)
        requires
            recommended <= MAX_LATENCY,
        ensures
            final(self)@ == (BufferView {
                target_latency: smoothed(old(self)@.target_latency, recommended as int),
                ..old(self)@
            }),
    {
        proof {
            use_type_invariant(&*self);
        }
        let mixed = (self.target_latency * (100 - ADJUSTMENT_RATE_PERCENT) + recommended
            * ADJUSTMENT_RATE_PERCENT) / 100;
        self.target_latency = if mixed < MIN_LATENCY {
            MIN_LATENCY
        } else if mixed > MAX_LATENCY {
            MAX_LATENCY
        } else {
            mixed
        };
    }

    /// Current target latency, in nanoseconds.
    pub fn target_latency(&self) -> (r: u64)
        ensures
            r == self@.target_latency,
            MIN_LATENCY <= r <= MAX_LATENCY,
    {
        proof {
            use_type_invariant(self);
        }
        self.target_latency
    }

    /// Reports playback starvation: the target grows at once.
    pub fn report_underrun(&mut self)
        ensures
            final(self)@ == underrun_update(old(self)@),
    {
        proof {
            use_type_invariant(&*self);
        }
        if self.underrun_count < u64::MAX {
            self.underrun_count = self.underrun_count + 1;
        }
        let g = self.target_latency * (100 + ADJUSTMENT_RATE_PERCENT) / 100;
        self.target_latency = if g > self.max_latency {
            self.max_latency
        } else {
            g
        };
    }

    /// Reports excess buffered latency: the target shrinks at half the rate
    /// of growth.
    pub fn report_overrun(&mut self)
        ensures
            final(self)@ == overrun_update(old(self)@),
    {
        proof {
            use_type_invariant(&*self);
        }
        if self.overrun_count < u64::MAX {
            self.overrun_count = self.overrun_count + 1;
        }
        let s = self.target_latency * (200 - ADJUSTMENT_RATE_PERCENT) / 200;
        self.target_latency = if s < self.min_latency {
            self.min_latency
        } else {
            s
        };
    }

    /// Jitter-buffer depth for the current quality, in nanoseconds.
    pub fn calculate_jitter_buffer(&self) -> (r: u64)
        ensures
            r == jitter_ms(self@.network_quality) * NANOS_PER_MILLI,
    {
        self.network_quality.jitter_buffer_ms() * NANOS_PER_MILLI
    }

    /// Counters and settings; the latency in whole milliseconds.
    pub fn stats(&self) -> (r: BufferStats)
        ensures
            r.target_latency_ms == self@.target_latency / (NANOS_PER_MILLI as int),
            r.underrun_count == self@.underrun_count,
            r.overrun_count == self@.overrun_count,
            r.network_quality == self@.network_quality,
    {
        proof {
            use_type_invariant(self);
        }
        BufferStats {
            target_latency_ms: (self.target_latency / NANOS_PER_MILLI) as u32,
            underrun_count: self.underrun_count,
            overrun_count: self.overrun_count,
            network_quality: self.network_quality,
        }
    }
}

/// Two quality reports less than `ADJUSTMENT_INTERVAL` apart change the
/// target at most once: if the first one adjusted, the second leaves the
/// target and the adjustment time alone.
pub proof fn lemma_debounce(v: BufferView, q1: NetworkQuality, t1: int, q2: NetworkQuality, t2: int)
    requires
        t2 < t1 + ADJUSTMENT_INTERVAL,
    ensures
        ({
            let v1 = quality_update(v, q1, t1);
            let v2 = quality_update(v1, q2, t2);
            &&& adjustment_due(v.last_adjustment, t1) ==> v2.target_latency == v1.target_latency
                && v2.last_adjustment == v1.last_adjustment
            &&& v1.target_latency == v.target_latency || v2.target_latency == v1.target_latency
        }),
{
}

/// One overrun after an underrun does not bring the target below where it
/// stood before the underrun, for any starting target up to 475 ms (beyond
/// it the underrun is capped at 500 ms and the overrun takes it to 475 ms).
pub proof fn lemma_underrun_then_overrun(t: int)
    requires
        MIN_LATENCY <= t <= MAX_LATENCY * (200 - ADJUSTMENT_RATE_PERCENT) / 200,
    ensures
        shrunk(grown(t)) >= t,
{
    let g = t * 110 / 100;
    assert(g * 100 >= t * 110 - 99) by (nonlinear_arith)
        requires
            g == t * 110 / 100,
    ;
    if g <= MAX_LATENCY {
        let s = g * 190 / 200;
        assert(s * 200 >= g * 190 - 199) by (nonlinear_arith)
            requires
                s == g * 190 / 200,
        ;
        assert(s >= t) by (nonlinear_arith)
            requires
                s * 200 >= g * 190 - 199,
                g * 100 >= t * 110 - 99,
                t >= MIN_LATENCY,
        ;
    }
}

/// A report handed to a client's buffer.
pub enum BufferEvent {
    /// A network-quality report at the given instant.
    Quality(NetworkQuality, i64),
    Underrun,
    Overrun,
}

/// Effect of one report.
pub open spec fn apply_event(v: BufferView, e: BufferEvent) -> BufferView {
    match e {
        BufferEvent::Quality(q, now) => quality_update(v, q, now as int),
        BufferEvent::Underrun => underrun_update(v),
        BufferEvent::Overrun => overrun_update(v),
    }
}

/// Effect of a sequence of reports, applied in order.
pub open spec fn apply_events(v: BufferView, es: Seq<BufferEvent>) -> BufferView
    decreases es.len(),
{
    if es.len() == 0 {
        v
    } else {
        apply_event(apply_events(v, es.drop_last()), es.last())
    }
}

/// The target lies within `[MIN_LATENCY, MAX_LATENCY]`.
pub open spec fn within_bounds(v: BufferView) -> bool {
    MIN_LATENCY <= v.target_latency <= MAX_LATENCY
}

/// Whatever reports arrive, in whatever order, the target stays within the
/// latency bounds after each of them.
pub proof fn lemma_bounds_kept(v: BufferView, es: Seq<BufferEvent>)
    requires
        within_bounds(v),
    ensures
        forall|i: int| 0 <= i <= es.len() ==> #[trigger] within_bounds(apply_events(v, es.take(i))),
    decreases es.len(),
{
    if es.len() > 0 {
        lemma_bounds_kept(v, es.drop_last());
        assert forall|i: int| 0 <= i <= es.len() implies #[trigger] within_bounds(apply_events(v, es.take(i))) by {
            if i < es.len() {
                assert(es.take(i) =~= es.drop_last().take(i));
            } else {
                assert(es.take(i) =~= es);
                let w = apply_events(v, es.drop_last().take(es.len() - 1));
                assert(es.drop_last().take(es.len() - 1) =~= es.drop_last());
                assert(within_bounds(w));
                assert(w.target_latency * 110 / 100 >= w.target_latency) by (nonlinear_arith)
                    requires w.target_latency >= 0;
                assert(w.target_latency * 190 / 200 <= w.target_latency) by (nonlinear_arith)
                    requires w.target_latency >= 0;
            }
        }
    }
}

} // verus!
