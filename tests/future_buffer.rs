use solusync_x_server::{DynamicFutureBuffer, NetworkQuality};

const MS: u64 = 1_000_000;
const MS_I: i64 = 1_000_000;

#[test]
fn quality_settles_toward_recommendation() {
    let mut buffer = DynamicFutureBuffer::new(80 * MS, NetworkQuality::Good, 0);

    buffer.report_underrun();
    assert!(buffer.target_latency() > 80 * MS);

    buffer.update_network_quality(NetworkQuality::Poor, 0);
    assert_eq!(buffer.target_latency(), 88 * MS);
    // 600 ms later: one step, 88 * 0.9 + 180 * 0.1
    buffer.update_network_quality(NetworkQuality::Poor, 600 * MS_I);
    assert_eq!(buffer.target_latency(), 97_200_000);

    let mut now = 600 * MS_I;
    for _ in 0..10 {
        now += 600 * MS_I;
        buffer.update_network_quality(NetworkQuality::Poor, now);
    }
    assert!(buffer.target_latency() > 150 * MS);
    assert!(buffer.target_latency() < 180 * MS);
}

#[test]
fn underrun_grows_by_ten_percent() {
    let mut buffer = DynamicFutureBuffer::new(80 * MS, NetworkQuality::Good, 0);
    buffer.report_underrun();
    assert_eq!(buffer.target_latency(), 88 * MS);
    assert!(buffer.target_latency() <= 500 * MS);
    assert_eq!(buffer.stats().underrun_count, 1);
}

#[test]
fn overrun_shrinks_by_five_percent() {
    let mut buffer = DynamicFutureBuffer::new(100 * MS, NetworkQuality::Good, 0);
    buffer.report_overrun();
    assert_eq!(buffer.target_latency(), 95 * MS);
    assert_eq!(buffer.stats().overrun_count, 1);
}

#[test]
fn quality_step_is_exponential_moving_average() {
    let mut buffer = DynamicFutureBuffer::new(80 * MS, NetworkQuality::Good, 0);
    buffer.update_network_quality(NetworkQuality::Poor, 500 * MS_I);
    // 80 * 0.9 + 180 * 0.1 = 90
    assert_eq!(buffer.target_latency(), 90 * MS);
    assert_eq!(buffer.stats().network_quality, NetworkQuality::Poor);
}

#[test]
fn reports_within_debounce_make_one_step() {
    let mut buffer = DynamicFutureBuffer::new(80 * MS, NetworkQuality::Good, 0);
    buffer.update_network_quality(NetworkQuality::Critical, 1_000 * MS_I);
    let after_first = buffer.target_latency();
    assert_eq!(after_first, 97 * MS);
    buffer.update_network_quality(NetworkQuality::Critical, 1_499 * MS_I);
    assert_eq!(buffer.target_latency(), after_first);
    buffer.update_network_quality(NetworkQuality::Critical, 1_500 * MS_I);
    assert!(buffer.target_latency() > after_first);
}

#[test]
fn early_report_records_quality_without_step() {
    let mut buffer = DynamicFutureBuffer::new(80 * MS, NetworkQuality::Good, 0);
    buffer.update_network_quality(NetworkQuality::Excellent, 100 * MS_I);
    assert_eq!(buffer.target_latency(), 80 * MS);
    assert_eq!(buffer.stats().network_quality, NetworkQuality::Excellent);
    assert_eq!(buffer.calculate_jitter_buffer(), 5 * MS);
}

#[test]
fn clock_going_back_makes_no_step() {
    let mut buffer = DynamicFutureBuffer::new(80 * MS, NetworkQuality::Good, 10_000 * MS_I);
    buffer.update_network_quality(NetworkQuality::Critical, 0);
    assert_eq!(buffer.target_latency(), 80 * MS);
}

#[test]
fn latency_stays_within_bounds_under_any_events() {
    let mut buffer = DynamicFutureBuffer::new(80 * MS, NetworkQuality::Good, 0);
    for _ in 0..100 {
        buffer.report_underrun();
        assert!(buffer.target_latency() <= 500 * MS);
    }
    assert_eq!(buffer.target_latency(), 500 * MS);
    for _ in 0..200 {
        buffer.report_overrun();
        assert!(buffer.target_latency() >= 30 * MS);
    }
    assert_eq!(buffer.target_latency(), 30 * MS);
    let qualities = [
        NetworkQuality::Critical,
        NetworkQuality::Excellent,
        NetworkQuality::Poor,
        NetworkQuality::Fair,
    ];
    let mut now: i64 = 0;
    for i in 0..60 {
        now += 700 * MS_I;
        buffer.update_network_quality(qualities[i % 4], now);
        if i % 3 == 0 {
            buffer.report_underrun();
        } else if i % 3 == 1 {
            buffer.report_overrun();
        }
        let t = buffer.target_latency();
        assert!(t >= 30 * MS && t <= 500 * MS);
    }
}

#[test]
fn initial_latency_is_clamped() {
    assert_eq!(DynamicFutureBuffer::new(0, NetworkQuality::Good, 0).target_latency(), 30 * MS);
    assert_eq!(DynamicFutureBuffer::new(900 * MS, NetworkQuality::Good, 0).target_latency(), 500 * MS);
}

#[test]
fn overrun_after_underrun_keeps_previous_target() {
    for start in [30u64, 80, 200, 475] {
        let mut buffer = DynamicFutureBuffer::new(start * MS, NetworkQuality::Good, 0);
        buffer.report_underrun();
        buffer.report_overrun();
        assert!(buffer.target_latency() >= start * MS);
    }
    // Above 475 ms the underrun is capped and one overrun goes below.
    let mut buffer = DynamicFutureBuffer::new(490 * MS, NetworkQuality::Good, 0);
    buffer.report_underrun();
    buffer.report_overrun();
    assert_eq!(buffer.target_latency(), 475 * MS);
}

#[test]
fn stats_report_whole_milliseconds() {
    let mut buffer = DynamicFutureBuffer::new(80 * MS, NetworkQuality::Fair, 0);
    buffer.report_overrun();
    let stats = buffer.stats();
    assert_eq!(stats.target_latency_ms, 76);
    assert_eq!(stats.network_quality, NetworkQuality::Fair);
    assert_eq!(buffer.calculate_jitter_buffer(), 20 * MS);
}
