use solusync_x_server::{ErrorCode, NetworkQuality};

#[test]
fn quality_table() {
    assert_eq!(NetworkQuality::from_metrics(5_000, 0), NetworkQuality::Excellent);
    assert_eq!(NetworkQuality::from_metrics(5_000, 50), NetworkQuality::Good);
    assert_eq!(NetworkQuality::from_metrics(10_000, 0), NetworkQuality::Good);
    assert_eq!(NetworkQuality::from_metrics(49_999, 99), NetworkQuality::Good);
    assert_eq!(NetworkQuality::from_metrics(50_000, 0), NetworkQuality::Fair);
    assert_eq!(NetworkQuality::from_metrics(20_000, 100), NetworkQuality::Fair);
    assert_eq!(NetworkQuality::from_metrics(150_000, 4_999), NetworkQuality::Poor);
    assert_eq!(NetworkQuality::from_metrics(200_000, 0), NetworkQuality::Critical);
    assert_eq!(NetworkQuality::from_metrics(1_000, 5_000), NetworkQuality::Critical);
    assert_eq!(NetworkQuality::from_metrics(-3, 0), NetworkQuality::Excellent);
}

#[test]
fn recommended_and_jitter_buffers() {
    let all = [
        NetworkQuality::Excellent,
        NetworkQuality::Good,
        NetworkQuality::Fair,
        NetworkQuality::Poor,
        NetworkQuality::Critical,
    ];
    let rec: Vec<u64> = all.iter().map(|q| q.recommended_buffer_ms()).collect();
    let jit: Vec<u64> = all.iter().map(|q| q.jitter_buffer_ms()).collect();
    assert_eq!(rec, vec![30, 80, 120, 180, 250]);
    assert_eq!(jit, vec![5, 10, 20, 40, 80]);
}

#[test]
fn error_codes_round_trip() {
    let all = [
        (ErrorCode::AuthenticationFailed, 401),
        (ErrorCode::Unauthorized, 403),
        (ErrorCode::NotFound, 404),
        (ErrorCode::RateLimited, 429),
        (ErrorCode::InternalError, 500),
        (ErrorCode::ProtocolError, 501),
        (ErrorCode::NetworkError, 502),
        (ErrorCode::ClockSyncFailed, 510),
        (ErrorCode::MediaError, 520),
        (ErrorCode::ClusterError, 530),
    ];
    for (c, n) in all {
        assert_eq!(c.code(), n);
        assert_eq!(ErrorCode::from_code(n), Some(c));
    }
    assert_eq!(ErrorCode::from_code(999), None);
}
