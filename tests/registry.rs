use solusync_x_server::ClockManager;

const SEC: i64 = 1_000_000_000;

#[test]
fn stale_peer_is_reaped() {
    let mut clock = ClockManager::new();
    let peer = 7u128;
    clock.update_peer_clock(peer, 2_000, 500, 100 * SEC);
    assert_eq!(clock.get_peer_offset(peer), Some(2_000));
    // 31 s later, one maintenance tick
    clock.cleanup_stale_peers(131 * SEC);
    assert_eq!(clock.get_peer_offset(peer), None);
}

#[test]
fn recent_peer_survives_reap() {
    let mut clock = ClockManager::new();
    clock.update_peer_clock(1, 10, 20, 100 * SEC);
    clock.update_peer_clock(2, 30, 40, 120 * SEC);
    clock.cleanup_stale_peers(140 * SEC);
    assert_eq!(clock.get_peer_offset(1), None);
    assert_eq!(clock.get_peer_stats(2), Some((30, 40, 1)));
    // exactly 30 s without a sample is not yet stale
    clock.cleanup_stale_peers(150 * SEC);
    assert_eq!(clock.get_peer_offset(2), Some(30));
    clock.cleanup_stale_peers(150 * SEC + 1);
    assert_eq!(clock.get_peer_offset(2), None);
}

#[test]
fn unknown_peer_has_no_stats() {
    let clock = ClockManager::new();
    assert_eq!(clock.get_peer_offset(3), None);
    assert_eq!(clock.get_peer_stats(3), None);
}

#[test]
fn samples_update_cache_and_count() {
    let mut clock = ClockManager::new();
    for i in 0..5i64 {
        clock.update_peer_clock(9, 100 + i, 7 + i, i * SEC);
    }
    assert_eq!(clock.get_peer_stats(9), Some((104, 11, 5)));
    assert!(!clock.is_master_peer(9));
    assert_eq!(clock.master_offset(), None);
}

#[test]
fn re_created_peer_starts_over() {
    let mut clock = ClockManager::new();
    clock.update_peer_clock(4, 1, 1, 0);
    clock.update_peer_clock(4, 2, 1, SEC);
    clock.cleanup_stale_peers(40 * SEC);
    clock.update_peer_clock(4, 3, 1, 41 * SEC);
    assert_eq!(clock.get_peer_stats(4), Some((3, 1, 1)));
}

#[test]
fn node_ids_are_random() {
    let a = ClockManager::new();
    let b = ClockManager::new();
    assert_ne!(a.node_id(), b.node_id());
}

#[test]
fn drift_is_estimated_after_ten_samples() {
    let mut clock = ClockManager::new();
    // offsets grow by 1 us per second: 1 ppm
    for i in 0..11i64 {
        clock.update_peer_clock(5, 1_000 * i, 0, i * SEC);
    }
    assert_eq!(clock.get_peer_drift_ppm(5), Some(0));
    clock.update_peer_clock(5, 11_000, 0, 11 * SEC);
    assert_eq!(clock.get_peer_drift_ppm(5), Some(1));
    // 50 us over half a second: 100 ppm
    clock.update_peer_clock(5, 61_000, 0, 11 * SEC + SEC / 2);
    assert_eq!(clock.get_peer_drift_ppm(5), Some(100));
    // a sample at the same instant leaves the drift alone
    clock.update_peer_clock(5, 0, 0, 11 * SEC + SEC / 2);
    assert_eq!(clock.get_peer_drift_ppm(5), Some(100));
    // negative drift rounds toward zero
    clock.update_peer_clock(5, -1, 0, 11 * SEC + SEC / 2 + 3);
    assert_eq!(clock.get_peer_drift_ppm(5), Some(-333_333));
    assert_eq!(clock.get_peer_drift_ppm(6), None);
}
