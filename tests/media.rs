use solusync_x_server::{
    ErrorCode, MediaAction, MediaControlMessage, MediaParams, MediaServer, MessageHeader,
    NetworkQuality,
};

const MS: i64 = 1_000_000;

fn control(action: MediaAction, track: &str, start_at: i64) -> MediaControlMessage {
    MediaControlMessage {
        header: MessageHeader::new(1, 0),
        action,
        track_id: track.to_string(),
        start_at,
        params: MediaParams {
            volume: None,
            loop_count: None,
            fade_in_ms: None,
            fade_out_ms: None,
            seek_position: None,
        },
    }
}

#[test]
fn subscribe_to_unknown_track_is_not_found() {
    let mut server = MediaServer::new();
    server.add_client(1, 0);
    assert_eq!(server.subscribe_client(1, "missing".to_string()), Err(ErrorCode::NotFound));
}

#[test]
fn subscribe_to_known_track() {
    let mut server = MediaServer::new();
    server.create_stream("music".to_string(), "opus".to_string());
    server.add_client(1, 0);
    assert_eq!(server.subscribe_client(1, "music".to_string()), Ok(()));
    assert_eq!(server.subscribe_client(2, "music".to_string()), Ok(()));
}

#[test]
fn re_creating_stream_keeps_one_entry() {
    let mut server = MediaServer::new();
    server.create_stream("a".to_string(), "opus".to_string());
    server.create_stream("a".to_string(), "pcm16".to_string());
    server.create_stream("b".to_string(), "h264".to_string());
    assert_eq!(server.stream_count(), 2);
    assert!(server.has_stream(&"a".to_string()));
    assert!(!server.has_stream(&"c".to_string()));
}

#[test]
fn presentation_time_adds_target_latency() {
    let mut server = MediaServer::new();
    server.create_stream("a".to_string(), "opus".to_string());
    server.add_client(1, 0);
    let t = 1_000 * MS;
    assert_eq!(server.presentation_time(1, &"a".to_string(), t), Some(t + 80 * MS));
    assert_eq!(server.presentation_time(2, &"a".to_string(), t), None);
    assert_eq!(server.presentation_time(1, &"b".to_string(), t), None);
}

#[test]
fn play_never_presents_before_start() {
    let mut server = MediaServer::new();
    server.create_stream("a".to_string(), "opus".to_string());
    server.add_client(1, 0);
    let start = 5_000 * MS;
    assert_eq!(server.process_control(&control(MediaAction::Play, "a", start)), Ok(()));
    assert_eq!(server.presentation_time(1, &"a".to_string(), 1_000 * MS), None);
    assert_eq!(server.presentation_time(1, &"a".to_string(), start - 1), None);
    assert_eq!(server.presentation_time(1, &"a".to_string(), start), Some(start + 80 * MS));
    assert_eq!(server.presentation_time(1, &"a".to_string(), 6_000 * MS), Some(6_080 * MS));
}

#[test]
fn pause_and_stop_hold_delivery() {
    let mut server = MediaServer::new();
    server.create_stream("a".to_string(), "opus".to_string());
    server.add_client(1, 0);
    assert_eq!(server.process_control(&control(MediaAction::Pause, "a", 0)), Ok(()));
    assert_eq!(server.presentation_time(1, &"a".to_string(), 0), None);
    assert_eq!(server.process_control(&control(MediaAction::Play, "a", 0)), Ok(()));
    assert_eq!(server.presentation_time(1, &"a".to_string(), 0), Some(80 * MS));
    assert_eq!(server.process_control(&control(MediaAction::Stop, "a", 0)), Ok(()));
    assert_eq!(server.presentation_time(1, &"a".to_string(), 0), None);
    assert_eq!(server.process_control(&control(MediaAction::Seek, "a", 0)), Ok(()));
    assert_eq!(server.presentation_time(1, &"a".to_string(), 0), None);
}

#[test]
fn unload_removes_stream_and_unknown_track_fails() {
    let mut server = MediaServer::new();
    server.create_stream("a".to_string(), "opus".to_string());
    assert_eq!(server.process_control(&control(MediaAction::Unload, "a", 0)), Ok(()));
    assert_eq!(server.stream_count(), 0);
    assert_eq!(
        server.process_control(&control(MediaAction::Play, "a", 0)),
        Err(ErrorCode::NotFound)
    );
}

#[test]
fn client_quality_moves_its_buffer() {
    let mut server = MediaServer::new();
    server.create_stream("a".to_string(), "opus".to_string());
    server.add_client(1, 0);
    server.update_client_quality(1, NetworkQuality::Critical, 500 * MS);
    // 80 * 0.9 + 250 * 0.1 = 97 ms
    assert_eq!(server.presentation_time(1, &"a".to_string(), 0), Some(97 * MS));
    server.update_client_quality(9, NetworkQuality::Critical, 500 * MS);
    assert_eq!(server.client_count(), 1);
}

#[test]
fn removed_client_gets_no_frames() {
    let mut server = MediaServer::new();
    server.create_stream("a".to_string(), "opus".to_string());
    server.add_client(1, 0);
    server.add_client(1, 0);
    assert_eq!(server.client_count(), 1);
    server.remove_client(1);
    assert_eq!(server.client_count(), 0);
    assert_eq!(server.presentation_time(1, &"a".to_string(), 0), None);
}

#[test]
fn lag_and_overrun_reports_move_client_buffer() {
    let mut server = MediaServer::new();
    server.create_stream("a".to_string(), "opus".to_string());
    server.add_client(1, 0);
    server.report_client_underrun(1);
    assert_eq!(server.presentation_time(1, &"a".to_string(), 0), Some(88 * MS));
    server.report_client_overrun(1);
    // 88 * 0.95 = 83.6 ms
    assert_eq!(server.presentation_time(1, &"a".to_string(), 0), Some(83_600_000));
    server.report_client_underrun(2);
    assert_eq!(server.client_count(), 1);
}

#[test]
fn subscriptions_form_a_set() {
    let mut server = MediaServer::new();
    server.create_stream("a".to_string(), "opus".to_string());
    server.create_stream("b".to_string(), "opus".to_string());
    server.add_client(1, 0);
    assert!(!server.is_subscribed(1, &"a".to_string()));
    assert_eq!(server.subscribe_client(1, "a".to_string()), Ok(()));
    assert_eq!(server.subscribe_client(1, "a".to_string()), Ok(()));
    assert!(server.is_subscribed(1, &"a".to_string()));
    assert!(!server.is_subscribed(1, &"b".to_string()));
    assert!(!server.is_subscribed(2, &"a".to_string()));
    server.remove_client(1);
    assert!(!server.is_subscribed(1, &"a".to_string()));
}
