use solusync_x_server::{
    play_start_at, sync_offset, ApiResponse, ClockManager, ClockSyncMessage, ControlAction,
    ControlServer, ErrorCode, HeartbeatMessage, HelloMessage, MediaAction, MediaControlMessage,
    MediaParams, Message, MessageHeader, NetworkQuality, NodeType,
};

fn hello() -> HelloMessage {
    HelloMessage {
        header: MessageHeader::new(77, 1),
        protocol_version: "0.1.0".to_string(),
        capabilities: vec!["audio".to_string()],
        node_type: NodeType::Client,
        auth_token: None,
    }
}

#[test]
fn hello_registers_and_welcomes() {
    let mut clock = ClockManager::new();
    let mut server = ControlServer::new();
    match server.handle_message(5, Message::Hello(hello()), &mut clock) {
        ControlAction::Welcome(Message::Hello(w)) => {
            assert_eq!(w.protocol_version, "0.1.0");
            assert_eq!(w.capabilities, vec!["clock_sync", "media_streaming", "cluster"]);
            assert_eq!(w.node_type, NodeType::Master);
            assert_eq!(w.header.node_id, server.server_id());
            assert!(w.auth_token.is_none());
        }
        other => panic!("unexpected {:?}", other),
    }
    assert!(server.is_client_connected(5));
    server.handle_message(5, Message::Hello(hello()), &mut clock);
    assert_eq!(server.connected_clients(), vec![5]);
    server.remove_client(5);
    assert_eq!(server.client_count(), 0);
}

#[test]
fn clock_sync_is_answered() {
    let mut clock = ClockManager::new();
    let mut server = ControlServer::new();
    let sync = ClockSyncMessage { header: MessageHeader::new(77, 2), t1: 123 };
    match server.handle_message(5, Message::ClockSync(sync), &mut clock) {
        ControlAction::Reply(Message::ClockSyncResponse(r)) => {
            assert_eq!(r.t1, 123);
            assert!(r.t2 <= r.t3);
            assert!(r.t2 > 0);
            assert_eq!(r.header.node_id, 77);
        }
        other => panic!("unexpected {:?}", other),
    }
}

#[test]
fn heartbeat_gets_server_time() {
    let mut clock = ClockManager::new();
    clock.set_master_offset(1_000_000_000);
    let mut server = ControlServer::new();
    let hb = HeartbeatMessage { header: MessageHeader::new(77, 3), client_time: 9, server_time: None };
    let before = solusync_x_server::get_current_time();
    match server.handle_message(5, Message::Heartbeat(hb), &mut clock) {
        ControlAction::Reply(Message::Heartbeat(r)) => {
            assert_eq!(r.client_time, 9);
            assert!(r.server_time.unwrap() >= before + 1_000_000_000);
        }
        other => panic!("unexpected {:?}", other),
    }
}

#[test]
fn media_control_is_forwarded_and_others_ignored() {
    let mut clock = ClockManager::new();
    let mut server = ControlServer::new();
    let cmd = MediaControlMessage {
        header: MessageHeader::new(77, 4),
        action: MediaAction::Play,
        track_id: "t".to_string(),
        start_at: 55,
        params: MediaParams {
            volume: Some(500),
            loop_count: None,
            fade_in_ms: None,
            fade_out_ms: None,
            seek_position: None,
        },
    };
    match server.handle_message(5, Message::MediaControl(cmd), &mut clock) {
        ControlAction::Forward(f) => {
            assert_eq!(f.track_id, "t");
            assert_eq!(f.start_at, 55);
            assert_eq!(f.params.volume, Some(500));
        }
        other => panic!("unexpected {:?}", other),
    }
    let status = solusync_x_server::NodeStatusMessage {
        header: MessageHeader::new(77, 5),
        node_type: NodeType::Client,
        connected_clients: 0,
        cpu_usage: 0,
        memory_usage: 0,
        battery_level: None,
        network_quality: NetworkQuality::Good,
        avg_rtt_us: 0,
        packet_loss_millipercent: 0,
        uptime_seconds: 0,
    };
    assert!(matches!(
        server.handle_message(5, Message::NodeStatus(status), &mut clock),
        ControlAction::Ignore
    ));
    assert_eq!(server.client_count(), 0);
}

#[test]
fn error_only_for_connected_client() {
    let mut clock = ClockManager::new();
    let mut server = ControlServer::new();
    assert!(server.error_for(5, ErrorCode::ProtocolError, "bad".to_string()).is_none());
    server.handle_message(5, Message::Hello(hello()), &mut clock);
    let e = server.error_for(5, ErrorCode::ProtocolError, "bad".to_string()).unwrap();
    assert_eq!(e.code, ErrorCode::ProtocolError);
    assert_eq!(e.code.code(), 501);
    assert_eq!(e.message, "bad");
}

#[test]
fn api_envelopes() {
    let ok = ApiResponse::success(3u32);
    assert!(ok.success);
    assert_eq!(ok.data, Some(3));
    assert!(ok.error.is_none());
    let err: ApiResponse<u32> = ApiResponse::error("boom".to_string());
    assert!(!err.success);
    assert!(err.data.is_none());
    assert_eq!(err.error.as_deref(), Some("boom"));
}

#[test]
fn play_start_defaults_to_100_ms_ahead() {
    assert_eq!(play_start_at(Some(7), 1_000), 7);
    assert_eq!(play_start_at(None, 1_000), 100_001_000);
    assert_eq!(play_start_at(None, i64::MAX), i64::MAX);
}

#[test]
fn sync_offset_is_server_minus_client() {
    assert_eq!(sync_offset(1_000, 1_500), 500);
    assert_eq!(sync_offset(1_500, 1_000), -500);
}
