use hitl_daemon::ieee::{Real32, Real64};
use hitl_daemon::protocol::envelope::OutgoingMessage;
use hitl_daemon::protocol::frames::TerrainOrigin;
use hitl_daemon::protocol::state_update::StateUpdate;
use hitl_daemon::protocol::terrain_tiles::{WireTileCoord, MAX_FRAME_BYTES};
use hitl_daemon::server::{
    greeting, simulator_url, wire_coords, ClientFrame, ClientSession, Delivery, Feed, LatestOrigin,
    SessionAction, SessionEvent, TerrainNeedWatch, WebSocketServerConfig,
    MAX_INCOMING_MESSAGE_SIZE,
};
use hitl_daemon::terrain::TileCoord;
use serde_json::Value;

#[test]
fn test_default_config() {
    let config = WebSocketServerConfig::default();
    assert_eq!(config.port, 9876);
    assert_eq!(config.update_rate_hz, 30);
    assert!(config.allowed_origins.is_empty());
}

#[test]
fn origins_default_to_local_development() {
    let config = WebSocketServerConfig::default();
    assert_eq!(
        config.origins(),
        vec![
            "http://localhost:3000".to_string(),
            "http://localhost:5173".to_string(),
            "http://127.0.0.1:3000".to_string(),
            "http://127.0.0.1:5173".to_string(),
        ]
    );
    let config = WebSocketServerConfig {
        allowed_origins: vec!["https://example.org".to_string()],
        ..WebSocketServerConfig::default()
    };
    assert_eq!(config.origins(), vec!["https://example.org".to_string()]);
}

#[test]
fn a_taken_port_is_explained() {
    assert_eq!(
        WebSocketServerConfig::default().port_in_use_message(),
        "port 9876 is already in use — another hitl-daemon is probably running. Stop it, or start this one with --websocket-port <PORT>."
    );
    assert_eq!(simulator_url(None), "https://th3seus.net/simulator");
    assert_eq!(simulator_url(Some("http://x".to_string())), "http://x");
}

/// A realistic restore payload: every parameter provisioning writes, with names
/// and types, as the browser actually sends it.
fn restore_frame_size(param_count: usize) -> usize {
    let params: Vec<Value> = (0..param_count)
        .map(|i| {
            let mut p = serde_json::Map::new();
            // Names dominate the payload. PX4 caps them at 16 characters, so a
            // full-length name is the honest worst case.
            p.insert("name".to_string(), Value::from(format!("PARAM_NAME_{i:05}")));
            p.insert("value".to_string(), Value::from(1.2345));
            p.insert("param_type".to_string(), Value::from("real32"));
            Value::Object(p)
        })
        .collect();
    let mut body = serde_json::Map::new();
    body.insert(
        "board_identity".to_string(),
        Value::from("uid:3034510f33323831"),
    );
    body.insert("params".to_string(), Value::Array(params));
    // 1 type byte + JSON body, matching the browser's framing.
    1 + serde_json::to_vec(&Value::Object(body))
        .expect("restore request serialises")
        .len()
}

#[test]
fn a_full_restore_fits_within_the_incoming_message_limit() {
    let size = restore_frame_size(21);
    assert!(
        size > 1024,
        "a payload under 1 KB would mean this test guards nothing (was {size} bytes)"
    );
    assert!(
        size < MAX_INCOMING_MESSAGE_SIZE,
        "a 21-parameter restore ({size} bytes) must fit in \
         MAX_INCOMING_MESSAGE_SIZE ({MAX_INCOMING_MESSAGE_SIZE})"
    );
}

#[test]
fn the_limit_leaves_room_for_a_far_larger_snapshot() {
    // Provisioning writes ~21 parameters today. A future one that writes ten
    // times as many must not silently hit the same wall.
    assert!(restore_frame_size(210) < MAX_INCOMING_MESSAGE_SIZE);
}

/// The transport must accept every frame the protocol says it will accept.
#[test]
fn the_transport_accepts_every_frame_the_protocol_defines() {
    assert!(
        MAX_INCOMING_MESSAGE_SIZE >= MAX_FRAME_BYTES,
        "transport cap ({MAX_INCOMING_MESSAGE_SIZE}) is below the terrain frame limit the \
         protocol advertises ({MAX_FRAME_BYTES})"
    );
}

#[test]
fn a_single_terrain_tile_fits() {
    const TILE_SAMPLES: usize = 256 * 256;
    // 1 tag byte + 4 header-length bytes + a JSON header + the payload.
    let one_tile = 1 + 4 + 256 + TILE_SAMPLES * 4;
    assert!(
        one_tile > 64 * 1024,
        "a tile that fits in 64 KB would mean this test guards nothing (was {one_tile} bytes)"
    );
    assert!(
        one_tile < MAX_INCOMING_MESSAGE_SIZE,
        "one 256x256 f32 tile ({one_tile} bytes) must fit"
    );
}

// ---- the greeting ----

fn origin() -> TerrainOrigin {
    TerrainOrigin {
        ref_lat: Real64::from_bits(40.0f64.to_bits()),
        ref_lon: Real64::from_bits((-105.0f64).to_bits()),
        ref_alt: Real32::from_bits(1655.0f32.to_bits()),
        source: 0,
    }
}

#[test]
fn capabilities_go_out_before_anything_else() {
    let messages = greeting(0, 14, 2, Some(origin()));
    assert_eq!(messages.len(), 2);
    match &messages[0] {
        OutgoingMessage::Capabilities(c) => assert_eq!(c.daemon_version, "0.14.2"),
        other => panic!("wrong first message: {other:?}"),
    }
    assert!(matches!(messages[1], OutgoingMessage::TerrainOrigin(o) if o == origin()));
    assert_eq!(greeting(1, 0, 0, None).len(), 1);
}

#[test]
fn a_late_client_is_sent_the_latest_origin() {
    let mut latest = LatestOrigin::new();
    assert_eq!(latest.latest(), None);
    latest.on_origin(origin());
    assert_eq!(latest.latest(), Some(origin()));
}

// ---- asking for terrain ----

fn coord(x: u32) -> WireTileCoord {
    WireTileCoord { x, y: 1, z: 14 }
}

#[test]
fn unanswered_requests_slow_down_after_six_repetitions() {
    let mut watch = TerrainNeedWatch::new();
    for _ in 0..6 {
        assert!(!watch.tick(&vec![coord(1)]));
        assert_eq!(watch.interval_ms(), 500);
    }
    assert!(watch.tick(&vec![coord(1)]));
    assert_eq!(watch.interval_ms(), 5000);
    // Another set is progress, but the pace stays until nothing is missing.
    assert!(!watch.tick(&vec![coord(2)]));
    assert_eq!(watch.interval_ms(), 5000);
    assert!(watch.tick(&vec![]));
    assert_eq!(watch.interval_ms(), 500);
}

#[test]
fn tiles_keep_their_coordinates_on_the_wire() {
    assert_eq!(
        wire_coords(&vec![TileCoord { x: 3, y: 4, z: 5 }]),
        vec![WireTileCoord { x: 3, y: 4, z: 5 }]
    );
}

// ---- sessions ----

#[test]
fn missing_terrain_is_asked_for_and_completeness_is_silent() {
    let mut session = ClientSession::new(0);
    match session.on_event(SessionEvent::TerrainTick(Some(vec![coord(1)]))) {
        SessionAction::Send(OutgoingMessage::TerrainNeed(need)) => {
            assert_eq!(need.coords, vec![coord(1)])
        }
        other => panic!("{other:?}"),
    }
    for _ in 0..5 {
        session.on_event(SessionEvent::TerrainTick(Some(vec![coord(1)])));
    }
    assert!(matches!(
        session.on_event(SessionEvent::TerrainTick(Some(vec![coord(1)]))),
        SessionAction::PaceAndSend(5000, OutgoingMessage::TerrainNeed(_))
    ));
    assert!(matches!(
        session.on_event(SessionEvent::TerrainTick(Some(vec![]))),
        SessionAction::Pace(500)
    ));
    assert!(matches!(
        session.on_event(SessionEvent::TerrainTick(None)),
        SessionAction::Wait
    ));
}

#[test]
fn a_silent_client_is_closed_after_three_pings() {
    let mut session = ClientSession::new(100);
    assert!(matches!(
        session.on_event(SessionEvent::PingTick(114)),
        SessionAction::Ping
    ));
    session.on_event(SessionEvent::Received(ClientFrame::Other, 114));
    assert!(matches!(
        session.on_event(SessionEvent::PingTick(128)),
        SessionAction::Ping
    ));
    // A clock that was set back is not silence.
    assert!(matches!(
        session.on_event(SessionEvent::PingTick(10)),
        SessionAction::Ping
    ));
    assert!(matches!(
        session.on_event(SessionEvent::PingTick(129)),
        SessionAction::Close
    ));
    assert!(!session.is_open());
    assert!(matches!(
        session.on_event(SessionEvent::PingTick(130)),
        SessionAction::Close
    ));
}

#[test]
fn only_the_end_of_telemetry_stops_the_sending() {
    let mut session = ClientSession::new(0);
    for feed in [
        Feed::Shell,
        Feed::Link,
        Feed::Vehicle,
        Feed::Origin,
        Feed::Provisioning,
        Feed::Configuration,
    ] {
        match session.on_event(SessionEvent::Feed(feed, Delivery::Closed)) {
            SessionAction::Unsubscribe(f) => assert_eq!(f, feed),
            other => panic!("{other:?}"),
        }
    }
    assert!(matches!(
        session.on_event(SessionEvent::Feed(Feed::State, Delivery::Lagged)),
        SessionAction::Wait
    ));
    let update = OutgoingMessage::StateUpdate(StateUpdate::default());
    assert!(matches!(
        session.on_event(SessionEvent::Feed(Feed::State, Delivery::Message(update))),
        SessionAction::Send(OutgoingMessage::StateUpdate(_))
    ));
    assert!(matches!(
        session.on_event(SessionEvent::Feed(Feed::State, Delivery::Closed)),
        SessionAction::StopSending
    ));
    assert!(session.is_open());
}

/// The events after which nothing more is sent.
fn ends_of_sending() -> Vec<SessionEvent> {
    vec![
        SessionEvent::Feed(Feed::State, Delivery::Closed),
        SessionEvent::SendFailed,
    ]
}

#[test]
fn a_client_is_heard_after_the_sending_has_stopped() {
    for end in ends_of_sending() {
        let mut session = ClientSession::new(0);
        assert!(matches!(session.on_event(end), SessionAction::StopSending));
        // A shutdown request.
        for at in [1, 100] {
            match session.on_event(SessionEvent::Received(ClientFrame::Binary(vec![0x07]), at)) {
                SessionAction::Handle(data) => assert_eq!(data, vec![0x07]),
                other => panic!("{other:?}"),
            }
        }
        assert!(matches!(
            session.on_event(SessionEvent::Received(ClientFrame::Other, 101)),
            SessionAction::Wait
        ));
        assert!(session.is_open());
        assert!(matches!(
            session.on_event(SessionEvent::Received(ClientFrame::Close, 102)),
            SessionAction::Close
        ));
        assert!(!session.is_open());
    }
}

#[test]
fn nothing_is_sent_once_the_sending_has_stopped() {
    for end in ends_of_sending() {
        let mut session = ClientSession::new(0);
        session.on_event(end);
        let update = OutgoingMessage::StateUpdate(StateUpdate::default());
        for event in [
            SessionEvent::TerrainTick(Some(vec![coord(1)])),
            SessionEvent::TerrainTick(Some(vec![])),
            SessionEvent::Feed(Feed::State, Delivery::Message(update)),
            SessionEvent::Feed(Feed::Shell, Delivery::Closed),
            // Without pings there is no silence.
            SessionEvent::PingTick(1000),
            SessionEvent::SendFailed,
        ] {
            assert!(matches!(session.on_event(event), SessionAction::StopSending));
        }
        assert!(session.is_open());
    }
}

#[test]
fn an_answer_that_cannot_be_sent_ends_the_session() {
    for end in ends_of_sending() {
        let mut session = ClientSession::new(0);
        session.on_event(end);
        let answer = OutgoingMessage::TerrainOrigin(origin());
        assert!(matches!(
            session.on_event(SessionEvent::Answer(answer)),
            SessionAction::Close
        ));
        assert!(!session.is_open());
        assert!(matches!(
            session.on_event(SessionEvent::Received(ClientFrame::Binary(vec![1]), 1)),
            SessionAction::Close
        ));
    }
}

#[test]
fn a_client_that_fell_silent_is_not_heard_again() {
    let mut session = ClientSession::new(0);
    assert!(matches!(
        session.on_event(SessionEvent::PingTick(15)),
        SessionAction::Close
    ));
    assert!(matches!(
        session.on_event(SessionEvent::Received(ClientFrame::Binary(vec![1]), 16)),
        SessionAction::Close
    ));
}

#[test]
fn frames_are_handled_and_a_close_is_heeded() {
    let mut session = ClientSession::new(0);
    match session.on_event(SessionEvent::Received(ClientFrame::Binary(vec![1, 2]), 3)) {
        SessionAction::Handle(data) => assert_eq!(data, vec![1, 2]),
        other => panic!("{other:?}"),
    }
    let answer = OutgoingMessage::TerrainOrigin(origin());
    assert!(matches!(
        session.on_event(SessionEvent::Answer(answer)),
        SessionAction::Send(_)
    ));
    assert!(matches!(
        session.on_event(SessionEvent::Received(ClientFrame::Close, 4)),
        SessionAction::Close
    ));
    for event in [
        SessionEvent::Ended,
        SessionEvent::Received(ClientFrame::Failed, 1),
    ] {
        assert!(matches!(
            ClientSession::new(0).on_event(event),
            SessionAction::Close
        ));
    }
}
