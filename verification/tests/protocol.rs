use hitl_daemon::ieee::{Real32, Real64};
use hitl_daemon::protocol::command::Command;
use hitl_daemon::protocol::config::{
    bad_json, default_battery_capacity_mah, default_battery_cell_count, default_battery_voltage,
    default_esc_count, ConfigureBuild, FlightLocation, LocationFault,
};
use hitl_daemon::protocol::envelope::{IncomingMessage, OutgoingMessage};
use hitl_daemon::protocol::frames::{
    CommandAck, ConnectionStatus, HandshakeAck, LinkState, NshCommand, NshResponse, TerrainOrigin,
    VehicleMessage,
};
use hitl_daemon::protocol::provisioning::{
    daemon_features, Capabilities, PreflightReadiness, PreflightStatus, RestoreSnapshot,
    SnapshotCaptured, SnapshotParam, SnapshotStored, PROTOCOL_REVISION,
};
use hitl_daemon::protocol::state_update::{StateUpdate, STATE_UPDATE_MIN_SIZE, STATE_UPDATE_SIZE};
use hitl_daemon::protocol::tags::{
    CommandType, ProtocolError, MSG_TYPE_APPLY_PREFLIGHT_PARAMS, MSG_TYPE_CAPABILITIES,
    MSG_TYPE_COMMAND, MSG_TYPE_COMMAND_ACK, MSG_TYPE_CONFIGURE_BUILD, MSG_TYPE_CONFIG_RESULT,
    MSG_TYPE_CONNECTION_STATUS, MSG_TYPE_HANDSHAKE, MSG_TYPE_HANDSHAKE_ACK, MSG_TYPE_NSH_COMMAND,
    MSG_TYPE_NSH_RESPONSE, MSG_TYPE_PREFLIGHT_APPLY_RESULT, MSG_TYPE_PREFLIGHT_STATUS,
    MSG_TYPE_REQUEST_PREFLIGHT_CHECK, MSG_TYPE_RESTORE_RESULT, MSG_TYPE_RESTORE_SNAPSHOT,
    MSG_TYPE_SHUTDOWN, MSG_TYPE_SNAPSHOT_CAPTURED, MSG_TYPE_SNAPSHOT_STORED, MSG_TYPE_STATE_UPDATE,
    MSG_TYPE_TERRAIN_NEED, MSG_TYPE_TERRAIN_ORIGIN, MSG_TYPE_TERRAIN_TILES,
    MSG_TYPE_VEHICLE_MESSAGE,
};
use hitl_daemon::protocol::terrain_tiles::{
    TerrainNeed, TerrainTiles, TerrainTilesHeader, WireTileCoord, MAX_FRAME_BYTES,
};
use serde_json::Value;

fn r32(x: f32) -> Real32 {
    Real32::from_bits(x.to_bits())
}

fn number(x: Real32) -> f32 {
    f32::from_bits(x.bits)
}

fn wide(x: f64) -> Real64 {
    Real64::from_bits(x.to_bits())
}

fn degrees(x: Real64) -> f64 {
    f64::from_bits(x.bits)
}

// ---- telemetry ----

/// A browser on the current protocol must still parse frames from a daemon that
/// predates the landed_state byte, reporting UNDEFINED rather than rejecting
/// the frame and blanking the whole telemetry view.
#[test]
fn state_update_accepts_legacy_86_byte_frame() {
    let state = StateUpdate {
        timestamp_us: 42,
        armed: true,
        flight_mode: 3,
        landed_state: 4,
        ..StateUpdate::default()
    };

    let full = state.to_bytes();
    let legacy = &full[..STATE_UPDATE_MIN_SIZE];

    let parsed = StateUpdate::from_bytes(legacy).expect("legacy frame must parse");
    assert_eq!(parsed.timestamp_us, 42);
    assert_eq!(parsed.flight_mode, 3);
    assert!(parsed.armed);
    assert_eq!(
        parsed.landed_state, 0,
        "a frame without the byte must decode as UNDEFINED, not carry stale data"
    );
}

/// Anything shorter than the legacy frame is genuinely malformed.
#[test]
fn state_update_rejects_short_frame() {
    let short = [MSG_TYPE_STATE_UPDATE; 40];
    assert!(StateUpdate::from_bytes(&short).is_err());
}

#[test]
fn test_state_update_roundtrip() {
    let state = StateUpdate {
        timestamp_us: 1234567890,
        position_ned: [r32(1.0), r32(2.0), r32(-3.0)],
        velocity_ned: [r32(0.1), r32(0.2), r32(-0.3)],
        quaternion_wxyz: [r32(1.0), r32(0.0), r32(0.0), r32(0.0)],
        angular_velocity: [r32(0.01), r32(0.02), r32(0.03)],
        motor_rpms: [r32(5000.0), r32(5100.0), r32(5200.0), r32(5300.0)],
        battery_voltage: r32(16.2),
        battery_percent: 85,
        armed: true,
        flight_mode: 3,
        packets_per_sec: 349,
        landed_state: 2, // MAV_LANDED_STATE_IN_AIR
    };

    let bytes = state.to_bytes();
    assert_eq!(bytes.len(), STATE_UPDATE_SIZE);
    assert_eq!(bytes[0], MSG_TYPE_STATE_UPDATE);
    assert_eq!(bytes[86], 2, "landed_state must occupy the trailing byte");

    let parsed = StateUpdate::from_bytes(&bytes).unwrap();
    assert_eq!(parsed.timestamp_us, state.timestamp_us);
    assert_eq!(parsed.position_ned, state.position_ned);
    assert_eq!(parsed.velocity_ned, state.velocity_ned);
    assert_eq!(parsed.quaternion_wxyz, state.quaternion_wxyz);
    assert_eq!(parsed.angular_velocity, state.angular_velocity);
    assert_eq!(parsed.motor_rpms, state.motor_rpms);
    assert!((number(parsed.battery_voltage) - number(state.battery_voltage)).abs() < 0.001);
    assert_eq!(parsed.battery_percent, state.battery_percent);
    assert_eq!(parsed.armed, state.armed);
    assert_eq!(parsed.flight_mode, state.flight_mode);
    assert_eq!(parsed.landed_state, state.landed_state);
    assert_eq!(parsed.packets_per_sec, state.packets_per_sec);
}

#[test]
fn test_shutdown_message() {
    let bytes = [MSG_TYPE_SHUTDOWN];
    let msg = IncomingMessage::from_bytes(&bytes).unwrap();
    assert!(matches!(msg, IncomingMessage::Shutdown));
}

// ---- link status ----

#[test]
fn test_connection_status_with_fc_model() {
    let status = ConnectionStatus {
        connected: true,
        reconnecting: false,
        retry_count: 0,
        serial_port: "/dev/tty.usb".to_string(),
        fc_model: Some("Pixhawk 6C".to_string()),
        bootloader_suspected: false,
        link_state: LinkState::Connected,
    };
    let bytes = status.to_bytes();
    assert_eq!(bytes[0], MSG_TYPE_CONNECTION_STATUS);
    assert_eq!(bytes[1], 1); // connected
    assert_eq!(bytes[2], 0); // not reconnecting
    assert_eq!(bytes[3], 0); // retry_count

    // Find null terminators
    let port_null = bytes[4..].iter().position(|&b| b == 0).unwrap() + 4;
    let port_str = std::str::from_utf8(&bytes[4..port_null]).unwrap();
    assert_eq!(port_str, "/dev/tty.usb");

    let model_start = port_null + 1;
    let model_null = bytes[model_start..].iter().position(|&b| b == 0).unwrap() + model_start;
    let model_str = std::str::from_utf8(&bytes[model_start..model_null]).unwrap();
    assert_eq!(model_str, "Pixhawk 6C");

    // bootloader_suspected byte is appended after fc_model null terminator
    assert_eq!(bytes[model_null + 1], 0); // not bootloader_suspected
}

#[test]
fn test_connection_status_without_fc_model() {
    let status = ConnectionStatus {
        connected: false,
        reconnecting: true,
        retry_count: 3,
        serial_port: String::new(),
        fc_model: None,
        bootloader_suspected: false,
        link_state: LinkState::Reconnecting,
    };
    let bytes = status.to_bytes();
    assert_eq!(bytes[1], 0); // not connected
    assert_eq!(bytes[2], 1); // reconnecting
    assert_eq!(bytes[3], 3); // retry_count
                             // Empty serial port: null terminator at index 4
    assert_eq!(bytes[4], 0);
    // Empty fc_model: null terminator at index 5
    assert_eq!(bytes[5], 0);
    // bootloader_suspected at index 6
    assert_eq!(bytes[6], 0);
}

#[test]
fn test_connection_status_bootloader_suspected() {
    let status = ConnectionStatus {
        connected: false,
        reconnecting: true,
        retry_count: 1,
        serial_port: String::new(),
        fc_model: None,
        bootloader_suspected: true,
        link_state: LinkState::SuspectedBootloader,
    };
    let bytes = status.to_bytes();
    assert_eq!(bytes[1], 0); // not connected
    assert_eq!(bytes[2], 1); // reconnecting
                             // bootloader_suspected byte is at index 6 (after two empty null-terminated strings)
    assert_eq!(bytes[6], 1); // bootloader_suspected = true
}

#[test]
fn test_handshake_ack_to_bytes() {
    let ack = HandshakeAck {
        version_major: 1,
        version_minor: 2,
        version_patch: 3,
        pixhawk_connected: true,
        serial_port: "/dev/ttyACM0".to_string(),
    };

    let bytes = ack.to_bytes();
    assert_eq!(bytes[0], MSG_TYPE_HANDSHAKE_ACK);
    assert_eq!(bytes[1], 1);
    assert_eq!(bytes[2], 2);
    assert_eq!(bytes[3], 3);
    assert_eq!(bytes[4], 1);
    assert_eq!(&bytes[5..17], b"/dev/ttyACM0");
    assert_eq!(bytes[17], 0);
}

// ---- commands ----

#[test]
fn test_command_roundtrip() {
    let cmd = Command {
        command_id: 42,
        command_type: CommandType::Takeoff,
        takeoff_altitude: Some(r32(10.0)),
        set_mode_value: None,
    };

    let bytes = cmd.to_bytes();
    let parsed = Command::from_bytes(&bytes).unwrap();

    assert_eq!(parsed.command_id, cmd.command_id);
    assert_eq!(parsed.command_type, cmd.command_type);
    assert!((number(parsed.takeoff_altitude.unwrap()) - 10.0).abs() < 0.001);
}

#[test]
fn test_command_arm() {
    let bytes = [MSG_TYPE_COMMAND, 1, 0, 0, 0, 0]; // command_id=1, type=Arm
    let cmd = Command::from_bytes(&bytes).unwrap();
    assert_eq!(cmd.command_id, 1);
    assert_eq!(cmd.command_type, CommandType::Arm);
}

#[test]
fn test_command_set_mode() {
    let bytes = [MSG_TYPE_COMMAND, 5, 0, 0, 0, 5, 7]; // command_id=5, type=SetMode, mode=7
    let cmd = Command::from_bytes(&bytes).unwrap();
    assert_eq!(cmd.command_id, 5);
    assert_eq!(cmd.command_type, CommandType::SetMode);
    assert_eq!(cmd.set_mode_value, Some(7));
}

#[test]
fn test_incoming_message_handshake() {
    let bytes = [MSG_TYPE_HANDSHAKE];
    let msg = IncomingMessage::from_bytes(&bytes).unwrap();
    assert!(matches!(msg, IncomingMessage::Handshake));
}

#[test]
fn protocol_test_invalid_message_type() {
    let bytes = [0xFF];
    let result = IncomingMessage::from_bytes(&bytes);
    assert!(matches!(
        result,
        Err(ProtocolError::UnknownMessageType(0xFF))
    ));
}

#[test]
fn test_command_ack_success() {
    let ack = CommandAck {
        command_id: 42,
        success: true,
        error: None,
    };
    let bytes = ack.to_bytes();
    assert_eq!(bytes[0], MSG_TYPE_COMMAND_ACK);
    assert_eq!(u32::from_le_bytes(bytes[1..5].try_into().unwrap()), 42);
    assert_eq!(bytes[5], 1);
}

#[test]
fn test_command_ack_failure() {
    let ack = CommandAck {
        command_id: 42,
        success: false,
        error: Some("Rate limited".to_string()),
    };
    let bytes = ack.to_bytes();
    assert_eq!(bytes[0], MSG_TYPE_COMMAND_ACK);
    assert_eq!(bytes[5], 0);
    assert_eq!(&bytes[6..18], b"Rate limited");
    assert_eq!(bytes[18], 0);
}

#[test]
fn commands_without_their_parameter_are_refused() {
    // Takeoff without an altitude, mode change without a mode.
    let takeoff = Command::from_bytes(&[MSG_TYPE_COMMAND, 1, 0, 0, 0, 2]);
    assert!(matches!(
        takeoff,
        Err(ProtocolError::InvalidPayload {
            command_type: CommandType::Takeoff,
            ..
        })
    ));
    let mode = Command::from_bytes(&[MSG_TYPE_COMMAND, 1, 0, 0, 0, 5]);
    assert!(matches!(
        mode,
        Err(ProtocolError::InvalidPayload {
            command_type: CommandType::SetMode,
            ..
        })
    ));
    assert!(matches!(
        Command::from_bytes(&[MSG_TYPE_COMMAND, 1, 0, 0, 0, 99]),
        Err(ProtocolError::InvalidCommandType(99))
    ));
    assert!(matches!(
        Command::from_bytes(&[MSG_TYPE_COMMAND, 1]),
        Err(ProtocolError::MessageTooShort { .. })
    ));
}

#[test]
fn command_codes_are_one_to_one() {
    for code in 0..8u8 {
        let t = CommandType::try_from(code).unwrap();
        assert_eq!(t.to_code(), code);
    }
    assert!(CommandType::try_from(8).is_err());
    assert_eq!(CommandType::Recharge.to_code(), 7);
}

#[test]
fn protocol_errors_have_texts() {
    assert_eq!(
        ProtocolError::MessageTooShort {
            expected: 5,
            actual: 2
        }
        .text(),
        "Message too short: expected at least 5 bytes, got 2"
    );
    assert_eq!(
        ProtocolError::UnknownMessageType(0xAB).text(),
        "Unknown message type: 0xAB"
    );
    assert_eq!(
        ProtocolError::InvalidCommandType(0x0C).text(),
        "Invalid command type: 12"
    );
    assert_eq!(
        bad_json("ConfigureBuild", "eof").text(),
        "Invalid payload for command type Arm: ConfigureBuild: eof"
    );
}

// ---- shell frames ----

#[test]
fn a_shell_command_round_trips() {
    let cmd = NshCommand {
        request_id: 77,
        command: "ver all".to_string(),
        timeout_ms: 1500,
    };
    let bytes = cmd.to_bytes();
    assert_eq!(bytes[0], MSG_TYPE_NSH_COMMAND);
    let read = NshCommand::from_bytes(&bytes).unwrap();
    assert_eq!(read.request_id, 77);
    assert_eq!(read.command, "ver all");
    assert_eq!(read.timeout_ms, 1500);
    match IncomingMessage::from_bytes(&bytes).unwrap() {
        IncomingMessage::NshCommand(c) => assert_eq!(c.command, "ver all"),
        other => panic!("wrong variant: {other:?}"),
    }
}

#[test]
fn bytes_after_a_shell_command_are_not_read() {
    let cmd = NshCommand {
        request_id: 78,
        command: "dmesg".to_string(),
        timeout_ms: 20,
    };
    let mut bytes = cmd.to_bytes();
    bytes.extend_from_slice(&[b'x', 0, 0xFF]);
    let read = NshCommand::from_bytes(&bytes).unwrap();
    assert_eq!((read.request_id, read.timeout_ms), (78, 20));
    assert_eq!(read.command, "dmesg");
}

#[test]
fn a_shell_command_that_is_not_text_is_read_with_replacements() {
    let cmd = NshCommand {
        request_id: 1,
        command: "ab".to_string(),
        timeout_ms: 1,
    };
    let mut bytes = cmd.to_bytes();
    let at = bytes.iter().position(|&b| b == b'a').unwrap();
    bytes[at] = 0xFF;
    assert_eq!(
        NshCommand::from_bytes(&bytes).unwrap().command,
        "\u{FFFD}b"
    );
}

#[test]
fn binary_frames_have_their_layout() {
    let bytes = NshResponse {
        request_id: 1,
        success: true,
        complete: false,
        output: "ok".to_string(),
    }
    .to_bytes();
    assert_eq!(
        bytes,
        vec![MSG_TYPE_NSH_RESPONSE, 1, 0, 0, 0, 1, 0, b'o', b'k', 0]
    );
    let bytes = VehicleMessage {
        severity: 4,
        timestamp_ms: 0x0102,
        text: "hi".to_string(),
    }
    .to_bytes();
    assert_eq!(
        bytes,
        vec![MSG_TYPE_VEHICLE_MESSAGE, 4, 2, 1, 0, 0, b'h', b'i', 0]
    );
    let origin = TerrainOrigin {
        ref_lat: wide(1.0),
        ref_lon: wide(2.0),
        ref_alt: r32(3.0),
        source: 1,
    };
    let bytes = origin.to_bytes();
    assert_eq!(bytes.len(), 22);
    assert_eq!(bytes[0], MSG_TYPE_TERRAIN_ORIGIN);
    assert_eq!(&bytes[1..9], &1.0f64.to_le_bytes());
    assert_eq!(&bytes[9..17], &2.0f64.to_le_bytes());
    assert_eq!(&bytes[17..21], &3.0f32.to_le_bytes());
    assert_eq!(bytes[21], 1);
    assert_eq!(OutgoingMessage::TerrainOrigin(origin).to_bytes(&[]), bytes);
}

// ---- snapshots ----

/// The confirmation of a frame, with the JSON side as an application has it.
fn read_ack(bytes: &[u8]) -> Result<SnapshotStored, String> {
    let body = SnapshotStored::body(bytes).map_err(|e| e.text())?;
    let value: Value = serde_json::from_slice(&body).map_err(|e| e.to_string())?;
    Ok(SnapshotStored {
        board_identity: value["board_identity"]
            .as_str()
            .ok_or("missing board_identity")?
            .to_string(),
        stored: value["stored"].as_bool().ok_or("missing stored")?,
        error: value["error"].as_str().map(|s| s.to_string()),
    })
}

#[test]
fn captured_snapshot_encodes_with_its_message_type() {
    let msg = SnapshotCaptured {
        board_identity: "uid:3034510f33323831".to_string(),
        params: vec![
            SnapshotParam {
                name: "SYS_HITL".to_string(),
                value: r32(0.0),
                param_type: "int32".to_string(),
            },
            SnapshotParam {
                name: "EKF2_REQ_HDRIFT".to_string(),
                value: r32(0.3),
                param_type: "real32".to_string(),
            },
        ],
    };
    // The type has to survive the wire: PX4 drops a type-mismatched PARAM_SET,
    // so restore cannot reconstruct it from the value.
    let types: Vec<String> = msg
        .params
        .iter()
        .map(|p| format!("{{\"param_type\":\"{}\"}}", p.param_type))
        .collect();
    let json = format!(
        "{{\"board_identity\":\"{}\",\"params\":[{}]}}",
        msg.board_identity,
        types.join(",")
    );
    let bytes = OutgoingMessage::SnapshotCaptured(msg).to_bytes(json.as_bytes());
    assert_eq!(bytes[0], MSG_TYPE_SNAPSHOT_CAPTURED);

    let decoded: Value = serde_json::from_slice(&bytes[1..]).unwrap();
    assert_eq!(decoded["board_identity"], "uid:3034510f33323831");
    assert_eq!(decoded["params"][0]["param_type"], "int32");
    assert_eq!(decoded["params"][1]["param_type"], "real32");
}

#[test]
fn stored_ack_round_trips() {
    let mut bytes = vec![MSG_TYPE_SNAPSHOT_STORED];
    bytes.extend_from_slice(br#"{"board_identity":"uid:3034510f33323831","stored":true}"#);

    let decoded = read_ack(&bytes).expect("valid ack");
    assert!(decoded.stored);
    assert_eq!(decoded.board_identity, "uid:3034510f33323831");
    assert_eq!(decoded.error, None);
}

#[test]
fn stored_ack_carries_a_persistence_failure() {
    // The browser could not persist (quota, storage disabled). Provisioning
    // must be able to tell this apart from success and abort.
    let mut bytes = vec![MSG_TYPE_SNAPSHOT_STORED];
    bytes.extend_from_slice(
        br#"{"board_identity":"uid:abc","stored":false,"error":"QuotaExceededError"}"#,
    );

    let decoded = read_ack(&bytes).expect("valid ack");
    assert!(!decoded.stored);
    assert_eq!(decoded.error.as_deref(), Some("QuotaExceededError"));
}

#[test]
fn malformed_ack_payload_is_rejected() {
    let mut bytes = vec![MSG_TYPE_SNAPSHOT_STORED];
    bytes.extend_from_slice(b"{not json");
    assert!(read_ack(&bytes).is_err());
}

#[test]
fn ack_missing_required_fields_is_rejected() {
    // "stored" is the whole point of the message; defaulting it to false would
    // turn a malformed ack into a silent provisioning abort, and defaulting it
    // to true would be catastrophic.
    let mut bytes = vec![MSG_TYPE_SNAPSHOT_STORED];
    bytes.extend_from_slice(br#"{"board_identity":"uid:abc"}"#);
    assert!(read_ack(&bytes).is_err());
}

#[test]
fn ack_with_wrong_message_type_is_rejected() {
    let mut bytes = vec![MSG_TYPE_CONFIGURE_BUILD];
    bytes.extend_from_slice(br#"{"board_identity":"uid:abc","stored":true}"#);
    assert!(matches!(
        SnapshotStored::body(&bytes),
        Err(ProtocolError::UnknownMessageType(_))
    ));
}

#[test]
fn empty_ack_is_rejected() {
    assert!(SnapshotStored::body(&[]).is_err());
    assert!(SnapshotStored::body(&[MSG_TYPE_SNAPSHOT_STORED]).is_err());
}

#[test]
fn incoming_dispatch_routes_the_ack() {
    let mut bytes = vec![MSG_TYPE_SNAPSHOT_STORED];
    bytes.extend_from_slice(br#"{"board_identity":"uid:abc","stored":true}"#);
    match IncomingMessage::from_bytes(&bytes).expect("dispatches") {
        IncomingMessage::SnapshotStored(json) => {
            let ack: Value = serde_json::from_slice(&json).unwrap();
            assert_eq!(ack["stored"], true);
        }
        other => panic!("expected SnapshotStored, got {other:?}"),
    }
}

#[test]
fn a_restore_frame_hands_on_its_json() {
    let mut bytes = vec![MSG_TYPE_RESTORE_SNAPSHOT];
    bytes.extend_from_slice(b"{}");
    assert_eq!(RestoreSnapshot::body(&bytes).unwrap(), b"{}");
    assert!(RestoreSnapshot::body(&[MSG_TYPE_RESTORE_SNAPSHOT]).is_err());
}

// ---- link state and capabilities ----

fn status(link_state: LinkState) -> ConnectionStatus {
    ConnectionStatus {
        connected: matches!(link_state, LinkState::Connected),
        reconnecting: matches!(link_state, LinkState::Reconnecting),
        retry_count: 0,
        serial_port: String::new(),
        fc_model: None,
        bootloader_suspected: matches!(link_state, LinkState::SuspectedBootloader),
        link_state,
    }
}

#[test]
fn a_first_scan_is_distinguishable_from_a_reconnect() {
    // Both report connected: false, reconnecting: true on the wire. Without
    // link_state a first-time user is told their board is "reconnecting" to
    // something it was never connected to.
    assert_ne!(
        status(LinkState::Searching).link_state,
        status(LinkState::Reconnecting).link_state
    );
}

#[test]
fn a_silent_board_is_distinguishable_from_an_absent_one() {
    // Present but quiet means firmware flashing or a bootloader dwell, and the
    // remedy ("wait, do not unplug") is the opposite of the remedy for an
    // absent board ("plug it in").
    assert_ne!(
        status(LinkState::SuspectedBootloader).link_state,
        status(LinkState::Searching).link_state
    );
}

#[test]
fn capabilities_encode_with_their_message_type() {
    let caps = Capabilities::current("0.14.0".to_string());
    let json = format!(
        "{{\"daemon_version\":\"{}\",\"protocol_revision\":{}}}",
        caps.daemon_version, caps.protocol_revision
    );
    let bytes = OutgoingMessage::Capabilities(caps).to_bytes(json.as_bytes());
    assert_eq!(bytes[0], MSG_TYPE_CAPABILITIES);

    let body: Value = serde_json::from_slice(&bytes[1..]).unwrap();
    assert_eq!(body["daemon_version"], "0.14.0");
    assert_eq!(body["protocol_revision"], PROTOCOL_REVISION);
}

#[test]
fn every_feature_this_change_added_is_advertised() {
    // A client gates on these names, so a feature that ships without its name
    // here is invisible and will never be used.
    let caps = Capabilities::current("0.14.0".to_string());
    for expected in [
        "param_snapshot",
        "param_restore",
        "board_identity",
        "heartbeat_probe",
        "provisioning_broadcast",
        "link_state",
    ] {
        assert!(
            caps.features.iter().any(|f| f == expected),
            "{expected} is implemented but not advertised"
        );
    }
}

#[test]
fn feature_names_are_stable_identifiers() {
    // Clients match these literally; renaming one silently disables the feature
    // for every client that has shipped.
    for feature in daemon_features() {
        assert!(
            feature.chars().all(|c| c.is_ascii_lowercase() || c == '_'),
            "{feature} is not a stable snake_case identifier"
        );
    }
}

#[test]
fn json_messages_are_framed_by_their_tag() {
    let status = PreflightStatus {
        connected: true,
        hitl_enabled: false,
        is_quadrotor: true,
        readiness: PreflightReadiness::NotReady,
        board_identity: None,
    };
    let msg = OutgoingMessage::PreflightStatus(status);
    assert!(msg.carries_json());
    assert_eq!(
        msg.to_bytes(b"{}"),
        vec![MSG_TYPE_PREFLIGHT_STATUS, b'{', b'}']
    );
    let update = OutgoingMessage::StateUpdate(StateUpdate::default());
    assert!(!update.carries_json());
    assert_eq!(update.to_bytes(&[]).len(), STATE_UPDATE_SIZE);
}

// ---- flight location ----

fn build(flight_location: Option<(f64, f64)>, origin_elevation_msl: Option<f64>) -> ConfigureBuild {
    ConfigureBuild {
        motor_slug: "m".to_string(),
        prop_slug: None,
        prop_diameter_inches: wide(5.0),
        frame_weight_g: wide(250.0),
        battery_voltage: default_battery_voltage(),
        battery_capacity_mah: default_battery_capacity_mah(),
        battery_cell_count: default_battery_cell_count(),
        esc_slug: None,
        fc_slug: None,
        frame_slug: None,
        battery_slug: None,
        gps_slug: None,
        esc_count: default_esc_count(),
        flight_location: flight_location.map(|(lat, lon)| FlightLocation {
            lat: wide(lat),
            lon: wide(lon),
        }),
        origin_elevation_msl: origin_elevation_msl.map(wide),
        gyro_noise_density: None,
        accel_noise_density: None,
        baro_noise_sigma: None,
        mag_noise_sigma: None,
        gps_horizontal_noise: None,
        gps_altitude_noise: None,
        gps_velocity_noise: None,
        sensor_match_type: None,
    }
}

#[test]
fn a_chosen_location_is_the_one_used() {
    let cfg = build(Some((51.5, -0.12)), None);
    let loc = cfg.resolve_flight_location().expect("valid");
    assert_eq!(degrees(loc.lat), 51.5);
    assert_eq!(degrees(loc.lon), -0.12);
}

#[test]
fn an_absent_location_falls_back_to_the_default_rather_than_failing() {
    // A browser that predates location selection must degrade, not break.
    let cfg = build(None, None);
    assert!(cfg.flight_location.is_none());
    assert_eq!(
        cfg.resolve_flight_location().expect("defaults"),
        FlightLocation::default_origin()
    );
    assert_eq!(degrees(FlightLocation::default_origin().lat), 40.0150);
    assert_eq!(degrees(FlightLocation::default_origin().lon), -105.2705);
}

#[test]
fn an_out_of_range_latitude_fails_and_names_the_field() {
    let cfg = build(Some((91.0, 0.0)), None);
    let err = cfg.resolve_flight_location().expect_err("rejected").text("91");
    assert!(err.contains("lat"), "error should name the field: {err}");
}

#[test]
fn an_out_of_range_longitude_fails_and_names_the_field() {
    let cfg = build(Some((0.0, -180.5)), None);
    let err = cfg
        .resolve_flight_location()
        .expect_err("rejected")
        .text("-180.5");
    assert!(err.contains("lon"), "error should name the field: {err}");
    assert_eq!(
        err,
        "flight_location.lon -180.5 out of range (-180..=180)"
    );
}

#[test]
fn the_range_boundaries_are_inclusive() {
    for (lat, lon) in [(90.0, 180.0), (-90.0, -180.0)] {
        let cfg = build(Some((lat, lon)), None);
        assert!(
            cfg.resolve_flight_location().is_ok(),
            "({lat}, {lon}) is a real point on Earth"
        );
    }
}

#[test]
fn non_finite_coordinates_are_rejected() {
    // NaN fails every comparison, so a range check alone would admit it and it
    // would then poison every tile coord and sensor reading downstream.
    for bad in [f64::NAN, f64::INFINITY, f64::NEG_INFINITY] {
        assert_eq!(
            FlightLocation {
                lat: wide(bad),
                lon: wide(0.0)
            }
            .validate(),
            Err(LocationFault::LatNotFinite),
            "lat {bad} must be rejected"
        );
        assert_eq!(
            FlightLocation {
                lat: wide(0.0),
                lon: wide(bad)
            }
            .validate(),
            Err(LocationFault::LonNotFinite),
            "lon {bad} must be rejected"
        );
    }
}

#[test]
fn origin_elevation_is_optional_and_distinguishes_unknown_from_zero() {
    // Sea level is a real datum; "no data covered the origin" is not the same
    // answer and must not collapse into it.
    assert_eq!(build(None, None).origin_elevation_msl, None);
    assert_eq!(
        build(None, Some(0.0)).origin_elevation_msl.map(degrees),
        Some(0.0)
    );
    assert_eq!(
        build(None, Some(1655.0)).origin_elevation_msl.map(degrees),
        Some(1655.0)
    );
}

#[test]
fn a_build_request_that_is_not_text_is_refused() {
    let err = ConfigureBuild::body(&[MSG_TYPE_CONFIGURE_BUILD, 0xFF, 0xFE]).unwrap_err();
    assert_eq!(
        err.text(),
        "Invalid payload for command type Arm: ConfigureBuild: invalid UTF-8"
    );
    assert_eq!(
        ConfigureBuild::body(&[MSG_TYPE_CONFIGURE_BUILD, b'{', b'}']).unwrap(),
        "{}"
    );
}

// ---- terrain frames ----

const SHARED_WIRE_FIXTURE_HEX: &str = "186e0000007b226f726967696e223a7b226c6174223a34302e302c226c6f6e223a2d3130352e32377d2c2274696c655f73697a65223a322c22636f6f726473223a5b7b2278223a333430312c2279223a363230322c227a223a31347d5d2c22617070726f78696d617465223a5b747275655d7d0000c03f000010c00000964300000000";

fn header_json(h: &TerrainTilesHeader) -> Vec<u8> {
    let coords: Vec<String> = h
        .coords
        .iter()
        .map(|c| format!("{{\"x\":{},\"y\":{},\"z\":{}}}", c.x, c.y, c.z))
        .collect();
    let flags: Vec<String> = h.approximate.iter().map(|b| format!("{b}")).collect();
    format!(
        "{{\"origin\":{{\"lat\":{:?},\"lon\":{:?}}},\"tile_size\":{},\"coords\":[{}],\"approximate\":[{}]}}",
        degrees(h.origin.lat),
        degrees(h.origin.lon),
        h.tile_size,
        coords.join(","),
        flags.join(",")
    )
    .into_bytes()
}

fn whole(v: &Value) -> u32 {
    v.as_u64().unwrap() as u32
}

fn read_header(json: &[u8]) -> Result<TerrainTilesHeader, String> {
    let v: Value = serde_json::from_slice(json).map_err(|e| e.to_string())?;
    Ok(TerrainTilesHeader {
        origin: FlightLocation {
            lat: wide(v["origin"]["lat"].as_f64().unwrap()),
            lon: wide(v["origin"]["lon"].as_f64().unwrap()),
        },
        tile_size: whole(&v["tile_size"]),
        coords: v["coords"]
            .as_array()
            .unwrap()
            .iter()
            .map(|c| WireTileCoord {
                x: whole(&c["x"]),
                y: whole(&c["y"]),
                z: whole(&c["z"]),
            })
            .collect(),
        approximate: v["approximate"]
            .as_array()
            .unwrap()
            .iter()
            .map(|b| b.as_bool().unwrap())
            .collect(),
    })
}

fn encode(f: &TerrainTiles) -> Vec<u8> {
    f.to_bytes(&header_json(&f.header))
}

fn decode(bytes: &[u8]) -> Result<TerrainTiles, String> {
    let end = TerrainTiles::header_end(bytes).map_err(|e| e.text())?;
    let header = read_header(&bytes[5..end])?;
    TerrainTiles::from_parts(header, bytes, end).map_err(|e| e.text())
}

fn shared_fixture() -> TerrainTiles {
    TerrainTiles {
        header: TerrainTilesHeader {
            origin: FlightLocation {
                lat: wide(40.0),
                lon: wide(-105.27),
            },
            tile_size: 2,
            coords: vec![WireTileCoord {
                x: 3401,
                y: 6202,
                z: 14,
            }],
            approximate: vec![true],
        },
        tiles: vec![vec![r32(1.5), r32(-2.25), r32(300.0), r32(0.0)]],
    }
}

fn fixture_bytes() -> Vec<u8> {
    (0..SHARED_WIRE_FIXTURE_HEX.len() / 2)
        .map(|i| u8::from_str_radix(&SHARED_WIRE_FIXTURE_HEX[i * 2..i * 2 + 2], 16).unwrap())
        .collect()
}

#[test]
fn the_wire_format_matches_the_shared_fixture() {
    let hex: String = encode(&shared_fixture())
        .iter()
        .map(|b| format!("{b:02x}"))
        .collect();
    assert_eq!(hex, SHARED_WIRE_FIXTURE_HEX);
}

#[test]
fn the_shared_fixture_decodes_back_to_its_values() {
    let decoded = decode(&fixture_bytes()).expect("decodes");
    let expected = shared_fixture();
    assert_eq!(decoded.header.origin, expected.header.origin);
    assert_eq!(decoded.header.tile_size, expected.header.tile_size);
    assert_eq!(decoded.header.coords, expected.header.coords);
    assert_eq!(decoded.header.approximate, expected.header.approximate);
    assert_eq!(decoded.tiles, expected.tiles);
}

const T: usize = 4; // tiny tile edge; the format does not care about 256

fn coord(x: u32, y: u32) -> WireTileCoord {
    WireTileCoord { x, y, z: 14 }
}

fn frame(coords: Vec<WireTileCoord>) -> TerrainTiles {
    let tiles = coords
        .iter()
        .enumerate()
        .map(|(i, _)| (0..T * T).map(|s| r32((i * 100 + s) as f32)).collect())
        .collect();
    TerrainTiles {
        header: TerrainTilesHeader {
            origin: FlightLocation::default_origin(),
            tile_size: T as u32,
            approximate: vec![false; coords.len()],
            coords,
        },
        tiles,
    }
}

#[test]
fn the_new_message_bytes_collide_with_nothing() {
    let used = [
        MSG_TYPE_STATE_UPDATE,
        MSG_TYPE_HANDSHAKE_ACK,
        MSG_TYPE_COMMAND_ACK,
        MSG_TYPE_NSH_RESPONSE,
        MSG_TYPE_CONNECTION_STATUS,
        MSG_TYPE_VEHICLE_MESSAGE,
        MSG_TYPE_SHUTDOWN,
        MSG_TYPE_CONFIG_RESULT,
        MSG_TYPE_TERRAIN_ORIGIN,
        MSG_TYPE_PREFLIGHT_STATUS,
        MSG_TYPE_PREFLIGHT_APPLY_RESULT,
        MSG_TYPE_SNAPSHOT_CAPTURED,
        MSG_TYPE_RESTORE_RESULT,
        MSG_TYPE_CAPABILITIES,
        MSG_TYPE_COMMAND,
        MSG_TYPE_HANDSHAKE,
        MSG_TYPE_NSH_COMMAND,
        MSG_TYPE_CONFIGURE_BUILD,
        MSG_TYPE_REQUEST_PREFLIGHT_CHECK,
        MSG_TYPE_APPLY_PREFLIGHT_PARAMS,
        MSG_TYPE_SNAPSHOT_STORED,
        MSG_TYPE_RESTORE_SNAPSHOT,
    ];
    for existing in used {
        assert_ne!(MSG_TYPE_TERRAIN_NEED, existing, "0x0F already taken");
        assert_ne!(MSG_TYPE_TERRAIN_TILES, existing, "0x18 already taken");
    }
    assert_ne!(MSG_TYPE_TERRAIN_NEED, MSG_TYPE_TERRAIN_TILES);
}

fn need_json(need: &TerrainNeed) -> Vec<u8> {
    let coords: Vec<String> = need
        .coords
        .iter()
        .map(|c| format!("{{\"x\":{},\"y\":{},\"z\":{}}}", c.x, c.y, c.z))
        .collect();
    format!("{{\"coords\":[{}]}}", coords.join(",")).into_bytes()
}

#[test]
fn terrain_need_round_trips_through_its_tag() {
    let need = TerrainNeed {
        coords: vec![coord(3401, 6202), coord(3402, 6202)],
    };
    let bytes = need.to_bytes(&need_json(&need));
    assert_eq!(bytes[0], MSG_TYPE_TERRAIN_NEED);
    let decoded: Value = serde_json::from_slice(&bytes[1..]).unwrap();
    let coords: Vec<WireTileCoord> = decoded["coords"]
        .as_array()
        .unwrap()
        .iter()
        .map(|c| WireTileCoord {
            x: whole(&c["x"]),
            y: whole(&c["y"]),
            z: whole(&c["z"]),
        })
        .collect();
    assert_eq!(coords, need.coords);
}

#[test]
fn an_empty_need_is_representable() {
    // The steady state. It is not normally sent, but must not be malformed.
    let need = TerrainNeed { coords: vec![] };
    let bytes = need.to_bytes(&need_json(&need));
    let decoded: Value = serde_json::from_slice(&bytes[1..]).unwrap();
    assert!(decoded["coords"].as_array().unwrap().is_empty());
}

#[test]
fn terrain_tiles_round_trip_exactly() {
    let original = frame(vec![coord(3401, 6202), coord(3402, 6202)]);
    let decoded = decode(&encode(&original)).expect("round-trips");
    assert_eq!(decoded.header.coords, original.header.coords);
    assert_eq!(decoded.header.origin, original.header.origin);
    assert_eq!(decoded.tiles, original.tiles);
    // Heights survive bit-exact: these are the numbers the physics collides
    // against and the viewer draws, so any lossy step here is a divergence.
    assert_eq!(number(decoded.tiles[1][5]), 105.0);
}

/// The padded form a browser sends once it can use `Float32Array.set`: the
/// payload starts at the next 4-byte boundary after the header.
fn encode_padded(f: &TerrainTiles) -> Vec<u8> {
    let header = header_json(&f.header);
    let mut buf = vec![MSG_TYPE_TERRAIN_TILES];
    buf.extend_from_slice(&(header.len() as u32).to_le_bytes());
    buf.extend_from_slice(&header);
    let pad = (4 - (buf.len() % 4)) % 4;
    buf.extend(std::iter::repeat(0u8).take(pad));
    for tile in &f.tiles {
        for h in tile {
            buf.extend_from_slice(&h.bits.to_le_bytes());
        }
    }
    buf
}

#[test]
fn a_padded_payload_decodes_to_the_same_tiles() {
    // A browser cannot use `Float32Array.set` unless the payload begins on a
    // 4-byte boundary, and without it pays a `DataView.setFloat32` per sample.
    let original = frame(vec![coord(3401, 6202), coord(3402, 6202)]);
    let decoded = decode(&encode_padded(&original)).expect("decodes");
    assert_eq!(decoded.header.coords, original.header.coords);
    assert_eq!(decoded.tiles, original.tiles);
    assert_eq!(
        number(decoded.tiles[1][5]),
        105.0,
        "heights survive bit-exact"
    );
}

#[test]
fn the_unpadded_form_still_decodes() {
    // This daemon has to keep reading what every already-installed browser
    // sends, or the release takes terrain away from anyone who has not updated
    // both halves at once.
    let original = frame(vec![coord(1, 2)]);
    let bytes = encode(&original);
    let pad = (4 - (bytes.len() - original.tiles.len() * T * T * 4) % 4) % 4;
    assert_ne!(pad, 0, "fixture must exercise a header that needs padding");

    let decoded = decode(&bytes).expect("decodes");
    assert_eq!(decoded.tiles, original.tiles);
}

#[test]
fn a_payload_of_the_wrong_size_is_still_rejected() {
    // Accepting two placements must not become accepting any length: the padded
    // branch is reachable only for 1-3 extra bytes.
    let original = frame(vec![coord(1, 2)]);
    let mut bytes = encode(&original);
    bytes.extend_from_slice(&[0u8; 8]);
    assert!(decode(&bytes).is_err(), "eight trailing bytes is not padding");

    let mut short = encode(&original);
    short.truncate(short.len() - 4);
    assert!(decode(&short).is_err(), "a short payload is rejected");
}

#[test]
fn padding_bytes_are_not_inspected() {
    // They carry nothing. Refusing a well-formed payload over filler would be
    // rejecting the tiles for the sake of bytes with no meaning.
    let original = frame(vec![coord(7, 8)]);
    let mut bytes = encode_padded(&original);
    let header_len = u32::from_le_bytes([bytes[1], bytes[2], bytes[3], bytes[4]]) as usize;
    let header_end = 5 + header_len;
    let pad = (4 - (header_end % 4)) % 4;
    assert_ne!(pad, 0, "fixture must exercise real padding");
    for i in 0..pad {
        bytes[header_end + i] = 0xAB;
    }
    let decoded = decode(&bytes).expect("decodes despite non-zero padding");
    assert_eq!(decoded.tiles, original.tiles);
}

#[test]
fn terrain_tiles_dispatches_from_incoming_message() {
    let bytes = encode(&frame(vec![coord(1, 2)]));
    match IncomingMessage::from_bytes(&bytes).expect("dispatches") {
        IncomingMessage::TerrainTiles(end) => {
            let header = read_header(&bytes[5..end]).unwrap();
            let t = TerrainTiles::from_parts(header, &bytes, end).unwrap();
            assert_eq!(t.header.coords, vec![coord(1, 2)]);
            assert_eq!(t.tiles.len(), 1);
        }
        other => panic!("wrong variant: {other:?}"),
    }
}

#[test]
fn a_payload_that_does_not_match_the_declared_tile_size_is_rejected() {
    let mut bytes = encode(&frame(vec![coord(1, 2)]));
    bytes.truncate(bytes.len() - 4); // drop one sample
    let err = decode(&bytes).expect_err("rejected");
    assert!(
        err.contains("payload bytes"),
        "should name the mismatch: {err}"
    );
}

#[test]
fn a_truncated_header_is_rejected_rather_than_read_as_heights() {
    let bytes = encode(&frame(vec![coord(1, 2)]));
    for cut in [1usize, 4, 6] {
        assert!(
            decode(&bytes[..cut]).is_err(),
            "a {cut}-byte frame must not parse"
        );
    }
}

#[test]
fn a_zero_tile_size_is_rejected_before_it_divides_anything() {
    let mut f = frame(vec![coord(1, 2)]);
    f.header.tile_size = 0;
    f.tiles = vec![vec![]];
    let err = decode(&encode(&f)).expect_err("rejected");
    assert!(err.contains("tile_size"), "{err}");
}

#[test]
fn mismatched_approximate_flags_are_rejected() {
    // A positional array that does not line up would mislabel provenance, and
    // provenance drives the "approximate terrain" warning.
    let mut f = frame(vec![coord(1, 2), coord(2, 2)]);
    f.header.approximate = vec![true];
    let err = decode(&encode(&f)).expect_err("rejected");
    assert!(err.contains("approximate"), "{err}");
}

#[test]
fn an_oversized_frame_is_refused_without_allocating_it() {
    let bytes = vec![MSG_TYPE_TERRAIN_TILES; MAX_FRAME_BYTES + 1];
    let err = decode(&bytes).err().expect("rejected");
    assert!(err.contains("exceeds"), "{err}");
}

#[test]
fn a_wrong_tag_byte_is_refused() {
    let mut bytes = encode(&frame(vec![coord(1, 2)]));
    bytes[0] = MSG_TYPE_COMMAND;
    assert!(decode(&bytes).is_err());
}
