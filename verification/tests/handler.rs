use hitl_daemon::exchange::SendOutcome;
use hitl_daemon::handler::commands::{command_forwarded, validate_command};
use hitl_daemon::handler::connection::{Action, ConnectionHandler, Services};
use hitl_daemon::handler::rate_limit::{RateLimiter, MAX_COMMANDS_PER_WINDOW};
use hitl_daemon::handler::shell::shell_forwarded;
use hitl_daemon::ieee::Real32;
use hitl_daemon::nsh::{ekf_start_command, ekf_stop_command, reboot_command};
use hitl_daemon::protocol::command::Command;
use hitl_daemon::protocol::config::ConfigState;
use hitl_daemon::protocol::envelope::OutgoingMessage;
use hitl_daemon::protocol::frames::NshCommand;
use hitl_daemon::protocol::provisioning::{
    PreflightApplyState, PreflightReadiness, RestoreState,
};
use hitl_daemon::protocol::tags::{
    CommandType, MSG_TYPE_APPLY_PREFLIGHT_PARAMS, MSG_TYPE_CONFIGURE_BUILD, MSG_TYPE_HANDSHAKE,
    MSG_TYPE_REQUEST_PREFLIGHT_CHECK, MSG_TYPE_RESTORE_SNAPSHOT, MSG_TYPE_SHUTDOWN,
    MSG_TYPE_SNAPSHOT_STORED,
};

fn r32(x: f32) -> Real32 {
    Real32::from_bits(x.to_bits())
}

const NOTHING: Services = Services {
    shell: false,
    recharge: false,
    build_config: false,
    preflight: false,
};

const EVERYTHING: Services = Services {
    shell: true,
    recharge: true,
    build_config: true,
    preflight: true,
};

fn handler(services: Services) -> ConnectionHandler {
    ConnectionHandler::new(1, 0, 0, "/dev/test".to_string(), services)
}

#[test]
fn test_handshake() {
    let handler = handler(NOTHING);
    match handler.handle_handshake() {
        OutgoingMessage::HandshakeAck(ack) => {
            assert_eq!(ack.version_major, 1);
            assert_eq!(ack.version_minor, 0);
            assert!(!ack.pixhawk_connected);
            assert_eq!(ack.serial_port, "/dev/test");
        }
        _ => panic!("Expected HandshakeAck"),
    }
}

#[test]
fn a_handshake_tells_whether_the_board_is_there() {
    let mut handler = handler(NOTHING);
    handler.set_pixhawk_connected(true);
    match handler.handle_message(1, &[MSG_TYPE_HANDSHAKE], 0) {
        Ok(Action::Reply(OutgoingMessage::HandshakeAck(ack))) => assert!(ack.pixhawk_connected),
        other => panic!("Expected HandshakeAck, got {other:?}"),
    }
}

#[test]
fn test_client_id_allocation() {
    let mut handler = handler(NOTHING);

    let id1 = handler.allocate_client_id();
    let id2 = handler.allocate_client_id();
    let id3 = handler.allocate_client_id();

    assert_eq!(id1, 1);
    assert_eq!(id2, 2);
    assert_eq!(id3, 3);
}

fn takeoff(command_id: u32, altitude: Option<f32>) -> Command {
    Command {
        command_id,
        command_type: CommandType::Takeoff,
        takeoff_altitude: altitude.map(r32),
        set_mode_value: None,
    }
}

#[test]
fn test_validate_takeoff_altitude() {
    // Valid altitude
    assert!(validate_command(&takeoff(1, Some(10.0))).is_ok());
    // Too low
    assert!(validate_command(&takeoff(2, Some(0.5))).is_err());
    // Too high
    assert!(validate_command(&takeoff(3, Some(150.0))).is_err());
    // Missing altitude
    assert!(validate_command(&takeoff(4, None)).is_err());
}

#[test]
fn the_altitude_limits_are_inclusive() {
    assert!(validate_command(&takeoff(1, Some(1.0))).is_ok());
    assert!(validate_command(&takeoff(1, Some(100.0))).is_ok());
}

#[test]
fn an_altitude_that_is_no_number_is_refused() {
    let limits = "Takeoff altitude must be between 1 and 100 meters".to_string();
    for altitude in [f32::NAN, -f32::NAN, f32::INFINITY, f32::NEG_INFINITY, -10.0, 0.999] {
        assert_eq!(validate_command(&takeoff(1, Some(altitude))), Err(limits.clone()));
    }
    assert_eq!(
        validate_command(&takeoff(1, None)),
        Err("Takeoff altitude not specified".to_string())
    );
}

#[test]
fn test_rate_limiting() {
    let mut limiter = RateLimiter::new();
    let client_id = 1;

    // Should allow MAX_COMMANDS_PER_WINDOW commands
    for _ in 0..MAX_COMMANDS_PER_WINDOW {
        assert!(limiter.check_rate_limit(client_id, 0).is_ok());
    }

    // Should reject the next one
    assert!(limiter.check_rate_limit(client_id, 0).is_err());
}

#[test]
fn the_limit_is_per_client_and_per_window() {
    let mut limiter = RateLimiter::new();
    for _ in 0..MAX_COMMANDS_PER_WINDOW {
        assert!(limiter.check_rate_limit(1, 0).is_ok());
    }
    assert!(limiter.check_rate_limit(2, 0).is_ok());
    assert!(limiter.check_rate_limit(1, 1000).is_err());
    assert!(limiter.check_rate_limit(1, 1001).is_ok());
    limiter.cleanup_client(2);
    assert!(limiter.check_rate_limit(2, 0).is_ok());
}

fn arm() -> Command {
    Command {
        command_id: 42,
        command_type: CommandType::Arm,
        takeoff_altitude: None,
        set_mode_value: None,
    }
}

#[test]
fn test_command_forwarding() {
    let mut handler = handler(NOTHING);
    let client_id = handler.allocate_client_id();

    match handler.handle_message(client_id, &arm().to_bytes(), 0) {
        Ok(Action::Forward(validated)) => {
            // Command should be forwarded
            assert_eq!(validated.command.command_id, 42);
            assert_eq!(validated.command.command_type, CommandType::Arm);
            assert_eq!(validated.client_id, client_id);
        }
        other => panic!("Expected a forward, got {other:?}"),
    }

    // Should get success ACK
    let ack = command_forwarded(42, true);
    assert!(ack.success);
    assert_eq!(ack.command_id, 42);
}

#[test]
fn a_command_that_cannot_be_delivered_is_refused() {
    let ack = command_forwarded(42, false);
    assert!(!ack.success);
    assert_eq!(
        ack.error.as_deref(),
        Some("Internal error: command channel closed")
    );
}

#[test]
fn commands_over_the_limit_are_refused() {
    let mut handler = handler(NOTHING);
    for _ in 0..MAX_COMMANDS_PER_WINDOW {
        assert!(matches!(
            handler.handle_message(1, &arm().to_bytes(), 5),
            Ok(Action::Forward(_))
        ));
    }
    match handler.handle_message(1, &arm().to_bytes(), 5) {
        Ok(Action::Reply(OutgoingMessage::CommandAck(ack))) => assert!(!ack.success),
        other => panic!("Expected a refusal, got {other:?}"),
    }
    handler.cleanup_client(1);
    assert!(matches!(
        handler.handle_message(1, &arm().to_bytes(), 5),
        Ok(Action::Forward(_))
    ));
}

#[test]
fn a_recharge_needs_a_battery_to_recharge() {
    let recharge = Command {
        command_id: 7,
        command_type: CommandType::Recharge,
        takeoff_altitude: None,
        set_mode_value: None,
    };
    match handler(NOTHING).handle_message(1, &recharge.to_bytes(), 0) {
        Ok(Action::Reply(OutgoingMessage::CommandAck(ack))) => assert!(!ack.success),
        other => panic!("Expected a refusal, got {other:?}"),
    }
    match handler(EVERYTHING).handle_message(1, &recharge.to_bytes(), 0) {
        Ok(Action::Recharge(OutgoingMessage::CommandAck(ack))) => {
            assert!(ack.success);
            assert_eq!(ack.command_id, 7);
        }
        other => panic!("Expected a recharge, got {other:?}"),
    }
}

#[test]
fn preflight_check_without_handler_reports_disconnected() {
    let response = handler(NOTHING)
        .handle_message(1, &[MSG_TYPE_REQUEST_PREFLIGHT_CHECK], 0)
        .unwrap();
    match response {
        Action::Reply(OutgoingMessage::PreflightStatus(status)) => {
            assert!(!status.connected);
            assert!(!status.hitl_enabled);
            assert!(!status.is_quadrotor);
            assert_eq!(status.readiness, PreflightReadiness::NotApplicable);
        }
        _ => panic!("Expected PreflightStatus"),
    }
}

#[test]
fn preflight_apply_without_handler_reports_error() {
    let response = handler(NOTHING)
        .handle_message(1, &[MSG_TYPE_APPLY_PREFLIGHT_PARAMS], 0)
        .unwrap();
    match response {
        Action::Reply(OutgoingMessage::PreflightApplyResult(result)) => {
            assert!(!result.success);
            assert!(matches!(result.state, PreflightApplyState::Error));
        }
        _ => panic!("Expected PreflightApplyResult"),
    }
}

#[test]
fn preflight_requests_are_dispatched_where_there_is_a_handler() {
    // A cycle takes most of a minute: it must not be answered inline.
    let mut handler = handler(EVERYTHING);
    assert!(matches!(
        handler.handle_message(1, &[MSG_TYPE_APPLY_PREFLIGHT_PARAMS], 0),
        Ok(Action::Apply)
    ));
    assert!(matches!(
        handler.handle_message(1, &[MSG_TYPE_REQUEST_PREFLIGHT_CHECK], 0),
        Ok(Action::CheckPreflight)
    ));
    match handler.handle_message(1, &[MSG_TYPE_RESTORE_SNAPSHOT, b'{', b'}'], 0) {
        Ok(Action::Restore(json)) => assert_eq!(json, b"{}"),
        other => panic!("Expected a restore, got {other:?}"),
    }
    match handler.handle_message(1, &[MSG_TYPE_SNAPSHOT_STORED, b'{', b'}'], 0) {
        Ok(Action::SnapshotStored(json)) => assert_eq!(json, b"{}"),
        other => panic!("Expected a confirmation, got {other:?}"),
    }
    match handler.handle_message(1, &[MSG_TYPE_CONFIGURE_BUILD, b'{', b'}'], 0) {
        Ok(Action::Configure(json)) => assert_eq!(json, "{}"),
        other => panic!("Expected a configuration, got {other:?}"),
    }
}

#[test]
fn a_session_refuses_what_it_does_not_have() {
    let h = handler(NOTHING);
    let refusal = h.build_refusal().unwrap();
    assert_eq!(refusal.state, ConfigState::Error);
    assert_eq!(
        refusal.error.as_deref(),
        Some("Build configuration not available")
    );
    let refusal = h.restore_refusal().unwrap();
    assert_eq!(refusal.state, RestoreState::Error);
    assert_eq!(
        refusal.error.as_deref(),
        Some("Restore is unavailable in this session")
    );
    let mut h = handler(EVERYTHING);
    assert!(h.build_refusal().is_none());
    assert!(h.restore_refusal().is_none());
    h.set_services(NOTHING);
    assert!(h.build_refusal().is_some());
}

#[test]
fn a_browser_can_shut_the_daemon_down() {
    let mut h = handler(NOTHING);
    assert!(!h.shutdown_requested());
    assert!(matches!(
        h.handle_message(1, &[MSG_TYPE_SHUTDOWN], 0),
        Ok(Action::Shutdown)
    ));
    assert!(h.shutdown_requested());
}

#[test]
fn an_unreadable_message_is_an_error_and_changes_nothing() {
    let mut h = handler(EVERYTHING);
    assert_eq!(
        h.handle_message(1, &[0xFF], 0).unwrap_err(),
        "Unknown message type: 0xFF"
    );
    assert_eq!(
        h.handle_message(1, &[], 0).unwrap_err(),
        "Message too short: expected at least 1 bytes, got 0"
    );
}

// ---- the shell ----

fn shell(command: &str, timeout_ms: u16) -> Vec<u8> {
    NshCommand {
        request_id: 9,
        timeout_ms,
        command: command.to_string(),
    }
    .to_bytes()
}

fn refused(services: Services, command: &str) -> String {
    match handler(services).handle_message(1, &shell(command, 0), 0) {
        Ok(Action::Reply(OutgoingMessage::NshResponse(r))) => {
            assert_eq!(r.request_id, 9);
            assert!(!r.success);
            assert!(r.complete);
            r.output
        }
        other => panic!("Expected a refusal, got {other:?}"),
    }
}

#[test]
fn shell_commands_are_forwarded_with_their_timeout() {
    match handler(EVERYTHING).handle_message(3, &shell("ver all", 1500), 0) {
        Ok(Action::ForwardShell(c)) => {
            assert_eq!(c.request_id, 9);
            assert_eq!(c.command, "ver all");
            assert_eq!(c.timeout_ms, 1500);
            assert_eq!(c.client_id, 3);
        }
        other => panic!("Expected a forward, got {other:?}"),
    }
}

#[test]
fn dangerous_shell_commands_are_blocked_however_they_are_written() {
    for command in ["shutdown", "  SHUTDOWN  ", "erase", "format /dev/sd"] {
        let output = refused(EVERYTHING, command);
        assert!(output.contains("blocked"), "{command}: {output}");
    }
    // A command that merely begins with the same letters is another command.
    assert!(matches!(
        handler(EVERYTHING).handle_message(1, &shell("formatter", 0), 0),
        Ok(Action::ForwardShell(_))
    ));
}

#[test]
fn shell_commands_need_a_shell_and_a_sensible_length() {
    assert!(!refused(NOTHING, "ver all").is_empty());
    assert_eq!(refused(EVERYTHING, ""), "Empty command");
    assert!(!refused(EVERYTHING, &"x".repeat(257)).is_empty());
}

#[test]
fn a_shell_request_is_answered_by_what_became_of_it() {
    let r = shell_forwarded(9, SendOutcome::Queued);
    assert!(r.success && !r.complete && r.output.is_empty());
    let r = shell_forwarded(9, SendOutcome::Full);
    assert!(!r.success && r.complete);
    assert_eq!(r.output, "NSH busy — previous command still in progress");
    let r = shell_forwarded(9, SendOutcome::Disconnected);
    assert!(!r.success && r.complete);
}

#[test]
fn the_daemons_own_shell_commands() {
    assert_eq!(reboot_command().command, "reboot");
    assert_eq!(ekf_stop_command().command, "ekf2 stop");
    assert_eq!(ekf_start_command().command, "ekf2 start");
}
