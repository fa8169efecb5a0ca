use hitl_daemon::board_identity::BoardIdentity;
use hitl_daemon::exchange::{ParamWrite, PushStep, SendOutcome, WriteValue, PARAM_RETRY_COUNT};
use hitl_daemon::ieee::Real32;
use hitl_daemon::mavlink_io::heartbeat::{
    Heartbeat, MODE_FLAG_HIL_ENABLED, VEHICLE_TYPE_QUADROTOR,
};
use hitl_daemon::param_io::{
    bits_i32, decode_param_id, make_param_save, make_param_set_i32, ParamReadError, ParamReadPolicy,
    ParamSet, ParamType, ParamValue, CMD_PREFLIGHT_STORAGE,
};
use hitl_daemon::param_read::ParamReads;
use hitl_daemon::preflight::apply::{
    ApplyFailure, CyclePhase, Provisioning, ProvisioningInput, PROVISION_ATTEMPTS,
};
use hitl_daemon::preflight::capture::{
    ack_verdict, AckEvent, Capture, CaptureEvent, CaptureStep,
};
use hitl_daemon::preflight::handler::{PreflightHandler, CYCLE_COOLDOWN_MS};
use hitl_daemon::preflight::restart::{
    delivery_message, CycleEvent, Delivery, DeliveryStep, Reconnect, ReconnectVerdict, RestartPhase,
    PARAM_SAVE_SETTLE_DELAY_MS, PREFLIGHT_QUIET_PERIOD_MS, PREFLIGHT_RECONNECT_POLL_INTERVAL_MS,
    RESTORE_SEND_ATTEMPTS,
};
use hitl_daemon::preflight::restore::{
    restore_verdict, writes_of, RestoreCycle, RestorePhase, WriteStep,
};
use hitl_daemon::preflight::tables::{
    heartbeat_hitl_signals, provisioned_param_names, provisioning_writes, PROVISIONED_PARAM_COUNT,
};
use hitl_daemon::protocol::provisioning::{
    PreflightApplyResult, PreflightApplyState, PreflightReadiness, RestoreResult, RestoreSnapshot,
    RestoreState, SnapshotCaptured, SnapshotParam, SnapshotStored,
};

fn r32(x: f32) -> Real32 {
    Real32::from_bits(x.to_bits())
}

fn number(x: Real32) -> f32 {
    f32::from_bits(x.bits)
}

// ---- what a heartbeat tells ----

const CUSTOM_MODE_ENABLED: u8 = 1;
const SAFETY_ARMED: u8 = 128;
const FIXED_WING: u8 = 1;

fn heartbeat(base_mode: u8, vehicle_type: u8) -> Heartbeat {
    Heartbeat {
        custom_mode: 0,
        vehicle_type,
        autopilot: 12,
        base_mode,
        system_status: 4,
        mavlink_version: 3,
    }
}

#[test]
fn hitl_and_quadrotor_both_true() {
    let hb = heartbeat(MODE_FLAG_HIL_ENABLED, VEHICLE_TYPE_QUADROTOR);
    assert_eq!(heartbeat_hitl_signals(&hb), (true, true));
}

#[test]
fn hitl_flag_absent_reads_false() {
    let hb = heartbeat(0, VEHICLE_TYPE_QUADROTOR);
    assert_eq!(heartbeat_hitl_signals(&hb), (false, true));
}

#[test]
fn non_quadrotor_type_reads_false() {
    let hb = heartbeat(MODE_FLAG_HIL_ENABLED, FIXED_WING);
    assert_eq!(heartbeat_hitl_signals(&hb), (true, false));
}

#[test]
fn hil_flag_combined_with_other_flags_still_reads_true() {
    let hb = heartbeat(
        MODE_FLAG_HIL_ENABLED | CUSTOM_MODE_ENABLED | SAFETY_ARMED,
        VEHICLE_TYPE_QUADROTOR,
    );
    assert_eq!(heartbeat_hitl_signals(&hb), (true, true));
}

#[test]
fn make_param_set_i32_bit_encodes_value_and_declares_int32_type() {
    let p = make_param_set_i32("SYS_HITL", 1);
    assert_eq!(p.param_type, ParamType::Int32);
    assert_eq!(
        number(p.param_value).to_bits() as i32,
        1,
        "value must be bit-encoded, not numerically cast"
    );
    assert_ne!(
        number(p.param_value),
        1.0,
        "a literal 1.0 is exactly the wire encoding the board silently rejects"
    );
}

// ---- a board, a browser, and the loop between them and the library ----

/// A flight controller that remembers what was written to it.
struct Board {
    now: u64,
    count: u64,
    hitl: bool,
    quad: bool,
    held: Vec<(String, Real32)>,
    stuck: Vec<&'static str>,
    answers_reads: bool,
    acks_writes: bool,
    takes_effect_from: usize,
    comes_back: bool,
    writes: Vec<ParamSet>,
    commands: Vec<(u16, u64)>,
    shell: Vec<(&'static str, u64)>,
    back_at: Option<u64>,
}

impl Board {
    fn new() -> Board {
        Board {
            now: 1_000,
            count: 0,
            hitl: false,
            quad: false,
            held: Vec::new(),
            stuck: Vec::new(),
            answers_reads: true,
            acks_writes: true,
            takes_effect_from: 1,
            comes_back: true,
            writes: Vec::new(),
            commands: Vec::new(),
            shell: Vec::new(),
            back_at: None,
        }
    }

    fn heartbeats(&mut self) {
        if let Some(t) = self.back_at {
            if self.now >= t {
                self.count += 1;
                let effective = self.shell.len() >= self.takes_effect_from;
                self.hitl = effective;
                self.quad = effective;
                self.back_at = None;
            }
        }
    }

    fn reboot(&mut self) {
        self.shell.push(("reboot", self.now));
        if self.comes_back {
            self.back_at = Some(self.now + 4_200);
        }
    }

    /// The echo of a write, if the board sends one.
    fn write(&mut self, p: ParamSet) -> Option<ParamValue> {
        let name = decode_param_id(&p.param_id);
        if !self.acks_writes {
            self.writes.push(p);
            return None;
        }
        if !self.stuck.contains(&name.as_str()) {
            self.held.retain(|(n, _)| *n != name);
            self.held.push((name.clone(), p.param_value));
        }
        let echo =
            ParamValue { name, value: p.param_value, param_type: p.param_type, index: 0 };
        self.writes.push(p);
        Some(echo)
    }

    fn holds(&self, name: &str) -> Option<Real32> {
        self.held.iter().find(|(n, _)| n == name).map(|(_, v)| *v)
    }

    fn read(&self, name: &str) -> Result<ParamValue, ParamReadError> {
        if !self.answers_reads {
            return Err(ParamReadError::NoReply);
        }
        Ok(ParamValue {
            name: name.to_string(),
            value: self.holds(name).unwrap_or(r32(0.0)),
            param_type: ParamType::Int32,
            index: 0,
        })
    }

    fn read_all(&self, names: Vec<String>) -> (Vec<ParamValue>, Vec<String>) {
        let mut reads = ParamReads::start(names);
        loop {
            let name = match reads.next_name() {
                Some(n) => n.to_string(),
                None => return reads.finish(),
            };
            reads.record(self.read(&name));
        }
    }
}

/// How the browser deals with a restore point.
enum Browser {
    Stores,
    CannotStore,
    NeverAnswers,
    Gone,
}

fn distance(write: &ParamWrite, echo: &ParamValue) -> Real32 {
    match write.value {
        WriteValue::Int(_) => r32(0.0),
        WriteValue::Number(v) => r32((number(echo.value) - number(v)).abs()),
    }
}

/// Hand a write to the board and report what came of it.
fn exchange_write(board: &mut Board, write: &ParamWrite) -> CycleEvent {
    match board.write(write.message()) {
        Some(report) => {
            let distance = distance(write, &report);
            CycleEvent::Echo { report, distance }
        }
        None => CycleEvent::TimedOut,
    }
}

fn restart_event(board: &mut Board, phase: RestartPhase) -> CycleEvent {
    match phase {
        RestartPhase::Saving(_) => {
            board.commands.push((make_param_save().command, board.now));
            CycleEvent::Sent(SendOutcome::Queued)
        }
        RestartPhase::Settling => {
            board.now += PARAM_SAVE_SETTLE_DELAY_MS;
            CycleEvent::Settled { count: board.count }
        }
        RestartPhase::Rebooting { .. } => {
            board.reboot();
            CycleEvent::RebootSent { now_ms: board.now }
        }
        RestartPhase::Reconnecting(_) => {
            board.now += PREFLIGHT_RECONNECT_POLL_INTERVAL_MS;
            board.heartbeats();
            CycleEvent::Polled { count: board.count, now_ms: board.now }
        }
        other => panic!("nothing is due in {:?}", other),
    }
}

/// Capture the restore point.
fn capture(h: &mut PreflightHandler, board: &Board, browser: &Browser, p: &mut Provisioning) {
    let mut message: Option<SnapshotCaptured> = None;
    while let Some(c) = p.capture() {
        let event = match c.step() {
            CaptureStep::Read => {
                let (values, failed) = board.read_all(provisioned_param_names());
                CaptureEvent::Read { values, failed }
            }
            CaptureStep::Keep(_) => {
                message = h.keep_restore_point(p);
                continue;
            }
            CaptureStep::HandOver => {
                CaptureEvent::HandedOver { received: !matches!(browser, Browser::Gone) }
            }
            CaptureStep::AwaitAck => {
                let board_identity = message.as_ref().expect("handed over").board_identity.clone();
                CaptureEvent::Ack(match browser {
                    Browser::Gone => AckEvent::Closed,
                    Browser::NeverAnswers => AckEvent::TimedOut,
                    Browser::Stores => AckEvent::Acked(SnapshotStored {
                        board_identity,
                        stored: true,
                        error: None,
                    }),
                    Browser::CannotStore => AckEvent::Acked(SnapshotStored {
                        board_identity,
                        stored: false,
                        error: Some("QuotaExceededError".to_string()),
                    }),
                })
            }
            other => panic!("nothing is due in {:?}", other),
        };
        p.on_input(ProvisioningInput::Capture(event));
    }
}

/// A provisioning whose restore point is stored and whose writes are confirmed.
fn written(board: &mut Board) -> Provisioning {
    let mut h = handler();
    let mut p = Provisioning::start(h.capture_board());
    capture(&mut h, board, &Browser::Stores, &mut p);
    for i in 0..PROVISIONED_PARAM_COUNT {
        p.on_input(ProvisioningInput::Cycle(CycleEvent::Sent(SendOutcome::Queued)));
        let echo = exchange_write(board, p.cycle().expect("a cycle").write_at(i));
        p.on_input(ProvisioningInput::Cycle(echo));
    }
    p
}

/// Provision the board, noting every stage on the way.
fn run_apply(
    h: &mut PreflightHandler,
    board: &mut Board,
    browser: Browser,
    stages: &mut Vec<PreflightApplyState>,
) -> PreflightApplyResult {
    if let Some(refusal) = h.begin_apply(board.now) {
        return refusal;
    }
    let mut p = Provisioning::start(h.capture_board());
    stages.push(p.state());
    capture(h, board, &browser, &mut p);
    while p.result().is_none() {
        stages.push(p.state());
        let cycle = p.cycle().expect("a cycle is under way");
        let event = match cycle.phase() {
            CyclePhase::Pushing => match cycle.push_step() {
                PushStep::Send(_) => CycleEvent::Sent(SendOutcome::Queued),
                PushStep::Await(i) => exchange_write(board, cycle.write_at(i)),
                other => panic!("nothing is due in {:?}", other),
            },
            CyclePhase::Restarting(phase) => restart_event(board, phase),
            CyclePhase::Verifying { .. } => {
                CycleEvent::Flags { hitl_enabled: board.hitl, is_quadrotor: board.quad }
            }
            CyclePhase::VerifyPause { .. } => CycleEvent::PauseOver,
            other => panic!("nothing is due in {:?}", other),
        };
        p.on_input(ProvisioningInput::Cycle(event));
    }
    h.end_cycle(board.now);
    p.result().expect("over").clone()
}

fn apply(h: &mut PreflightHandler, board: &mut Board, browser: Browser) -> PreflightApplyResult {
    let mut stages = Vec::new();
    run_apply(h, board, browser, &mut stages)
}

fn restore(h: &mut PreflightHandler, board: &mut Board, r: RestoreSnapshot) -> RestoreResult {
    if let Some(refusal) = h.begin_restore(&r, board.now) {
        return refusal;
    }
    let mut cycle = RestoreCycle::start(&r.params);
    let result = loop {
        if let Some(failure) = cycle.failure() {
            break failure;
        }
        let event = match cycle.phase() {
            RestorePhase::Writing { index, step, .. } => match step {
                WriteStep::Deliver(_) => CycleEvent::Sent(SendOutcome::Queued),
                WriteStep::Await => exchange_write(board, cycle.write_at(index)),
            },
            RestorePhase::Restarting(phase) => restart_event(board, phase),
            RestorePhase::ReadingBack => {
                let names = r.params.iter().map(|p| p.name.clone()).collect();
                let (values, failed) = board.read_all(names);
                let mut distances = Vec::new();
                for p in &r.params {
                    let d = match values.iter().find(|v| v.name == p.name) {
                        Some(v) => (number(v.decoded_value()) - number(p.value)).abs(),
                        None => 0.0,
                    };
                    distances.push(r32(d));
                }
                break restore_verdict(&r.params, &values, &failed, &distances);
            }
            other => panic!("nothing is due in {:?}", other),
        };
        cycle.on_event(event);
    };
    h.end_cycle(board.now);
    result
}

fn identity(raw: &str) -> Option<BoardIdentity> {
    Some(BoardIdentity::from_raw_for_test(raw))
}

fn handler() -> PreflightHandler {
    PreflightHandler::with_identity(true, identity("uid:testboard"))
}

fn message(error: &Option<String>) -> String {
    error.clone().expect("an error is reported")
}

// ---- applying ----

#[test]
fn sim_only_mode_returns_error_immediately() {
    let mut h = PreflightHandler::with_identity(false, identity("uid:testboard"));
    let mut board = Board::new();
    let result = apply(&mut h, &mut board, Browser::Stores);
    assert!(!result.success);
    assert!(matches!(result.state, PreflightApplyState::Error));
    assert!(message(&result.error).contains("sim-only"));
}

#[test]
fn happy_path_applies_reboots_and_verifies() {
    let mut h = handler();
    let mut board = Board::new();
    let mut stages = Vec::new();
    let result = run_apply(&mut h, &mut board, Browser::Stores, &mut stages);
    assert!(result.success, "apply failed: {:?}", result.error);
    assert!(matches!(result.state, PreflightApplyState::Done));

    stages.dedup();
    assert_eq!(
        stages,
        vec![
            PreflightApplyState::Capturing,
            PreflightApplyState::Applying,
            PreflightApplyState::Rebooting,
            PreflightApplyState::Reconnecting,
            PreflightApplyState::Verifying,
        ]
    );

    let names: Vec<String> = board.writes.iter().map(|p| decode_param_id(&p.param_id)).collect();
    assert!(names.contains(&"SYS_HITL".to_string()));
    assert!(names.contains(&"SYS_AUTOSTART".to_string()));
    for (name, kind) in expected_types() {
        let sent = board.writes.iter().find(|p| decode_param_id(&p.param_id) == name);
        assert_eq!(sent.map(|p| p.param_type), Some(kind), "{name} goes out with its own type");
    }

    let (_, saved_at) = board
        .commands
        .iter()
        .find(|(c, _)| *c == 245)
        .expect("the parameters are saved");
    let shell: Vec<&str> = board.shell.iter().map(|(c, _)| *c).collect();
    assert_eq!(shell, ["reboot"], "the reboot goes out through the shell");
    assert!(board.shell[0].1 - saved_at >= PARAM_SAVE_SETTLE_DELAY_MS);
    assert_eq!(CMD_PREFLIGHT_STORAGE, 245);
}

fn integers() -> Vec<(&'static str, i32)> {
    vec![
        ("SYS_HAS_BARO", 0),
        ("CBRK_SUPPLY_CHK", 894281),
        ("COM_ARM_HFLT_CHK", 0),
        ("COM_ARM_MAG_ANG", 180),
        ("COM_ARM_MAG_STR", 0),
        ("COM_ARM_SDCARD", 0),
        ("EKF2_GPS_CHECK", 0),
        ("EKF2_MAG_CHECK", 0),
        ("EKF2_MULTI_IMU", 1),
        ("GPS_1_CONFIG", 0),
        ("HIL_ACT_FUNC1", 101),
        ("HIL_ACT_FUNC2", 102),
        ("HIL_ACT_FUNC3", 103),
        ("HIL_ACT_FUNC4", 104),
        ("SENS_IMU_MODE", 0),
        ("SENS_MAG_AUTOCAL", 0),
    ]
}

fn numbers() -> Vec<(&'static str, f32)> {
    vec![("EKF2_ABL_LIM", 0.0), ("EKF2_REQ_HDRIFT", 3.0), ("EKF2_REQ_VDRIFT", 3.0)]
}

fn expected_types() -> Vec<(&'static str, ParamType)> {
    let mut all: Vec<(&'static str, ParamType)> =
        integers().into_iter().map(|(n, _)| (n, ParamType::Int32)).collect();
    all.extend(numbers().into_iter().map(|(n, _)| (n, ParamType::Real32)));
    all
}

#[test]
fn provisioning_writes_simulation_mode_first_and_then_what_arming_needs() {
    let writes = provisioning_writes();
    assert_eq!(writes.len(), PROVISIONED_PARAM_COUNT);
    assert_eq!((writes[0].name.as_str(), writes[0].value), ("SYS_HITL", WriteValue::Int(1)));
    assert_eq!((writes[1].name.as_str(), writes[1].value), ("SYS_AUTOSTART", WriteValue::Int(4001)));
    for (i, (name, value)) in integers().into_iter().enumerate() {
        assert_eq!((writes[2 + i].name.as_str(), writes[2 + i].value), (name, WriteValue::Int(value)));
    }
    for (i, (name, value)) in numbers().into_iter().enumerate() {
        assert_eq!(
            (writes[18 + i].name.as_str(), writes[18 + i].value),
            (name, WriteValue::Number(r32(value)))
        );
    }
}

#[test]
fn ack_failure_returns_error_without_reboot() {
    let mut h = handler();
    let mut board = Board::new();
    board.acks_writes = false;
    let result = apply(&mut h, &mut board, Browser::Stores);
    assert!(!result.success);
    assert!(matches!(result.state, PreflightApplyState::Error));
    assert!(message(&result.error).contains("SYS_HITL"));
    assert!(board.shell.is_empty());
    assert_eq!(board.writes.len(), PARAM_RETRY_COUNT as usize);
}

#[test]
fn a_board_that_never_comes_back_is_not_provisioned_again() {
    let mut h = handler();
    let mut board = Board::new();
    board.comes_back = false;
    let result = apply(&mut h, &mut board, Browser::Stores);
    assert!(!result.success);
    assert_eq!(message(&result.error), "FC did not reconnect after reboot");
    assert_eq!(board.shell.len(), 1);
}

#[test]
fn a_missing_shell_stops_the_reboot() {
    for (event, expected) in [
        (CycleEvent::NoShell, "Failed to send reboot command: NSH channel not available"),
        (
            CycleEvent::ShellClosed,
            "Failed to send reboot command: Failed to send reboot via NSH: channel closed",
        ),
    ] {
        let mut p = written(&mut Board::new());
        p.on_input(ProvisioningInput::Cycle(CycleEvent::Sent(SendOutcome::Queued)));
        p.on_input(ProvisioningInput::Cycle(CycleEvent::Settled { count: 7 }));
        p.on_input(ProvisioningInput::Cycle(event));
        assert_eq!(message(&p.result().expect("over").error), expected);
    }
}

#[test]
fn a_save_that_cannot_be_handed_over_stops_the_cycle() {
    for (outcome, expected) in [
        (SendOutcome::Disconnected, "Lost the link"),
        (SendOutcome::Full, "not accepting writes"),
    ] {
        let mut p = written(&mut Board::new());
        let mut tries = 0;
        while p.result().is_none() {
            p.on_input(ProvisioningInput::Cycle(CycleEvent::Sent(outcome)));
            p.on_input(ProvisioningInput::Cycle(CycleEvent::PauseOver));
            tries += 1;
        }
        assert!(tries <= RESTORE_SEND_ATTEMPTS as usize);
        let text = message(&p.result().expect("over").error);
        assert!(text.contains(expected), "{text}");
        assert!(text.ends_with(
            " The parameters were written but not saved, and the flight controller was not rebooted."
        ));
    }
}

// ---- waiting for the board ----

/// Poll every `interval` until the wait ends; the counter is `beats(now)`.
fn wait_for(
    timeout: u64,
    interval: u64,
    quiet: u64,
    beats: fn(u64) -> u64,
) -> bool {
    let mut wait = Reconnect::start(beats(0), 0, timeout, quiet);
    let mut now = 0;
    loop {
        match wait.poll(beats(now), now) {
            ReconnectVerdict::Back => return true,
            ReconnectVerdict::GaveUp => return false,
            ReconnectVerdict::Wait => now += interval,
        }
    }
}

#[test]
fn wait_for_reconnect_times_out_when_heartbeat_never_seen() {
    assert!(!wait_for(100, 20, 30, |_| 0));
}

#[test]
fn wait_for_reconnect_rejects_straggler_before_quiet_period() {
    let ok = wait_for(500, 20, 150, |now| if now < 10 { 0 } else { 1 });
    assert!(!ok, "a lone straggler heartbeat must not be trusted as a genuine reconnect");
}

#[test]
fn a_heartbeat_after_the_quiet_period_is_a_reconnect() {
    assert!(wait_for(500, 20, 150, |now| if now < 200 { 0 } else { 1 }));
    // The straggler restarts the countdown; the genuine one still counts.
    assert!(wait_for(500, 20, 150, |now| if now < 10 {
        0
    } else if now < 300 {
        1
    } else {
        2
    }));
}

// ---- checking ----

#[test]
fn check_reflects_cached_heartbeat_status() {
    let h = PreflightHandler::with_identity(false, identity("uid:testboard"));
    let status = h.check(1, false, true);
    assert!(status.connected);
    assert!(!status.hitl_enabled);
    assert!(status.is_quadrotor);
}

#[test]
fn check_reports_connected_during_reconnect_wait() {
    let mut h = handler();
    let mut board = Board::new();
    board.count = 1;
    assert!(h.begin_apply(board.now).is_none());
    let mut p = Provisioning::start(h.capture_board());
    capture(&mut h, &board, &Browser::Stores, &mut p);
    while p.state() != PreflightApplyState::Reconnecting {
        let cycle = p.cycle().expect("a cycle is under way");
        let event = match cycle.phase() {
            CyclePhase::Pushing => match cycle.push_step() {
                PushStep::Await(i) => exchange_write(&mut board, cycle.write_at(i)),
                _ => CycleEvent::Sent(SendOutcome::Queued),
            },
            CyclePhase::Restarting(phase) => restart_event(&mut board, phase),
            other => panic!("nothing is due in {:?}", other),
        };
        p.on_input(ProvisioningInput::Cycle(event));
    }
    let status = h.check(board.count, board.hitl, board.quad);
    assert!(
        status.connected,
        "a concurrent check during the reboot wait must still see the board as connected"
    );
    assert_eq!(status.readiness, PreflightReadiness::NotReady);
}

#[test]
fn check_before_and_after_apply_reflects_reboot_outcome() {
    let mut h = handler();
    let mut board = Board::new();

    let before = h.check(board.count, board.hitl, board.quad);
    assert!(!before.connected, "nothing has heartbeated yet");
    assert!(!before.hitl_enabled);
    assert!(!before.is_quadrotor);

    let result = apply(&mut h, &mut board, Browser::Stores);
    assert!(result.success, "apply failed: {:?}", result.error);

    let after = h.check(board.count, board.hitl, board.quad);
    assert!(after.connected);
    assert!(after.hitl_enabled);
    assert!(after.is_quadrotor);
}

#[test]
fn concurrent_apply_is_rejected_without_touching_the_fc() {
    let mut h = handler();
    let mut board = Board::new();
    assert!(h.begin_apply(board.now).is_none());

    let second = apply(&mut h, &mut board, Browser::Stores);
    assert!(!second.success);
    assert!(matches!(second.state, PreflightApplyState::Error));
    assert!(message(&second.error).contains("already in progress"));
    assert!(board.writes.is_empty());

    h.end_cycle(board.now);
    let third = apply(&mut h, &mut board, Browser::Stores);
    assert!(!third.error.unwrap_or_default().contains("already in progress"));

    // A restore is kept out by the same guard.
    let mut h = handler();
    assert!(h.begin_apply(0).is_none());
    let kept_out = restore(&mut h, &mut board, request("uid:testboard"));
    assert_eq!(
        message(&kept_out.error),
        "Another flight-controller operation is already in progress"
    );
}

#[test]
fn a_board_that_has_not_reported_is_unknown_not_not_ready() {
    let status = PreflightHandler::new(true).check(0, false, false);
    assert_eq!(status.readiness, PreflightReadiness::Unknown);
    assert!(!status.connected);
}

#[test]
fn sim_only_is_not_applicable_rather_than_unknown() {
    let status = PreflightHandler::new(false).check(0, false, false);
    assert_eq!(status.readiness, PreflightReadiness::NotApplicable);
}

#[test]
fn both_signals_correct_reports_ready() {
    let status = PreflightHandler::new(true).check(1, true, true);
    assert_eq!(status.readiness, PreflightReadiness::Ready);
}

#[test]
fn hitl_disabled_reports_not_ready() {
    let status = PreflightHandler::new(true).check(1, false, true);
    assert_eq!(status.readiness, PreflightReadiness::NotReady);
}

#[test]
fn non_quadrotor_reports_not_ready() {
    let status = PreflightHandler::new(true).check(1, true, false);
    assert_eq!(status.readiness, PreflightReadiness::NotReady);
}

#[test]
fn unknown_is_never_equal_to_ready() {
    assert_ne!(PreflightReadiness::Unknown, PreflightReadiness::Ready);
    assert_ne!(PreflightReadiness::NotApplicable, PreflightReadiness::Ready);
}

// ---- the restore point comes first ----

#[test]
fn no_write_happens_when_parameters_cannot_be_read() {
    let mut h = PreflightHandler::with_identity(true, identity("uid:aaaa"));
    let mut board = Board::new();
    board.answers_reads = false;
    let result = apply(&mut h, &mut board, Browser::Stores);
    assert!(!result.success);
    assert!(message(&result.error)
        .starts_with("Could not read 21 of 21 parameters from the flight controller (SYS_HITL, "));
    assert_eq!(board.writes.len(), 0);
    assert!(h.session_snapshot().is_empty());
}

#[test]
fn no_write_happens_when_the_browser_never_acknowledges() {
    let mut h = PreflightHandler::with_identity(true, identity("uid:aaaa"));
    let mut board = Board::new();
    let result = apply(&mut h, &mut board, Browser::NeverAnswers);
    assert!(!result.success);
    assert!(message(&result.error).contains("did not confirm"));
    assert_eq!(board.writes.len(), 0, "an unacknowledged snapshot must not permit a write");
}

#[test]
fn no_write_happens_when_the_browser_reports_a_storage_failure() {
    let mut h = PreflightHandler::with_identity(true, identity("uid:aaaa"));
    let mut board = Board::new();
    let result = apply(&mut h, &mut board, Browser::CannotStore);
    assert!(!result.success);
    assert!(message(&result.error).contains("QuotaExceededError"));
    assert_eq!(board.writes.len(), 0);
}

#[test]
fn no_write_happens_when_the_client_disconnects_mid_handoff() {
    let mut h = PreflightHandler::with_identity(true, identity("uid:aaaa"));
    let mut board = Board::new();
    let result = apply(&mut h, &mut board, Browser::Gone);
    assert!(!result.success);
    assert_eq!(
        message(&result.error),
        "No browser is connected to save the restore point. Nothing was changed."
    );
    assert_eq!(board.writes.len(), 0);
}

#[test]
fn only_a_confirmation_for_this_board_ends_the_wait() {
    let ack = |board: &str, stored: bool, error: Option<&str>| {
        AckEvent::Acked(SnapshotStored {
            board_identity: board.to_string(),
            stored,
            error: error.map(|e| e.to_string()),
        })
    };
    assert!(ack_verdict("uid:a", &ack("uid:b", true, None)).is_none());
    assert!(ack_verdict("uid:a", &ack("uid:b", false, None)).is_none());
    assert!(ack_verdict("uid:a", &AckEvent::Lagged).is_none());
    assert_eq!(ack_verdict("uid:a", &ack("uid:a", true, None)), Some(Ok(())));
    assert_eq!(
        ack_verdict("uid:a", &ack("uid:a", false, None)),
        Some(Err(
            "The browser could not save the restore point (no reason given). Nothing was changed."
                .to_string()
        ))
    );
    assert_eq!(
        ack_verdict("uid:a", &AckEvent::Closed),
        Some(Err(
            "Lost the browser connection before the restore point was confirmed. Nothing was changed."
                .to_string()
        ))
    );
}

fn stored(board: &str) -> CaptureEvent {
    CaptureEvent::Ack(AckEvent::Acked(SnapshotStored {
        board_identity: board.to_string(),
        stored: true,
        error: None,
    }))
}

#[test]
fn a_capture_skips_none_of_its_steps() {
    let mut c = Capture::start("uid:a".to_string());
    assert_eq!(c.board(), "uid:a");
    c.on_event(stored("uid:a"));
    c.on_event(CaptureEvent::HandedOver { received: true });
    c.on_event(CaptureEvent::Kept);
    assert!(matches!(c.step(), CaptureStep::Read), "an answer before the reading says nothing");
    let value = Board::new().read("SYS_HITL").expect("read");
    c.on_event(CaptureEvent::Read { values: vec![value], failed: vec![] });
    assert!(matches!(c.step(), CaptureStep::Keep(values) if values.len() == 1));
    c.on_event(stored("uid:a"));
    assert!(matches!(c.step(), CaptureStep::Keep(_)));
    c.on_event(CaptureEvent::Kept);
    assert!(matches!(c.step(), CaptureStep::HandOver));
    c.on_event(CaptureEvent::HandedOver { received: true });
    c.on_event(stored("uid:b"));
    c.on_event(CaptureEvent::Ack(AckEvent::Lagged));
    assert!(matches!(c.step(), CaptureStep::AwaitAck), "the answer for another board");
    c.on_event(stored("uid:a"));
    assert!(matches!(c.step(), CaptureStep::Stored));
}

#[test]
fn a_provisioning_writes_nothing_until_the_browser_answers_for_this_board() {
    let mut h = handler();
    let board = Board::new();
    let mut p = Provisioning::start(h.capture_board());
    assert!(h.keep_restore_point(&mut p).is_none(), "nothing was read yet");
    let (values, failed) = board.read_all(provisioned_param_names());
    p.on_input(ProvisioningInput::Capture(CaptureEvent::Read { values, failed }));
    let handed = h.keep_restore_point(&mut p).expect("everything was read");
    assert_eq!(handed.board_identity, "uid:testboard");
    assert_eq!(handed.params.len(), PROVISIONED_PARAM_COUNT);
    assert!(!h.session_snapshot().is_empty());
    p.on_input(ProvisioningInput::Capture(CaptureEvent::HandedOver { received: true }));
    p.on_input(ProvisioningInput::Cycle(CycleEvent::Sent(SendOutcome::Queued)));
    p.on_input(ProvisioningInput::Capture(stored("uid:other")));
    assert!(p.cycle().is_none());
    assert!(matches!(p.state(), PreflightApplyState::Capturing));
    p.on_input(ProvisioningInput::Capture(stored("uid:testboard")));
    assert!(p.cycle().is_some());
}

#[test]
fn only_its_own_echo_confirms_a_write() {
    let mut board = Board::new();
    let mut h = handler();
    let mut p = Provisioning::start(h.capture_board());
    capture(&mut h, &board, &Browser::Stores, &mut p);
    p.on_input(ProvisioningInput::Cycle(CycleEvent::Sent(SendOutcome::Queued)));
    let stray = board.read("SYS_AUTOSTART").expect("read");
    p.on_input(ProvisioningInput::Cycle(CycleEvent::Echo { report: stray, distance: r32(0.0) }));
    assert_eq!(p.cycle().expect("a cycle").push_step(), PushStep::Await(0), "another parameter");
    let stale = board.read("SYS_HITL").expect("read");
    p.on_input(ProvisioningInput::Cycle(CycleEvent::Echo { report: stale, distance: r32(0.0) }));
    assert_eq!(p.cycle().expect("a cycle").push_step(), PushStep::Await(0), "the value before");
    p.on_input(ProvisioningInput::Cycle(CycleEvent::ReportsLagged));
    assert_eq!(p.cycle().expect("a cycle").push_step(), PushStep::Send(0), "missed, so again");
    p.on_input(ProvisioningInput::Cycle(CycleEvent::Sent(SendOutcome::Queued)));
    let echo = exchange_write(&mut board, p.cycle().expect("a cycle").write_at(0));
    p.on_input(ProvisioningInput::Cycle(echo));
    assert_eq!(p.cycle().expect("a cycle").push_step(), PushStep::Send(1));
}

#[test]
fn a_value_that_is_no_number_did_not_read_back() {
    let params = vec![SnapshotParam {
        name: "EKF2_REQ_HDRIFT".to_string(),
        value: r32(0.3),
        param_type: "real32".to_string(),
    }];
    let read = |value: f32| {
        vec![ParamValue {
            name: "EKF2_REQ_HDRIFT".to_string(),
            value: r32(value),
            param_type: ParamType::Real32,
            index: 0,
        }]
    };
    let verdict = |value: f32| {
        restore_verdict(&params, &read(value), &vec![], &vec![r32((value - 0.3).abs())])
    };
    assert!(matches!(verdict(0.3).state, RestoreState::Done));
    let lost = verdict(f32::NAN);
    assert!(matches!(lost.state, RestoreState::Error));
    assert_eq!(lost.mismatches.len(), 1);
    assert_eq!(lost.mismatches[0].name, "EKF2_REQ_HDRIFT");
    assert_eq!(verdict(3.0).mismatches[0].actual, r32(3.0));
}

#[test]
fn a_restore_waits_for_the_echo_of_each_write() {
    let params = vec![SnapshotParam {
        name: "SYS_HITL".to_string(),
        value: r32(1.0),
        param_type: "int32".to_string(),
    }];
    let mut cycle = RestoreCycle::start(&params);
    let awaiting = |c: &RestoreCycle, n: u8| {
        matches!(c.phase(), RestorePhase::Writing { step: WriteStep::Await, attempt, .. }
            if attempt == n)
    };
    cycle.on_event(CycleEvent::Sent(SendOutcome::Queued));
    assert!(awaiting(&cycle, 1));
    let zero = Board::new().read("SYS_HITL").expect("read");
    cycle.on_event(CycleEvent::Echo { report: zero, distance: r32(0.0) });
    assert!(awaiting(&cycle, 1), "not the value written");
    cycle.on_event(CycleEvent::ReportsClosed);
    cycle.on_event(CycleEvent::Sent(SendOutcome::Queued));
    assert!(awaiting(&cycle, 2));
    let echo = exchange_write(&mut Board::new(), cycle.write_at(0));
    cycle.on_event(echo);
    assert!(matches!(cycle.phase(), RestorePhase::Restarting(_)));
}

#[test]
fn the_default_constructor_leaves_identity_unwired() {
    let h = PreflightHandler::new(true);
    assert!(
        h.check(0, false, false).board_identity.is_none(),
        "new must not fabricate an identity"
    );
}

#[test]
fn a_shared_identity_cell_reaches_the_handler() {
    let mut h = PreflightHandler::with_identity(true, None);
    h.set_identity(identity("uid:3034510f33323831"));
    assert_eq!(
        h.check(0, false, false).board_identity,
        Some("uid:3034510f33323831".to_string())
    );
}

#[test]
fn no_write_happens_without_a_board_identity() {
    let mut h = PreflightHandler::with_identity(true, None);
    let mut board = Board::new();
    let result = apply(&mut h, &mut board, Browser::Stores);
    assert!(!result.success);
    assert!(message(&result.error).contains("identifying serial"));
    assert_eq!(board.writes.len(), 0);
}

#[test]
fn the_captured_snapshot_carries_every_parameter_provisioning_writes() {
    let names = provisioned_param_names();
    assert!(names.contains(&"SYS_HITL".to_string()));
    assert!(names.contains(&"SYS_AUTOSTART".to_string()));
    for (name, _) in integers() {
        assert!(names.contains(&name.to_string()), "{name} is written but not captured");
    }
    for (name, _) in numbers() {
        assert!(names.contains(&name.to_string()), "{name} is written but not captured");
    }
    // The session keeps what was read, under the board it was read from.
    let mut h = handler();
    let board = Board::new();
    let mut p = Provisioning::start(h.capture_board());
    capture(&mut h, &board, &Browser::Stores, &mut p);
    assert!(p.cycle().is_some());
    let held = h.session_snapshot().get("uid:testboard").expect("kept for this board");
    let kept: Vec<String> = held.params.iter().map(|p| p.name.clone()).collect();
    assert_eq!(kept, names);
    assert!(h.session_snapshot().get("uid:other").is_none());
}

#[test]
fn the_capture_budget_can_be_set() {
    let policy = ParamReadPolicy { timeout_ms: 20, retries: 1 };
    let h = PreflightHandler::new(true).with_capture_budget(policy, 300);
    assert_eq!((h.read_policy().timeout_ms, h.read_policy().retries), (20, 1));
    assert_eq!(h.ack_timeout_ms(), 300);
    assert_eq!(PreflightHandler::new(true).ack_timeout_ms(), 20_000);
}

// ---- applying again ----

#[test]
fn only_a_verification_failure_is_retryable() {
    assert!(ApplyFailure::retryable("did not take effect".to_string()).retryable);
    assert!(!ApplyFailure::fatal("FC did not reconnect after reboot".to_string()).retryable);
}

#[test]
fn the_retry_budget_is_bounded() {
    assert!(PROVISION_ATTEMPTS >= 2, "one attempt would defeat the point");
    assert!(PROVISION_ATTEMPTS <= 3, "flash wear grows with every cycle");
}

#[test]
fn a_failed_verification_is_re_applied_and_can_then_succeed() {
    let mut h = handler();
    let mut board = Board::new();
    board.takes_effect_from = 2;
    let result = apply(&mut h, &mut board, Browser::Stores);
    assert!(result.success, "re-apply should have succeeded: {:?}", result.error);
    assert_eq!(board.shell.len(), 2, "the board should have been provisioned twice");
    assert!(
        board.writes.len() > provisioned_param_names().len(),
        "the second attempt must actually re-push the parameters"
    );
}

#[test]
fn a_board_that_never_takes_the_settings_is_given_up_on() {
    let mut h = handler();
    let mut board = Board::new();
    board.takes_effect_from = 100;
    let result = apply(&mut h, &mut board, Browser::Stores);
    assert!(!result.success);
    assert_eq!(message(&result.error), "Settings did not take effect after reboot");
    assert_eq!(board.shell.len(), PROVISION_ATTEMPTS as usize);
}

// ---- restoring ----

fn int_param(name: &str, value: f32) -> SnapshotParam {
    SnapshotParam { name: name.to_string(), value: r32(value), param_type: "int32".to_string() }
}

fn request(board: &str) -> RestoreSnapshot {
    RestoreSnapshot {
        board_identity: board.to_string(),
        params: vec![int_param("SYS_HITL", 0.0), int_param("COM_ARM_SDCARD", 1.0)],
    }
}

#[test]
fn restore_writes_every_parameter_and_confirms_it() {
    let mut h = PreflightHandler::with_identity(true, identity("uid:aaaa"));
    let mut board = Board::new();
    let result = restore(&mut h, &mut board, request("uid:aaaa"));
    assert!(result.success, "restore failed: {:?}", result.error);
    assert!(matches!(result.state, RestoreState::Done));
    assert!(result.mismatches.is_empty());
    let decode = |v: Real32| bits_i32(v.bits);
    assert_eq!(board.holds("SYS_HITL").map(decode), Some(0));
    assert_eq!(board.holds("COM_ARM_SDCARD").map(decode), Some(1));
    assert_eq!(board.shell.len(), 1);
}

#[test]
fn a_parameter_that_did_not_take_is_reported_and_the_board_is_not_called_restored() {
    let mut h = PreflightHandler::with_identity(true, identity("uid:aaaa"));
    let mut board = Board::new();
    board.stuck = vec!["COM_ARM_SDCARD"];
    let result = restore(&mut h, &mut board, request("uid:aaaa"));
    assert!(!result.success, "a board with a stuck parameter is not restored");
    assert_eq!(result.mismatches.len(), 1);
    let mismatch = &result.mismatches[0];
    assert_eq!(mismatch.name, "COM_ARM_SDCARD");
    assert_eq!(number(mismatch.expected), 1.0);
    assert_eq!(number(mismatch.actual), 0.0);
    assert_eq!(
        message(&result.error),
        "1 parameter(s) did not read back as expected. The flight controller is not fully restored."
    );
}

#[test]
fn a_snapshot_from_another_board_is_refused_without_writing() {
    let mut h = PreflightHandler::with_identity(true, identity("uid:aaaa"));
    let mut board = Board::new();
    let result = restore(&mut h, &mut board, request("uid:bbbb"));
    assert!(!result.success);
    assert!(message(&result.error).contains("different flight controller"));
    assert!(board.held.is_empty(), "nothing may be written");
}

#[test]
fn restore_is_refused_when_the_board_has_no_identity() {
    let mut h = PreflightHandler::with_identity(true, None);
    let mut board = Board::new();
    let result = restore(&mut h, &mut board, request("uid:aaaa"));
    assert!(!result.success);
    assert!(message(&result.error).contains("no identifying serial"));
    assert!(board.held.is_empty());
}

#[test]
fn restore_is_refused_in_sim_only_mode() {
    let mut h = PreflightHandler::new(false);
    let mut board = Board::new();
    let result = restore(&mut h, &mut board, request("uid:aaaa"));
    assert!(!result.success);
    assert!(message(&result.error).contains("sim-only"));
}

#[test]
fn an_empty_snapshot_is_refused() {
    let mut h = PreflightHandler::with_identity(true, identity("uid:aaaa"));
    let mut board = Board::new();
    let empty = RestoreSnapshot { board_identity: "uid:aaaa".to_string(), params: vec![] };
    let result = restore(&mut h, &mut board, empty);
    assert!(!result.success);
    assert!(board.held.is_empty());
}

#[test]
fn what_cannot_be_read_back_is_not_called_restored() {
    let mut h = PreflightHandler::with_identity(true, identity("uid:aaaa"));
    let mut board = Board::new();
    board.answers_reads = false;
    let result = restore(&mut h, &mut board, request("uid:aaaa"));
    assert!(!result.success);
    assert_eq!(
        message(&result.error),
        "Could not read back 2 parameters after the restore (SYS_HITL, COM_ARM_SDCARD)."
    );
}

#[test]
fn a_restore_stops_at_the_first_write_that_is_not_confirmed() {
    let mut h = PreflightHandler::with_identity(true, identity("uid:aaaa"));
    let mut board = Board::new();
    board.acks_writes = false;
    let result = restore(&mut h, &mut board, request("uid:aaaa"));
    assert!(!result.success);
    assert!(message(&result.error).contains("SYS_HITL"));
    assert!(board.shell.is_empty());
    assert_eq!(board.writes.len(), PARAM_RETRY_COUNT as usize);
}

#[test]
fn a_restore_writes_back_the_numbers_that_were_captured() {
    let tuned = SnapshotParam {
        name: "EKF2_REQ_HDRIFT".to_string(),
        value: r32(0.3),
        param_type: "real32".to_string(),
    };
    let writes = writes_of(&vec![int_param("CBRK_SUPPLY_CHK", 894281.0), int_param("A", -7.0), tuned]);
    assert_eq!(writes[0].value, WriteValue::Int(894281));
    assert_eq!(writes[1].value, WriteValue::Int(-7));
    assert_eq!(writes[2].value, WriteValue::Number(r32(0.3)));
}

// ---- the board is left alone after a cycle ----

fn cooling(cooldown_ms: u64) -> PreflightHandler {
    PreflightHandler::with_identity(true, None).with_cooldown(cooldown_ms)
}

fn restore_request() -> RestoreSnapshot {
    RestoreSnapshot {
        board_identity: "uid:aaaa".to_string(),
        params: vec![int_param("SYS_HITL", 0.0)],
    }
}

#[test]
fn a_second_apply_is_refused_while_the_board_is_settling() {
    let mut h = cooling(30_000);
    let mut board = Board::new();
    let _ = apply(&mut h, &mut board, Browser::Stores);

    let second = apply(&mut h, &mut board, Browser::Stores);
    assert!(!second.success);
    let error = message(&second.error);
    assert!(error.contains("still restarting"), "{error}");
    assert!(error.contains('s'), "{error}");
    assert!(error.contains("Wait 31s and try again"), "{error}");
}

#[test]
fn a_restore_is_refused_inside_the_window_an_apply_opened() {
    let mut h = cooling(30_000);
    let mut board = Board::new();
    let _ = apply(&mut h, &mut board, Browser::Stores);

    let refused = restore(&mut h, &mut board, restore_request());
    assert!(!refused.success);
    assert!(message(&refused.error).contains("still restarting"));
}

#[test]
fn an_apply_is_refused_inside_the_window_a_restore_opened() {
    let mut h = cooling(30_000);
    let mut board = Board::new();
    let _ = restore(&mut h, &mut board, restore_request());

    let refused = apply(&mut h, &mut board, Browser::Stores);
    assert!(!refused.success);
    assert!(message(&refused.error).contains("still restarting"));
}

#[test]
fn both_are_allowed_again_once_the_window_has_elapsed() {
    let mut h = cooling(50);
    let mut board = Board::new();
    let _ = apply(&mut h, &mut board, Browser::Stores);
    board.now += 80;

    let second = apply(&mut h, &mut board, Browser::Stores);
    let error = message(&second.error);
    assert!(!error.contains("still restarting"), "{error}");
    assert!(error.contains("identifying serial"), "{error}");
}

#[test]
fn the_first_operation_is_never_blocked() {
    let mut h = cooling(30_000);
    let mut board = Board::new();
    let first = apply(&mut h, &mut board, Browser::Stores);
    assert!(!message(&first.error).contains("still restarting"));
}

#[test]
fn the_cooldown_covers_flash_commit_plus_boot() {
    assert!(CYCLE_COOLDOWN_MS >= 10_000);
    let mut h = PreflightHandler::new(true);
    assert_eq!(h.cooldown_remaining(0), None);
    h.end_cycle(1_000);
    assert_eq!(h.cooldown_remaining(1_000), Some(CYCLE_COOLDOWN_MS));
    assert_eq!(h.cooldown_remaining(1_000 + CYCLE_COOLDOWN_MS), None);
}

// ---- handing a message to the writer ----

/// Offer a message until the delivery ends; `outcome` is what the queue answers
/// to the given try.
fn deliver(name: &str, outcome: fn(usize) -> SendOutcome) -> (usize, Result<(), String>) {
    let mut delivery = Delivery::start();
    let mut tries = 0;
    loop {
        let event = match delivery.step {
            DeliveryStep::Send => {
                tries += 1;
                CycleEvent::Sent(outcome(tries))
            }
            DeliveryStep::Pause => CycleEvent::PauseOver,
            DeliveryStep::Delivered => return (tries, Ok(())),
            step => return (tries, Err(delivery_message(step, name))),
        };
        delivery.on_event(&event);
    }
}

#[test]
fn a_permanently_full_queue_is_reported_rather_than_dropped() {
    let (tries, result) = deliver("PARAM_SAVE", |_| SendOutcome::Full);
    assert!(result.is_err(), "a queue that never drains must be reported");
    assert!(result.unwrap_err().contains("not accepting writes"));
    // Bounded: it gives up rather than blocking provisioning forever.
    assert_eq!(tries, RESTORE_SEND_ATTEMPTS as usize);
}

#[test]
fn a_queue_that_drains_lets_the_message_through() {
    let (tries, result) =
        deliver("PARAM_SAVE", |n| if n < 4 { SendOutcome::Full } else { SendOutcome::Queued });
    assert!(result.is_ok());
    assert_eq!(tries, 4);
}

#[test]
fn a_disconnected_writer_is_reported_as_a_lost_link_not_backpressure() {
    let (_, result) = deliver("SYS_HITL", |_| SendOutcome::Disconnected);
    let err = result.unwrap_err();
    assert!(err.contains("Lost the link"), "{err}");
}

#[test]
fn the_save_settle_delay_covers_a_multi_parameter_commit() {
    assert!(PARAM_SAVE_SETTLE_DELAY_MS >= 1500);
    assert!(PREFLIGHT_QUIET_PERIOD_MS >= 2000);
}
