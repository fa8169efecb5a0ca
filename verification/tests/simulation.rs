use hitl_daemon::daemon::{DaemonState, LoopCounts};
use hitl_daemon::exchange::SendOutcome;
use hitl_daemon::flight::{ActuatorOutputs, FlightMode};
use hitl_daemon::ieee::{Real32, Real64};
use hitl_daemon::mavlink_io::messages::{HilGpsData, HilSensorData, Outbound};
use hitl_daemon::nsh::{ekf_start_command, ekf_stop_command, reboot_command, SYSTEM_CLIENT};
use hitl_daemon::simulation::actuators::any_motor_active;
use hitl_daemon::simulation::contact::{
    integrates, stopped_descent, touch_down, warns_of_missing_terrain, AccelSource, BodyMotion,
    GroundContact, Slide, IMPACT_DURATION_TICKS,
};
use hitl_daemon::simulation::origin::SharedOrigin;
use hitl_daemon::simulation::pacing::{record_window, tick_duration_ns, Deadline, WindowFigures};
use hitl_daemon::simulation::runner::{speed_ratio, MotorPower, SimulationLoop};
use hitl_daemon::simulation::sampling::{plan_samples, DropReport, DropWatch};
use hitl_daemon::simulation::state::{SimulationConfig, SimulationState};
use hitl_daemon::wire::{
    IncomingMessage, OutgoingMessage, WsProtocolError, MSG_TYPE_COMMAND, MSG_TYPE_CONFIGURE_BUILD,
    MSG_TYPE_HANDSHAKE, MSG_TYPE_NSH_COMMAND, MSG_TYPE_SHUTDOWN,
};

fn r32(x: f32) -> Real32 {
    Real32::from_bits(x.to_bits())
}

fn wide(x: f64) -> Real64 {
    Real64::from_bits(x.to_bits())
}

fn high(x: Real64) -> f64 {
    f64::from_bits(x.bits)
}

// ---- the origin ----

#[test]
fn terrain_elevation_becomes_the_datum() {
    let mut origin = SharedOrigin::new(wide(0.0), wide(0.0), wide(1655.0));
    origin.set(wide(51.5), wide(-0.12), Some(wide(35.0)), wide(1655.0));
    let v = origin.get();
    assert_eq!(high(v.lat), 51.5);
    assert_eq!(high(v.lon), -0.12);
    assert_eq!(high(v.alt_datum), 35.0);
    assert!(v.from_terrain);
}

#[test]
fn unknown_elevation_falls_back_for_every_consumer_together() {
    let mut origin = SharedOrigin::new(wide(0.0), wide(0.0), wide(1655.0));
    origin.set(wide(51.5), wide(-0.12), None, wide(1655.0));
    let v = origin.get();
    assert_eq!(high(v.alt_datum), 1655.0);
    assert!(!v.from_terrain, "callers must be able to tell a datum from a stand-in");
}

#[test]
fn sea_level_is_a_real_datum_not_a_missing_one() {
    let mut origin = SharedOrigin::new(wide(0.0), wide(0.0), wide(1655.0));
    origin.set(wide(0.0), wide(0.0), Some(wide(0.0)), wide(1655.0));
    let v = origin.get();
    assert_eq!(high(v.alt_datum), 0.0);
    assert!(v.from_terrain);
}

struct Readings {
    baro_msl: f64,
    gps_msl: f64,
    ground_msl: f64,
}

fn read_all(origin: &SharedOrigin, ned_down: f64, terrain_msl_at_point: Option<f64>) -> Readings {
    let v = origin.get();
    Readings {
        baro_msl: high(v.alt_datum) - ned_down,
        gps_msl: high(v.alt_datum) + (-ned_down),
        ground_msl: terrain_msl_at_point.unwrap_or(high(v.alt_datum)),
    }
}

#[test]
fn all_three_consumers_agree_when_elevation_is_known() {
    let mut origin = SharedOrigin::new(wide(0.0), wide(0.0), wide(1655.0));
    origin.set(wide(51.5), wide(-0.12), Some(wide(35.0)), wide(1655.0));
    let r = read_all(&origin, 0.0, Some(35.0));
    assert_eq!(r.baro_msl, 35.0);
    assert_eq!(r.gps_msl, 35.0);
    assert_eq!(r.ground_msl, 35.0);
    assert_ne!(r.baro_msl, 1655.0);
}

#[test]
fn all_three_consumers_agree_when_elevation_is_unknown() {
    let mut origin = SharedOrigin::new(wide(0.0), wide(0.0), wide(1655.0));
    origin.set(wide(51.5), wide(-0.12), None, wide(1655.0));
    let r = read_all(&origin, 0.0, None);
    assert_eq!(r.baro_msl, 1655.0);
    assert_eq!(r.gps_msl, 1655.0);
    assert_eq!(r.ground_msl, 1655.0);
}

#[test]
fn ten_metres_up_moves_all_three_by_ten_metres() {
    let mut origin = SharedOrigin::new(wide(0.0), wide(0.0), wide(1655.0));
    origin.set(wide(51.5), wide(-0.12), Some(wide(35.0)), wide(1655.0));
    let ground = read_all(&origin, 0.0, Some(35.0));
    let aloft = read_all(&origin, -10.0, Some(35.0));
    assert_eq!(aloft.baro_msl - ground.baro_msl, 10.0);
    assert_eq!(aloft.gps_msl - ground.gps_msl, 10.0);
    assert_eq!(aloft.ground_msl, ground.ground_msl);
}

#[test]
fn the_datum_never_changes_for_only_some_consumers() {
    let mut origin = SharedOrigin::new(wide(0.0), wide(0.0), wide(1655.0));
    for elevation in [Some(35.0), None, Some(0.0), Some(-420.0)] {
        origin.set(wide(51.5), wide(-0.12), elevation.map(wide), wide(1655.0));
        let r = read_all(&origin, 0.0, elevation);
        assert_eq!(r.baro_msl, r.gps_msl, "baro and GPS disagree for elevation {elevation:?}");
        assert_eq!(
            r.baro_msl, r.ground_msl,
            "altitude and ground disagree for elevation {elevation:?}"
        );
    }
}

// ---- shared state ----

#[test]
fn heartbeat_status_starts_unseen() {
    let state = SimulationState::new();
    assert_eq!(state.heartbeat_status(), (0, false, false));
}

#[test]
fn set_heartbeat_status_marks_seen_and_stores_flags() {
    let mut state = SimulationState::new();
    state.set_heartbeat_status(true, false);
    assert_eq!(state.heartbeat_status(), (1, true, false));
}

#[test]
fn heartbeat_count_increases_monotonically_and_keeps_latest_flags() {
    let mut state = SimulationState::new();
    state.set_heartbeat_status(false, false);
    assert_eq!(state.heartbeat_status(), (1, false, false));
    state.set_heartbeat_status(true, true);
    assert_eq!(state.heartbeat_status(), (2, true, true));
}

#[test]
fn reset_does_not_clear_heartbeat_status() {
    let mut state = SimulationState::new();
    state.set_heartbeat_status(true, true);
    state.reset();
    assert_eq!(state.heartbeat_status(), (1, true, true));
}

#[test]
fn a_reset_starts_a_new_flight_and_leaves_the_loop_running() {
    let mut state = SimulationState::new();
    state.set_armed(true);
    state.set_flight_mode(7);
    state.set_landed_state(2);
    state.set_motor_commands([r32(0.5); 4]);
    state.advance_time(2500);
    assert_eq!(state.sim_time_us(), 2500);
    state.reset();
    assert!(!state.is_armed());
    assert_eq!((state.flight_mode(), state.landed_state(), state.sim_time_us()), (0, 0, 0));
    assert_eq!(state.motor_commands(), [r32(0.0); 4]);
    assert!(state.is_running());
    state.stop();
    state.reset();
    assert!(!state.is_running());
}

#[test]
fn the_default_configuration_is_the_documented_one() {
    let c = SimulationConfig::default();
    assert_eq!(high(c.reference_lat), 40.015);
    assert_eq!(high(c.reference_lon), -105.2705);
    assert_eq!(high(c.reference_alt), 1655.0);
    assert_eq!((c.tick_rate_hz, c.gps_rate_hz), (400, 10));
}

// ---- ground contact ----

/// A vehicle at rest but for its height and its speed of descent.
fn moving(down: f64, descent: f64) -> BodyMotion {
    BodyMotion {
        down: wide(down),
        north_speed: wide(0.0),
        east_speed: wide(0.0),
        descent: wide(descent),
        roll_rate: wide(0.0),
        pitch_rate: wide(0.0),
        yaw_rate: wide(0.0),
    }
}

fn still() -> Slide {
    Slide { north_speed: wide(0.0), east_speed: wide(0.0), yaw_rate: wide(0.0) }
}

/// One tick over ground at `ground`, for a vehicle left at `down` descending at
/// `descent`; where it ends up.
fn settle(l: &mut SimulationLoop, ground: Option<f64>, down: f64, descent: f64) -> f64 {
    let release = ground.unwrap_or(0.0) - 0.1;
    let end =
        l.end_step(ground.map(wide), moving(down, descent), still(), wide(release), 2500);
    high(end.motion.down)
}

#[test]
fn missing_terrain_sample_does_not_teleport_the_drone() {
    let mut l = SimulationLoop::new(400, 0, 0, 0);
    assert!(l.begin_step(None, wide(50.0), false, 0).integrate, "it keeps falling");
    let down = settle(&mut l, None, 50.0, 0.0);
    assert!(
        down > 49.0,
        "drone must not be clamped to the origin datum when the ground \
         height is unknown; expected to stay near 50 m down, got {down}"
    );
}

#[test]
fn clamp_uses_sampled_terrain_height() {
    let mut l = SimulationLoop::new(400, 0, 0, 0);
    let ground_z = 0.0;
    let down = settle(&mut l, Some(ground_z), 5.0, 0.0);
    assert!(
        (down - ground_z).abs() < 1e-6,
        "inside coverage the drone must be clamped to the sampled ground \
         height {ground_z}, got {down}"
    );
    assert_eq!(settle(&mut l, Some(1.25), 5.0, 0.0), 1.25);
    assert_eq!(settle(&mut l, Some(-3.0), 5.0, 0.0), -3.0);
}

#[test]
fn ground_contact_latches_until_clearly_airborne() {
    let mut l = SimulationLoop::new(400, 0, 0, 0);
    settle(&mut l, Some(0.0), 0.0, 0.0);
    assert!(l.contact.active, "resting on ground must latch on");
    settle(&mut l, Some(0.0), -0.05, 0.0);
    assert!(l.contact.active, "5 cm above ground is inside the 10 cm hysteresis band");
    assert_eq!(l.contact.accel_source(), AccelSource::Ground);
    settle(&mut l, Some(0.0), -0.5, 0.0);
    assert!(!l.contact.active, "50 cm above ground must release the ground latch");
    assert_eq!(l.contact.accel_source(), AccelSource::Flight);
}

#[test]
fn the_ground_stops_a_vehicle_and_the_air_does_not() {
    let fast = BodyMotion {
        down: wide(0.4),
        north_speed: wide(3.0),
        east_speed: wide(-2.0),
        descent: wide(1.5),
        roll_rate: wide(0.7),
        pitch_rate: wide(-0.6),
        yaw_rate: wide(0.2),
    };
    let slide =
        Slide { north_speed: wide(2.7), east_speed: wide(-1.8), yaw_rate: wide(0.19) };
    let stopped = touch_down(Some(wide(0.25)), fast, slide);
    assert_eq!(
        stopped,
        BodyMotion {
            down: wide(0.25),
            north_speed: wide(2.7),
            east_speed: wide(-1.8),
            descent: wide(0.0),
            roll_rate: wide(0.0),
            pitch_rate: wide(0.0),
            yaw_rate: wide(0.19),
        }
    );
    let climbing = BodyMotion { descent: wide(-1.5), ..fast };
    assert_eq!(high(touch_down(Some(wide(0.25)), climbing, slide).descent), -1.5);
    assert_eq!(touch_down(Some(wide(0.5)), fast, slide), fast, "above the ground");
    assert_eq!(touch_down(None, fast, slide), fast, "over unknown ground");
}

#[test]
fn messages_carry_the_simulated_time() {
    let mut l = SimulationLoop::new(400, 0, 0, 0);
    settle(&mut l, Some(0.0), 0.0, 0.0);
    settle(&mut l, Some(0.0), 0.0, 0.0);
    let samples = l.samples();
    let readings = HilSensorData { time_usec: 7, zacc: r32(-9.81), ..HilSensorData::default() };
    match l.sensor_message(&readings, &samples) {
        Outbound::HilSensor { data, fields_updated } => {
            assert_eq!(data, HilSensorData { time_usec: 5000, ..readings });
            assert_eq!(fields_updated, 0x1fff);
        }
        other => panic!("not a sensor message: {:?}", other),
    }
    let fix = HilGpsData { time_usec: 7, fix_type: 3, ..HilGpsData::default() };
    match l.gps_message(&fix) {
        Outbound::HilGps(data) => assert_eq!(data, HilGpsData { time_usec: 5000, ..fix }),
        other => panic!("not a GPS message: {:?}", other),
    }
}

#[test]
fn a_hard_landing_is_reported_for_a_fixed_time() {
    let mut c = GroundContact::new();
    let report = c.step(Some(wide(0.0)), wide(0.01), wide(2.0), wide(-0.1));
    assert!(report.clamp && report.impact);
    assert_eq!(c.accel_source(), AccelSource::Impact);
    assert_eq!(c.impact_ticks_remaining, IMPACT_DURATION_TICKS - 1);
    let mut ticks = 1;
    while c.accel_source() == AccelSource::Impact {
        let again = c.step(Some(wide(0.0)), wide(0.01), wide(2.0), wide(-0.1));
        assert!(!again.impact || ticks >= IMPACT_DURATION_TICKS);
        ticks += 1;
        if ticks >= IMPACT_DURATION_TICKS {
            break;
        }
    }
    let mut soft = GroundContact::new();
    assert!(!soft.step(Some(wide(0.0)), wide(0.0), wide(0.5), wide(-0.1)).impact);
}

#[test]
fn a_vehicle_at_rest_on_the_ground_is_not_integrated() {
    assert!(!integrates(false, Some(wide(0.0)), wide(0.0)));
    assert!(integrates(true, Some(wide(0.0)), wide(0.0)));
    assert!(integrates(false, Some(wide(0.0)), wide(-1.0)));
    assert_eq!(high(stopped_descent(wide(2.0))), 0.0);
    assert_eq!(high(stopped_descent(wide(-2.0))), -2.0);
    assert!(warns_of_missing_terrain(false, 0, 5000));
    assert!(!warns_of_missing_terrain(false, 0, 4999));
    assert!(!warns_of_missing_terrain(true, 0, 9000));
}

// ---- the loop ----

fn command(motors: [f32; 4], mode: FlightMode) -> ActuatorOutputs {
    ActuatorOutputs {
        timestamp_us: 0,
        motors: motors.map(r32),
        mode,
        controls: [r32(0.0); 16],
    }
}

#[test]
fn the_latest_command_wins_and_silence_stops_the_motors() {
    let mut l = SimulationLoop::new(400, 0, 0, 0);
    let arrived =
        vec![command([0.1; 4], FlightMode::Armed), command([0.6; 4], FlightMode::HilArmed)];
    assert!(!l.actuate(&arrived, 10));
    assert_eq!(l.sim.motor_commands(), [r32(0.6); 4]);
    assert!(l.sim.is_armed());
    assert_eq!(l.counts.actuator_count, 2);

    // Not yet stale.
    assert!(!l.actuate(&vec![], 110));
    assert_eq!(l.sim.motor_commands(), [r32(0.6); 4]);
    // Stale, but too soon after the start for a warning.
    assert!(!l.actuate(&vec![], 111));
    assert_eq!(l.sim.motor_commands(), [r32(0.0); 4]);
    assert!(!l.sim.is_armed());

    l.actuate(&vec![command([0.6; 4], FlightMode::Armed)], 6000);
    assert!(l.actuate(&vec![], 6200), "worth a warning");
}

#[test]
fn a_motor_counts_as_active_above_one_percent() {
    assert!(!any_motor_active(&[r32(0.01); 4]));
    assert!(any_motor_active(&[r32(0.0), r32(0.0), r32(0.0), r32(0.011)]));
}

#[test]
fn a_step_integrates_unless_at_rest_on_the_ground() {
    let mut l = SimulationLoop::new(400, 0, 0, 0);
    let rest = l.begin_step(Some(wide(0.0)), wide(0.0), false, 1);
    assert!(!rest.integrate && !rest.warn);
    assert_eq!(rest.power, MotorPower::Idle);
    let falling = l.begin_step(Some(wide(0.0)), wide(-3.0), false, 1);
    assert!(falling.integrate);

    l.actuate(&vec![command([0.6; 4], FlightMode::Armed)], 1);
    let lifting = l.begin_step(Some(wide(0.0)), wide(0.0), false, 2);
    assert!(lifting.integrate);
    assert_eq!(lifting.power, MotorPower::Drawing);
    assert_eq!(lifting.commands, [r32(0.6); 4]);
    assert_eq!(l.begin_step(None, wide(0.0), true, 3).power, MotorPower::Cut);

    assert!(l.begin_step(None, wide(0.0), false, 5000).warn);
    assert!(!l.begin_step(None, wide(0.0), false, 5001).warn, "not again so soon");
}

#[test]
fn a_step_ends_on_the_ground_or_in_the_air() {
    let mut l = SimulationLoop::new(400, 0, 0, 0);
    let r = l.end_step(Some(wide(0.0)), moving(0.2, 2.0), still(), wide(-0.1), 2500);
    assert!(r.contact.clamp && r.contact.impact);
    assert_eq!(r.motion, moving(0.0, 0.0));
    assert_eq!(l.sim.sim_time_us(), 2500);
    assert_eq!(l.contact.accel_source(), AccelSource::Impact);
    let r = l.end_step(None, moving(0.2, 2.0), still(), wide(-0.1), 2500);
    assert!(!r.contact.clamp && !r.contact.impact);
    assert_eq!(r.motion, moving(0.2, 2.0));
    assert_eq!(l.sim.sim_time_us(), 5000);
    assert_eq!(l.contact.impact_ticks_remaining, IMPACT_DURATION_TICKS - 2);
}

#[test]
fn a_sagging_battery_slows_the_motors() {
    assert_eq!(high(speed_ratio(wide(14.8), wide(0.9))), 0.9);
    assert_eq!(high(speed_ratio(wide(14.8), wide(1.2))), 1.0);
    assert_eq!(high(speed_ratio(wide(14.8), wide(-0.1))), 0.0);
    assert_eq!(high(speed_ratio(wide(0.0), wide(0.5))), 1.0);
}

#[test]
fn slow_sensors_are_sampled_every_eighth_tick() {
    assert_eq!(plan_samples(0).fields_updated, 0x1fff);
    assert_eq!(plan_samples(1).fields_updated, 0x3f);
    assert_eq!(plan_samples(8).fields_updated, 0x1fff);
    let mut l = SimulationLoop::new(400, 0, 0, 0);
    let first = l.samples();
    assert!(first.sample_mag && first.keep_mag && first.sample_baro && first.keep_baro);
    l.end_tick(10, 0);
    let second = l.samples();
    assert!(!second.sample_mag && !second.sample_baro);
    l.reconfigure();
    assert!(l.build_configured);
    let third = l.samples();
    assert!(third.sample_mag && !third.keep_mag, "the old reading is of another vehicle");
}

#[test]
fn dropped_sensor_messages_are_counted_and_reported() {
    let mut l = SimulationLoop::new(400, 0, 0, 0);
    assert_eq!(l.sensor_sent(SendOutcome::Queued, 1), DropReport::Quiet);
    assert_eq!(l.counts.hil_sensor_count, 1);
    assert_eq!(l.sensor_sent(SendOutcome::Full, 1000), DropReport::Quiet);
    assert_eq!(l.sensor_sent(SendOutcome::Full, 3000), DropReport::Error);
    assert_eq!(l.sensor_sent(SendOutcome::Queued, 3001), DropReport::Quiet);
    assert_eq!(l.sensor_sent(SendOutcome::Full, 6000), DropReport::Warn(3));
    assert_eq!(l.sensor_sent(SendOutcome::Disconnected, 6001), DropReport::Quiet);
    assert_eq!(l.counts.sensor_drops, 3);

    let mut watch = DropWatch::new(0);
    let mut counts = LoopCounts::default();
    watch.on_gps(&mut counts, SendOutcome::Queued);
    watch.on_gps(&mut counts, SendOutcome::Full);
    assert_eq!((counts.hil_gps_count, counts.sensor_drops), (1, 1));

    l.gps_sent(SendOutcome::Queued);
    l.gps_sent(SendOutcome::Full);
    assert_eq!((l.counts.hil_gps_count, l.counts.sensor_drops), (1, 4));
    assert_eq!(l.drops.since_warning, 1);
}

#[test]
fn deadlines_follow_each_other_and_overruns_are_forgiven() {
    assert_eq!(tick_duration_ns(400), 2_500_000);
    let mut d = Deadline::new(0, 100);
    assert_eq!(d.tick(30), Some(70));
    assert_eq!(d.next_ns, 100);
    assert_eq!(d.tick(450), None);
    assert_eq!(d.next_ns, 450);
    assert_eq!(d.tick(460), Some(90));
}

#[test]
fn latencies_are_reported_every_five_seconds() {
    let mut l = SimulationLoop::new(400, 0, 0, 0);
    let end = l.end_tick(100, 400_000);
    assert_eq!(end.figures, None);
    assert!(!end.publish);
    assert!(l.end_tick(300, 500_000).publish);
    let end = l.end_tick(200, 5_000_000);
    let figures = end.figures.expect("the window is over");
    assert_eq!(
        figures,
        WindowFigures { ticks: 3, total_latency_us: 600, max_latency_us: 300, elapsed_us: 5_000_000 }
    );
    record_window(&mut l.counts, r32(399.5), 200, &figures);
    assert_eq!(l.counts.max_latency_us, 300);
    assert_eq!(l.counts.avg_latency_us, 200);
    assert_eq!(l.counts.tick_rate_hz, r32(399.5));
    assert_eq!(l.total_ticks, 3);
}

// ---- small vocabularies ----

#[test]
fn the_daemons_own_shell_commands_are_marked_as_such() {
    for (c, text) in [
        (reboot_command(), "reboot"),
        (ekf_stop_command(), "ekf2 stop"),
        (ekf_start_command(), "ekf2 start"),
    ] {
        assert_eq!(c.command, text);
        assert_eq!(c.client_id, SYSTEM_CLIENT);
    }
}

#[test]
fn daemon_states_have_names() {
    let names: Vec<String> = [
        DaemonState::Starting,
        DaemonState::WaitingForFc,
        DaemonState::Connected,
        DaemonState::Streaming,
        DaemonState::FcLost,
        DaemonState::Reconnecting,
        DaemonState::ShuttingDown,
    ]
    .iter()
    .map(|s| s.text())
    .collect();
    let mut distinct = names.clone();
    distinct.sort();
    distinct.dedup();
    assert_eq!(distinct.len(), 7, "{names:?}");
}

#[test]
fn tagged_messages_are_told_apart() {
    let parse = |tag: u8, body: &str| {
        let mut data = vec![tag];
        data.extend_from_slice(body.as_bytes());
        IncomingMessage::from_bytes(&data)
    };
    assert!(matches!(parse(MSG_TYPE_HANDSHAKE, ""), Ok(IncomingMessage::Handshake)));
    assert!(matches!(parse(MSG_TYPE_COMMAND, "{}"), Ok(IncomingMessage::Command(b)) if b == "{}"));
    assert!(
        matches!(parse(MSG_TYPE_NSH_COMMAND, "{}"), Ok(IncomingMessage::NshCommand(b)) if b == "{}")
    );
    assert!(matches!(
        parse(MSG_TYPE_CONFIGURE_BUILD, "{}"),
        Ok(IncomingMessage::ConfigureBuild(b)) if b == "{}"
    ));
    assert!(matches!(parse(MSG_TYPE_SHUTDOWN, ""), Ok(IncomingMessage::Shutdown)));
    assert!(matches!(parse(0xee, ""), Err(WsProtocolError::UnknownMessageType(0xee))));
    assert!(matches!(IncomingMessage::from_bytes(&[]), Err(WsProtocolError::EmptyMessage)));
    assert!(matches!(
        IncomingMessage::from_bytes(&[MSG_TYPE_COMMAND, 0xff]),
        Err(WsProtocolError::InvalidPayload(_))
    ));
    assert_eq!(OutgoingMessage::StateUpdate(vec![1, 2]).to_bytes(), vec![0x01, 1, 2]);
    assert_eq!(OutgoingMessage::NshResponse("ok".to_string()).to_bytes()[0], 0x04);
}
