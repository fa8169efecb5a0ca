use hitl_daemon::build_config::chips::{
    parse_baro_chip, parse_frame_material, parse_gps_chipset, parse_imu_chip, parse_mag_chip,
    BaroChip, FrameMaterial, GpsChipset, ImuChip, MagChip,
};
use hitl_daemon::build_config::configure::{
    can_hover, hover_command, stage_report, throttle_floor, Component, Configure, ConfigureEvent,
    ConfigureStep, DerivedBuild,
};
use hitl_daemon::build_config::ekf::{EkfEvent, EkfRestart, EkfStep, EKF_RESTART_ATTEMPTS};
use hitl_daemon::build_config::fetch::{component_url, default_api_url, FetchFault};
use hitl_daemon::build_config::push::{
    gain_writes, repush_begun, repush_ended, PidCache, PidParams, PushVerified,
};
use hitl_daemon::build_config::sensors::{
    build_sensors_config, listed_gps_profile, GpsProfile, SensorProfiles,
};
use hitl_daemon::build_config::specs::{
    wrap_i32, BatteryWeight, BuildPlan, Pitch, SpecField, SpecRecord,
};
use hitl_daemon::exchange::{ParamWrite, PushStep, SendOutcome, WriteEvent, WriteValue};
use hitl_daemon::ieee::{Real32, Real64};
use hitl_daemon::param_io::{decode_param_id, CommandLong, ParamType, ParamValue};
use hitl_daemon::protocol::config::{
    default_battery_capacity_mah, default_battery_cell_count, default_battery_voltage,
    default_esc_count, ConfigResult, ConfigStage, ConfigState, ConfigureBuild, FlightLocation,
    Px4PidsView,
};
use hitl_daemon::simulation::origin::{anchor_origin, SharedOrigin};
use hitl_daemon::terrain::{SubmittedTile, TerrainCache, TileCoord, TilePoint, TILE_SIZE, ZOOM_LEVELS};

fn r32(x: f32) -> Real32 {
    Real32::from_bits(x.to_bits())
}

fn wide(x: f64) -> Real64 {
    Real64::from_bits(x.to_bits())
}

fn high(x: Real64) -> f64 {
    f64::from_bits(x.bits)
}

fn low(x: Real32) -> f32 {
    f32::from_bits(x.bits)
}

// ---- pushing gains ----

const REF_HOVER_CMD: f32 = 0.5;
const REF_HOVER_CMD_ALT: f32 = 0.3;
const REF_THR_MIN: f32 = 0.15;

fn ref_pids() -> Px4PidsView {
    Px4PidsView {
        roll_p: r32(0.15),
        roll_i: r32(0.2),
        roll_d: r32(0.003),
        roll_ff: r32(0.0),
        pitch_p: r32(0.15),
        pitch_i: r32(0.2),
        pitch_d: r32(0.003),
        pitch_ff: r32(0.0),
        yaw_p: r32(0.2),
        yaw_i: r32(0.1),
        yaw_d: r32(0.0),
        yaw_ff: r32(0.0),
    }
}

fn params(hover_cmd: f32, thr_min: f32, can_hover: bool) -> PidParams {
    PidParams { pids: ref_pids(), hover_cmd: r32(hover_cmd), thr_min: r32(thr_min), can_hover }
}

const PID_FINGERPRINT: u64 = 0x1234_5678_9abc_def0;

/// An autopilot on the other end of the link.
struct Autopilot {
    drop_first: usize,
    silent: bool,
    link_closed: bool,
    sets: Vec<(String, f32)>,
    commands: Vec<CommandLong>,
}

impl Autopilot {
    fn new() -> Autopilot {
        Autopilot {
            drop_first: 0,
            silent: false,
            link_closed: false,
            sets: Vec::new(),
            commands: Vec::new(),
        }
    }

    fn names(&self) -> Vec<&str> {
        self.sets.iter().map(|(n, _)| n.as_str()).collect()
    }

    fn value(&self, name: &str) -> Option<f32> {
        self.sets.iter().find(|(n, _)| n == name).map(|(_, v)| *v)
    }

    /// What came of a write: its echo, or nothing in time.
    fn answer(&mut self, w: &ParamWrite) -> WriteEvent {
        let p = w.message();
        let name = decode_param_id(&p.param_id);
        self.sets.push((name.clone(), low(p.param_value)));
        if self.silent || self.drop_first > 0 {
            self.drop_first = self.drop_first.saturating_sub(1);
            return WriteEvent::TimedOut;
        }
        let echo =
            ParamValue { name, value: p.param_value, param_type: p.param_type, index: 0 };
        let expected = match w.value {
            WriteValue::Number(v) => low(v),
            WriteValue::Int(n) => n as f32,
        };
        let distance = (low(echo.value) - expected).abs();
        WriteEvent::Echo { report: echo, distance: r32(distance) }
    }
}

/// Push and have it confirmed; nothing when the push is skipped.
fn push(
    cache: &mut PidCache,
    px4: &mut Autopilot,
    p: PidParams,
) -> Result<Option<PushVerified>, String> {
    let mut push = match cache.begin_push(p, PID_FINGERPRINT) {
        Some(x) => x,
        None => return Ok(None),
    };
    loop {
        let event = match push.step() {
            PushStep::Send(_) if px4.link_closed => WriteEvent::Sent(SendOutcome::Disconnected),
            PushStep::Send(_) => WriteEvent::Sent(SendOutcome::Queued),
            PushStep::Pause => WriteEvent::PauseOver,
            PushStep::Await(i) => px4.answer(push.write_at(i)),
            PushStep::Done => {
                let done = cache.complete(&push);
                px4.commands.push(done.save);
                return Ok(Some(done));
            }
            _ => return Err(push.failure().expect("it failed")),
        };
        push.on_event(&event);
    }
}

#[test]
fn sim_only_mode_skips_verification() {
    let mut cache = PidCache::new(false);
    let mut px4 = Autopilot::new();
    let result = push(&mut cache, &mut px4, params(REF_HOVER_CMD, REF_THR_MIN, true));
    assert!(matches!(result, Ok(None)));
    assert!(px4.sets.is_empty());
}

#[test]
fn happy_path_acks_all_fifteen_params() {
    let mut cache = PidCache::new(true);
    let mut px4 = Autopilot::new();
    let done = push(&mut cache, &mut px4, params(REF_HOVER_CMD, REF_THR_MIN, true))
        .unwrap()
        .expect("pushed");
    assert_eq!(done.verified, 21);
    assert_eq!(done.pids, ref_pids());
    assert!(px4.names().contains(&"MPC_THR_HOVER"));
    assert!(px4.names().contains(&"THR_MDL_FAC"));
    assert!(px4.names().contains(&"MPC_THR_MIN"));
    let hover = px4.value("MPC_THR_HOVER").expect("pushed");
    assert!((hover - REF_HOVER_CMD).abs() < 1e-4);
    assert_eq!(px4.value("THR_MDL_FAC"), Some(1.0));
    assert_eq!(px4.value("CAL_GYRO0_ZOFF"), Some(0.0));
}

#[test]
fn one_dropped_ack_recovers_via_retry() {
    let mut cache = PidCache::new(true);
    let mut px4 = Autopilot::new();
    px4.drop_first = 1;
    let done = push(&mut cache, &mut px4, params(REF_HOVER_CMD, REF_THR_MIN, true))
        .unwrap()
        .expect("pushed");
    assert_eq!(done.verified, 21);
}

#[test]
fn persistent_silence_returns_error() {
    let mut cache = PidCache::new(true);
    let mut px4 = Autopilot::new();
    px4.silent = true;
    let err = push(&mut cache, &mut px4, params(REF_HOVER_CMD, REF_THR_MIN, true)).unwrap_err();
    assert!(err.contains("MC_ROLLRATE_P"), "expected failure on the first param, got: {err}");
    assert_eq!(err, "Failed to verify MC_ROLLRATE_P after 3 retries");
    assert_eq!(cache.last_fingerprint, None, "a partial push must be tried again");
}

#[test]
fn a_closed_link_is_reported_with_the_parameter_it_struck() {
    let mut cache = PidCache::new(true);
    let mut px4 = Autopilot::new();
    px4.link_closed = true;
    let err = push(&mut cache, &mut px4, params(REF_HOVER_CMD, REF_THR_MIN, true)).unwrap_err();
    assert_eq!(err, "MAVLink tx disconnected while sending MC_ROLLRATE_P");
}

#[test]
fn fingerprint_skips_second_call() {
    let mut cache = PidCache::new(true);
    let mut px4 = Autopilot::new();
    let p = params(REF_HOVER_CMD, REF_THR_MIN, true);
    let first = push(&mut cache, &mut px4, p).unwrap().expect("pushed");
    assert_eq!(first.verified, 21);
    assert!(push(&mut cache, &mut px4, p).unwrap().is_none());
    assert_eq!(px4.sets.len(), 21);
}

#[test]
fn invalidate_pid_fingerprint_forces_a_re_push() {
    let mut cache = PidCache::new(true);
    let mut px4 = Autopilot::new();
    let p = params(REF_HOVER_CMD, REF_THR_MIN, true);
    assert_eq!(push(&mut cache, &mut px4, p).unwrap().expect("pushed").verified, 21);
    assert!(push(&mut cache, &mut px4, p).unwrap().is_none());
    cache.invalidate_pid_fingerprint();
    let again = push(&mut cache, &mut px4, p).unwrap();
    assert_eq!(again.expect("an identical push must not be skipped").verified, 21);
}

#[test]
fn happy_path_sends_param_save_after_verification() {
    const MAV_CMD_PREFLIGHT_STORAGE: u16 = 245;
    let mut cache = PidCache::new(true);
    let mut px4 = Autopilot::new();
    let done = push(&mut cache, &mut px4, params(REF_HOVER_CMD, REF_THR_MIN, true))
        .unwrap()
        .expect("pushed");
    assert_eq!(done.verified, 21);
    assert_eq!(px4.sets.len(), 21, "15 gains and throttles, 6 calibration offsets");
    assert!(px4.commands.iter().any(|c| c.command == MAV_CMD_PREFLIGHT_STORAGE));
    assert_eq!(low(px4.commands[0].params[0]), 1.0);
}

#[test]
fn hover_cmd_change_re_pushes_even_when_pids_unchanged() {
    let mut cache = PidCache::new(true);
    let mut px4 = Autopilot::new();
    let first = push(&mut cache, &mut px4, params(REF_HOVER_CMD, REF_THR_MIN, true)).unwrap();
    assert_eq!(first.expect("pushed").verified, 21);
    let second = push(&mut cache, &mut px4, params(REF_HOVER_CMD_ALT, REF_THR_MIN, true)).unwrap();
    assert_eq!(second.expect("pushed").verified, 21);
}

fn hover_required_for(twr: f64) -> f64 {
    1.0 / twr.sqrt()
}

#[test]
fn a_build_below_unity_thrust_needs_more_than_full_throttle() {
    let required = hover_required_for(0.6542);
    assert!(
        required > 1.0,
        "TWR 0.6542 must require more than full throttle, got {required:.4}"
    );
    assert!((required - 1.2363).abs() < 0.001, "got {required:.4}");
    assert!(!can_hover(wide(0.6542)));
    assert!(!can_hover(wide(1.0)));
    assert!(can_hover(wide(1.0001)));
    assert!(!can_hover(wide(f64::NAN)));
}

#[test]
fn clamping_is_what_made_the_impossible_look_reachable() {
    let required = hover_required_for(0.6542);
    let clamped = high(hover_command(wide(required)));
    assert!(required > 1.0 && clamped <= 0.8);
    assert_eq!(clamped, required.clamp(0.1, 0.8));
    assert_eq!(high(hover_command(wide(0.01))), 0.1);
    assert_eq!(high(hover_command(wide(0.37))), 0.37);
}

#[test]
fn the_throttle_floor_stays_in_the_range_the_autopilot_accepts() {
    assert_eq!(low(throttle_floor(r32(0.01))), 0.05);
    assert_eq!(low(throttle_floor(r32(0.15))), 0.15);
    assert_eq!(low(throttle_floor(r32(0.9))), 0.20);
}

#[test]
fn no_hover_param_is_sent_when_the_build_cannot_hover() {
    let mut cache = PidCache::new(true);
    let mut px4 = Autopilot::new();
    let done = push(&mut cache, &mut px4, params(REF_HOVER_CMD, REF_THR_MIN, false))
        .unwrap()
        .expect("pushed");
    assert!(!px4.names().contains(&"MPC_THR_HOVER"), "sent: {:?}", px4.names());
    assert!(px4.names().contains(&"MPC_THR_MIN"));
    assert!(px4.names().contains(&"MC_ROLLRATE_P"));
    assert_eq!(done.verified, 20, "one fewer param than the flyable path");
}

#[test]
fn the_hover_param_is_sent_when_the_build_can_hover() {
    let mut cache = PidCache::new(true);
    let mut px4 = Autopilot::new();
    push(&mut cache, &mut px4, params(REF_HOVER_CMD, REF_THR_MIN, true)).unwrap();
    assert!(px4.names().contains(&"MPC_THR_HOVER"));
    assert_eq!(gain_writes(&params(REF_HOVER_CMD, REF_THR_MIN, true))[20].name, "MPC_THR_HOVER");
}

// ---- after a reconnect ----

/// Push again what was last confirmed, telling clients about it.
fn repush(cache: &mut PidCache, px4: &mut Autopilot) -> (Result<(), String>, Vec<ConfigResult>) {
    let p = match cache.begin_repush() {
        Some(p) => p,
        None => return (Ok(()), Vec::new()),
    };
    let result = push(cache, px4, p).map(|_| ());
    let told = match &result {
        Ok(()) => repush_ended(None),
        Err(e) => repush_ended(Some(e.as_str())),
    };
    (result, vec![repush_begun(), told])
}

#[test]
fn a_failed_repush_after_reconnect_is_reported_to_clients() {
    let mut cache = PidCache::new(true);
    let mut px4 = Autopilot::new();
    push(&mut cache, &mut px4, params(0.28, 0.06, true)).unwrap();
    px4.silent = true;
    let (result, told) = repush(&mut cache, &mut px4);
    assert!(result.is_err(), "a dead link cannot verify a re-push");
    assert!(matches!(told[0].state, ConfigState::Configuring));
    let last = told.last().expect("clients are told");
    assert!(matches!(last.state, ConfigState::Error));
    assert!(!last.success);
    assert!(last.error.clone().unwrap().contains("re-push"));
}

#[test]
fn nothing_is_reported_when_there_was_no_prior_configuration() {
    let mut cache = PidCache::new(true);
    let mut px4 = Autopilot::new();
    px4.silent = true;
    let (result, told) = repush(&mut cache, &mut px4);
    assert!(result.is_ok());
    assert!(told.is_empty(), "no config result should be emitted");
}

#[test]
fn a_repush_sends_the_same_parameters_again() {
    let mut cache = PidCache::new(true);
    let mut px4 = Autopilot::new();
    push(&mut cache, &mut px4, params(0.28, 0.06, false)).unwrap();
    let sent = px4.sets.clone();
    px4.sets.clear();
    let (result, told) = repush(&mut cache, &mut px4);
    assert!(result.is_ok());
    assert_eq!(px4.sets, sent);
    assert!(matches!(told[1].state, ConfigState::Ready));
}

// ---- the origin ----

const LAT: f64 = 40.015;
const LON: f64 = -105.2705;
const DATUM: f64 = 1621.4869497456395;
const ZOOM: u32 = 15;

fn from_lon_lat(lon: f64, lat: f64, z: u32) -> TileCoord {
    let n = 2_u32.pow(z) as f64;
    let x = ((lon + 180.0) / 360.0 * n).floor() as u32;
    let lat_rad = lat.to_radians();
    let y = ((1.0 - (lat_rad.tan() + 1.0 / lat_rad.cos()).ln() / std::f64::consts::PI) / 2.0 * n)
        .floor() as u32;
    TileCoord { x, y, z }
}

fn vehicle_at() -> Vec<TilePoint> {
    (0..ZOOM_LEVELS as u32)
        .map(|z| {
            let c = from_lon_lat(LON, LAT, z);
            TilePoint { x: c.x, y: c.y }
        })
        .collect()
}

fn anchored(elevation: Option<f64>) -> (SharedOrigin, TerrainCache) {
    let mut cache = TerrainCache::new();
    let mut origin = SharedOrigin::new(wide(LAT), wide(LON), wide(1655.0));
    anchor_origin(
        &mut origin,
        &mut cache,
        wide(LAT),
        wide(LON),
        elevation.map(wide),
        wide(1655.0),
        wide(0.0),
    );
    (origin, cache)
}

#[test]
fn anchoring_the_origin_gives_the_terrain_cache_its_datum() {
    let (_, cache) = anchored(Some(DATUM));
    assert_eq!(
        cache.origin_elevation_msl().map(high),
        Some(DATUM),
        "the browser's datum must reach the cache that decides ground contact"
    );
}

#[test]
fn a_resident_tile_under_an_anchored_origin_has_ground() {
    let (_, mut cache) = anchored(Some(DATUM));
    let coord = from_lon_lat(LON, LAT, ZOOM);
    let tile = SubmittedTile {
        coord,
        heights: vec![r32(DATUM as f32); TILE_SIZE * TILE_SIZE],
        approximate: false,
        metres: wide(500.0),
    };
    let report = cache.insert_tiles(TILE_SIZE as u32, vec![tile], &vehicle_at());
    assert_eq!(report.accepted, 1, "seed tile rejected: {:?}", report.rejected);
    assert!(cache.is_loaded(), "the seeded tile should be resident");
    assert!(cache.has_datum());
    let posts = cache.ground_posts(coord, 12, 34).expect("ground under the origin");
    let ground = (DATUM - low(posts.nw) as f64) as f32;
    assert!(
        ground.abs() < 0.01,
        "terrain at the datum elevation should put ground at zero, got {:?}",
        ground
    );
}

#[test]
fn an_unresolved_elevation_still_anchors_the_cache() {
    let (origin, cache) = anchored(None);
    assert_eq!(
        cache.origin_elevation_msl().map(high),
        Some(1655.0),
        "with no elevation data the configured altitude must still anchor the cache"
    );
    assert!(!origin.get().from_terrain);
}

// ---- chips ----

#[test]
fn chips_are_recognised_in_any_spelling() {
    assert_eq!(parse_imu_chip("ICM-42688-P"), ImuChip::Icm42688p);
    assert_eq!(parse_imu_chip("MPU6000"), ImuChip::Mpu6000);
    assert_eq!(parse_imu_chip("BMI270"), ImuChip::Bmi270);
    assert_eq!(parse_imu_chip("ADIS16470"), ImuChip::Other);
    assert_eq!(parse_baro_chip("BMP390"), BaroChip::Bmp388);
    assert_eq!(parse_baro_chip("DPS310"), BaroChip::Dps310);
    assert_eq!(parse_baro_chip("Unknown"), BaroChip::Other);
    assert_eq!(parse_mag_chip("QMC5883L"), MagChip::Qmc5883);
    assert_eq!(parse_mag_chip("None"), MagChip::Absent);
    assert_eq!(parse_mag_chip(""), MagChip::Absent);
    assert_eq!(parse_mag_chip("BMM150"), MagChip::Other);
    assert_eq!(parse_gps_chipset("u-blox ZED-F9P"), GpsChipset::UbloxF9P);
    assert_eq!(parse_gps_chipset("M10"), GpsChipset::UbloxM10);
    assert_eq!(parse_gps_chipset("u-blox M9N"), GpsChipset::UbloxM9N);
    assert_eq!(parse_gps_chipset("NEO-M8N"), GpsChipset::UbloxM8N);
    assert_eq!(parse_gps_chipset("Septentrio mosaic-X5"), GpsChipset::SeptentrioMosaic);
    assert_eq!(parse_gps_chipset("Here3"), GpsChipset::Here3);
    assert_eq!(parse_gps_chipset("SiRFstar"), GpsChipset::Other);
    assert_eq!(parse_frame_material("Carbon Fiber"), FrameMaterial::Carbon);
    assert_eq!(parse_frame_material("ABS"), FrameMaterial::Polymer);
    assert_eq!(parse_frame_material("Aluminium"), FrameMaterial::Aluminum);
    assert_eq!(parse_frame_material("Wood"), FrameMaterial::Other);
}

// ---- records ----

fn request() -> ConfigureBuild {
    ConfigureBuild {
        motor_slug: "emax-2207".to_string(),
        prop_slug: Some("hq-5x4".to_string()),
        prop_diameter_inches: wide(5.0),
        frame_weight_g: wide(120.0),
        battery_voltage: default_battery_voltage(),
        battery_capacity_mah: default_battery_capacity_mah(),
        battery_cell_count: default_battery_cell_count(),
        esc_slug: None,
        fc_slug: Some("fc".to_string()),
        frame_slug: None,
        battery_slug: None,
        gps_slug: Some("gps".to_string()),
        esc_count: default_esc_count(),
        flight_location: None,
        origin_elevation_msl: None,
        gyro_noise_density: None,
        accel_noise_density: None,
        baro_noise_sigma: None,
        mag_noise_sigma: None,
        gps_horizontal_noise: None,
        gps_altitude_noise: None,
        gps_velocity_noise: None,
        sensor_match_type: None,
    }
}

fn num(x: f64) -> SpecField {
    SpecField::Number { value: wide(x), whole: if x.fract() == 0.0 { Some(x as i64) } else { None } }
}

fn text(s: &str) -> SpecField {
    SpecField::Text(s.to_string())
}

fn record(fields: Vec<(&str, SpecField)>) -> SpecRecord {
    SpecRecord { fields: fields.into_iter().map(|(n, f)| (n.to_string(), f)).collect() }
}

#[test]
fn a_motor_without_a_speed_constant_makes_no_build() {
    assert!(BuildPlan::start(&request(), &record(vec![("weightG", num(32.0))])).is_none());
    let plan = BuildPlan::start(&request(), &record(vec![("kvRating", num(1750.0))])).unwrap();
    assert_eq!(high(plan.motor_kv), 1750.0);
    assert_eq!(high(plan.motor_weight_g), 30.0);
    assert_eq!(plan.motor_resistance_ohm, None);
    assert_eq!(plan.prop_pitch, Pitch::OfDiameter(wide(5.0)));
    assert_eq!(plan.blade_count, 3);
    assert_eq!(plan.battery_weight, BatteryWeight::Estimated);
    assert_eq!(plan.esc_count, 1);
}

#[test]
fn implausible_motor_figures_are_left_to_the_model() {
    let m = |r: f64, i: f64| {
        let motor = record(vec![
            ("kvRating", num(1000.0)),
            ("resistanceOhm", num(r)),
            ("idleCurrentA", num(i)),
        ]);
        let p = BuildPlan::start(&request(), &motor).unwrap();
        (p.motor_resistance_ohm.map(high), p.motor_no_load_amps.map(high))
    };
    assert_eq!(m(0.05, 0.7), (Some(0.05), Some(0.7)));
    assert_eq!(m(0.0, 0.0), (None, Some(0.0)));
    assert_eq!(m(-1.0, -1.0), (None, None));
}

#[test]
fn records_fill_the_build() {
    let mut p = BuildPlan::start(&request(), &record(vec![("kvRating", num(1000.0))])).unwrap();
    p.add_prop(&record(vec![
        ("diameterIn", num(5.1)),
        ("pitchIn", num(4.5)),
        ("bladeCount", num(2.0)),
    ]));
    assert_eq!(high(p.prop_diameter_in), 5.1);
    assert_eq!(p.prop_pitch, Pitch::Given(wide(4.5)));
    assert_eq!(p.blade_count, 2);
    p.add_prop(&record(vec![("diameterIn", num(6.0))]));
    assert_eq!(p.prop_pitch, Pitch::OfDiameter(wide(6.0)));

    p.add_frame(&record(vec![("wheelbaseMm", num(225.0)), ("material", text("CF"))]));
    assert_eq!(p.wheelbase_mm.map(high), Some(225.0));
    assert_eq!(p.material, Some(FrameMaterial::Carbon));

    p.add_esc(&record(vec![("continuousCurrentA", num(45.0)), ("weightG", num(9.0))]));
    assert_eq!(p.esc_continuous_amps.map(high), Some(45.0));
    assert_eq!(p.esc_burst_amps, None);
    assert_eq!(p.esc_weight(), Some((wide(9.0), 1)));

    p.add_fc(&record(vec![("gyro", text("BMI270")), ("magnetometer", text("none"))]));
    assert_eq!(p.imu_chip, Some(ImuChip::Bmi270));
    assert_eq!(p.baro_chip, None);
    assert_eq!(p.mag_chip, Some(MagChip::Absent));

    p.add_battery(&record(vec![("weightG", num(190.0))]));
    assert_eq!(p.battery_weight, BatteryWeight::Measured(wide(190.0)));

    p.add_gps(&record(vec![
        ("chipset", text("M10")),
        ("updateRateHz", num(1000.0)),
        ("hasCompass", SpecField::Flag(true)),
    ]));
    let gps = p.gps.expect("a receiver");
    assert_eq!(gps.chipset, GpsChipset::UbloxM10);
    assert_eq!(high(gps.update_rate_hz), 100.0);
    assert!(gps.has_compass);
    assert_eq!(high(gps.weight_g), 12.0);
}

#[test]
fn whole_numbers_wrap_like_a_narrowing_cast() {
    for n in [0, 3, -1, i32::MAX as i64, i32::MAX as i64 + 1, i64::MAX, i64::MIN, 5_000_000_000] {
        assert_eq!(wrap_i32(n), n as i32);
    }
}

// ---- sensors ----

fn profiles(mag: Option<f64>) -> SensorProfiles {
    SensorProfiles {
        gyro_noise_density: wide(0.0001),
        accel_noise_density: wide(0.002),
        baro_noise_sigma_m: wide(0.1),
        mag_noise_sigma_gauss: mag.map(wide),
    }
}

#[test]
fn a_build_without_a_receiver_gets_the_assumed_one() {
    let s = build_sensors_config(&profiles(None), None, &request());
    assert_eq!(high(s.gps.horizontal_noise_sigma), 0.1);
    assert_eq!(high(s.gps.altitude_noise_sigma), 0.3);
    assert_eq!(high(s.gps.velocity_noise_sigma), 0.05);
    assert_eq!(high(s.gps.update_rate_hz), 10.0);
    assert_eq!(high(s.gps.delay_ms), 80.0);
    assert_eq!(high(s.mag_noise_sigma_gauss), 0.005);
    assert_eq!(high(s.imu.gyro_noise_density), 0.0001);
}

#[test]
fn a_measured_profile_overrides_the_chips_and_nothing_drifts() {
    let mut q = request();
    q.gyro_noise_density = Some(wide(0.5));
    q.mag_noise_sigma = Some(wide(0.25));
    q.gps_horizontal_noise = Some(wide(2.0));
    let gp = GpsProfile {
        horizontal_noise_sigma_m: wide(0.01),
        altitude_noise_sigma_m: wide(0.02),
        velocity_noise_sigma_mps: wide(0.03),
        update_rate_hz: wide(5.0),
        delay_ms: wide(120.0),
    };
    let s = build_sensors_config(&profiles(Some(0.004)), Some(gp), &q);
    assert_eq!(high(s.imu.gyro_noise_density), 0.5);
    assert_eq!(high(s.imu.accel_noise_density), 0.002);
    assert_eq!(high(s.mag_noise_sigma_gauss), 0.25);
    assert_eq!(high(s.gps.horizontal_noise_sigma), 2.0);
    assert_eq!(high(s.gps.altitude_noise_sigma), 0.02);
    assert_eq!(high(s.gps.update_rate_hz), 5.0);
    assert_eq!(high(s.imu.gyro_bias_sigma), 0.0);
    assert_eq!(high(s.imu.accel_bias_sigma), 0.0);
    assert_eq!(high(s.gps.position_drift_sigma), 0.0);
    assert_eq!(high(s.gps.position_drift_tau), 1000.0);

    let mut p = BuildPlan::start(&request(), &record(vec![("kvRating", num(1000.0))])).unwrap();
    p.add_gps(&record(vec![("updateRateHz", num(18.0))]));
    let listed = listed_gps_profile(Some(gp), p.gps).expect("a receiver");
    assert_eq!(high(listed.update_rate_hz), 18.0);
    assert_eq!(high(listed.delay_ms), 120.0);
    assert!(listed_gps_profile(None, p.gps).is_none());
}

// ---- the course of a configuration ----

fn derived(twr: f64) -> DerivedBuild {
    DerivedBuild {
        mass_kg: wide(0.65),
        kt: wide(1e-6),
        kq: wide(1e-8),
        arm_length_m: wide(0.11),
        max_thrust_per_motor_g: wide(1200.0),
        thrust_to_weight_ratio: wide(twr),
        motor_kv: wide(1750.0),
        max_motor_rpm: wide(25_900.0),
        estimated_flight_time_min: wide(6.0),
        hover_cmd: r32(0.3),
        hover_required: wide(0.3),
    }
}

fn started() -> Configure {
    match Configure::start(request(), "0", "0") {
        Ok(c) => c,
        Err(e) => panic!("refused: {:?}", e.error),
    }
}

fn fetch_everything(c: &mut Configure) -> Vec<Component> {
    let mut fetched = Vec::new();
    while let ConfigureStep::Fetch(component) = c.step() {
        fetched.push(component);
        c.on_event(ConfigureEvent::Fetched(record(vec![("kvRating", num(1750.0))])));
    }
    fetched
}

#[test]
fn a_configuration_runs_its_course() {
    let mut c = started();
    assert_eq!(c.stage(), Some(ConfigStage::FetchingSpecs));
    assert_eq!(
        fetch_everything(&mut c),
        vec![Component::Motor, Component::Prop, Component::Fc, Component::Gps]
    );
    assert_eq!(c.step(), ConfigureStep::Compute);
    assert_eq!(c.stage(), Some(ConfigStage::Computing));
    c.on_event(ConfigureEvent::Computed(derived(4.0)));
    assert_eq!(c.step(), ConfigureStep::Push);
    assert_eq!(c.params(ref_pids(), r32(0.09)), Some(params(0.3, 0.09, true)));
    let announced = c.configuring().expect("announced with the push");
    assert_eq!(announced.stage, Some(ConfigStage::PushingParams));
    assert_eq!(announced.config.as_ref().map(|x| x.verified_params), Some(0));
    c.on_event(ConfigureEvent::Pushed { pids: Some(ref_pids()), verified: 21 });
    assert_eq!(c.step(), ConfigureStep::Deliver);
    assert!(c.result().is_none());
    c.on_event(ConfigureEvent::Delivered);
    assert_eq!(c.step(), ConfigureStep::Restart);
    assert_eq!(c.stage(), Some(ConfigStage::RestartingEkf));
    c.on_event(ConfigureEvent::Restarted);
    let done = c.result().expect("over");
    assert!(matches!(done.state, ConfigState::Ready));
    let applied = done.config.expect("what it came to");
    assert_eq!(applied.verified_params, 21);
    assert_eq!(applied.applied_pids, Some(ref_pids()));
    assert!(applied.can_hover);
    assert_eq!(applied.mass_kg, wide(0.65));
    assert_eq!(applied.battery_voltage, default_battery_voltage());
}

#[test]
fn only_the_motor_is_indispensable() {
    let mut c = started();
    c.on_event(ConfigureEvent::FetchFailed("API returned 404 Not Found".to_string()));
    let failed = c.result().expect("over");
    assert_eq!(failed.error.as_deref(), Some("Failed to fetch motor: API returned 404 Not Found"));

    let mut c = started();
    c.on_event(ConfigureEvent::Fetched(record(vec![])));
    assert_eq!(
        c.result().expect("over").error.as_deref(),
        Some("Motor missing KV rating in specs")
    );

    let mut c = started();
    c.on_event(ConfigureEvent::Fetched(record(vec![("kvRating", num(1000.0))])));
    while let ConfigureStep::Fetch(_) = c.step() {
        c.on_event(ConfigureEvent::FetchFailed("gone".to_string()));
    }
    assert_eq!(c.step(), ConfigureStep::Compute);
    assert_eq!(c.plan().expect("a build").gps, None);
}

#[test]
fn a_failed_push_or_delivery_ends_a_configuration() {
    let mut c = started();
    fetch_everything(&mut c);
    assert_eq!(c.params(ref_pids(), r32(0.09)), None);
    c.on_event(ConfigureEvent::Computed(derived(0.6)));
    let wanted = c.params(ref_pids(), r32(0.01)).expect("computed");
    assert_eq!(wanted, params(0.3, 0.05, false));
    assert_eq!(gain_writes(&wanted).len(), 20);
    assert!(!c.configuring().unwrap().config.unwrap().can_hover);
    c.on_event(ConfigureEvent::PushFailed("no reply".to_string()));
    let failed = c.result().expect("over");
    assert_eq!(failed.error.as_deref(), Some("PID verification failed: no reply"));
    assert!(failed.config.is_none());

    let mut c = started();
    fetch_everything(&mut c);
    c.on_event(ConfigureEvent::Computed(derived(4.0)));
    c.on_event(ConfigureEvent::Pushed { pids: None, verified: 0 });
    c.on_event(ConfigureEvent::NotDelivered);
    assert_eq!(
        c.result().expect("over").error.as_deref(),
        Some("Simulation thread unavailable")
    );
}

#[test]
fn a_location_off_the_earth_fails_the_request() {
    let mut q = request();
    q.flight_location = Some(FlightLocation { lat: wide(91.0), lon: wide(0.0) });
    match Configure::start(q, "91", "0") {
        Ok(_) => panic!("accepted"),
        Err(e) => {
            assert!(matches!(e.state, ConfigState::Error));
            let text = e.error.unwrap();
            assert!(text.contains("91"), "{text}");
        }
    }
    let mut q = request();
    q.flight_location = Some(FlightLocation { lat: wide(51.5), lon: wide(-0.12) });
    let mut c = match Configure::start(q, "51.5", "-0.12") {
        Ok(c) => c,
        Err(e) => panic!("refused: {:?}", e.error),
    };
    assert!(c.adopted_location().is_none());
    fetch_everything(&mut c);
    assert!(c.adopted_location().is_none());
    c.on_event(ConfigureEvent::Computed(derived(4.0)));
    assert!(c.adopted_location().is_none(), "not before the push is confirmed");
    c.on_event(ConfigureEvent::Pushed { pids: None, verified: 0 });
    let l = c.adopted_location().expect("with the physics");
    assert_eq!((high(l.lat), high(l.lon)), (51.5, -0.12));
    c.on_event(ConfigureEvent::Delivered);
    assert!(c.adopted_location().is_none(), "once");
}

#[test]
fn a_build_whose_motor_is_unknown_does_not_move_the_flight() {
    let mut c = started();
    c.on_event(ConfigureEvent::FetchFailed("API returned 404 Not Found".to_string()));
    assert!(c.adopted_location().is_none());
    assert!(matches!(c.result().expect("over").state, ConfigState::Error));
}

#[test]
fn a_push_that_failed_half_way_is_not_forgotten() {
    let first = params(REF_HOVER_CMD, REF_THR_MIN, true);
    let second = params(REF_HOVER_CMD_ALT, REF_THR_MIN, true);
    let mut cache = PidCache::new(true);
    let mut px4 = Autopilot::new();
    assert_eq!(push(&mut cache, &mut px4, first).unwrap().expect("pushed").verified, 21);

    // The second build is confirmed in part, and then the board falls silent.
    let mut half = cache.begin_push(second, PID_FINGERPRINT).expect("another build");
    for _ in 0..5 {
        half.on_event(&WriteEvent::Sent(SendOutcome::Queued));
        let i = match half.step() {
            PushStep::Await(i) => i,
            other => panic!("nothing is awaited in {:?}", other),
        };
        let echo = px4.answer(half.write_at(i));
        half.on_event(&echo);
    }
    assert_eq!(half.step(), PushStep::Send(5));
    assert_eq!(cache.last_fingerprint, None);
    assert_eq!(cache.last_verified, Some(first));

    let sent = px4.sets.len();
    let again = push(&mut cache, &mut px4, first).unwrap();
    assert_eq!(again.expect("the board holds a part of each build").verified, 21);
    assert_eq!(px4.sets.len(), sent + 21);
}

#[test]
fn only_its_own_echo_confirms_a_gain() {
    let mut cache = PidCache::new(true);
    let mut px4 = Autopilot::new();
    let p = params(REF_HOVER_CMD, REF_THR_MIN, true);
    let mut push = cache.begin_push(p, PID_FINGERPRINT).expect("nothing was pushed");
    push.on_event(&WriteEvent::Sent(SendOutcome::Queued));
    let stray = px4.answer(push.write_at(1));
    push.on_event(&stray);
    assert_eq!(push.step(), PushStep::Await(0), "the echo of another gain");
    let value = push.write_at(0).message().param_value;
    let report = ParamValue {
        name: "MC_ROLLRATE_P".to_string(),
        value,
        param_type: ParamType::Real32,
        index: 0,
    };
    push.on_event(&WriteEvent::Echo { report: report.clone(), distance: r32(0.001) });
    assert_eq!(push.step(), PushStep::Await(0), "too far from what was written");
    push.on_event(&WriteEvent::Lagged);
    assert_eq!(push.step(), PushStep::Send(0), "missed reports are no echo");
    push.on_event(&WriteEvent::Sent(SendOutcome::Queued));
    push.on_event(&WriteEvent::Echo { report, distance: r32(0.00005) });
    assert_eq!(push.step(), PushStep::Send(1));
}

#[test]
fn stages_are_announced_as_configuring() {
    let r = stage_report(ConfigStage::FetchingSpecs);
    assert!(matches!(r.state, ConfigState::Configuring));
    assert!(r.success);
    assert_eq!(r.stage, Some(ConfigStage::FetchingSpecs));
}

// ---- the catalogue and the estimator ----

#[test]
fn records_are_fetched_by_slug() {
    assert_eq!(
        component_url(&default_api_url(), "emax-2207"),
        "https://api.th3seus.net/api/components/emax-2207"
    );
    assert_eq!(FetchFault::Request("timeout".to_string()).text(), "HTTP request failed: timeout");
    assert_eq!(FetchFault::Status("404 Not Found".to_string()).text(), "API returned 404 Not Found");
    assert_eq!(FetchFault::Parse("eof".to_string()).text(), "Failed to parse response: eof");
    assert_eq!(FetchFault::NoSpecs.text(), "Response missing 'specs' field");
}

#[test]
fn the_estimator_is_restarted_at_most_so_often() {
    let mut r = EkfRestart::start(EKF_RESTART_ATTEMPTS);
    assert_eq!(r.step, EkfStep::Stop);
    r.on_event(EkfEvent::Queued);
    r.on_event(EkfEvent::WaitOver);
    r.on_event(EkfEvent::Queued);
    assert_eq!(r.step, EkfStep::Done);
    assert_eq!(r.failure(), None);

    for (event, reason) in [
        (EkfEvent::NoShell, "NSH channel not available"),
        (EkfEvent::Closed, "Failed to send ekf2 stop: channel closed"),
    ] {
        let mut r = EkfRestart::start(3);
        let mut tries = 0;
        while r.failure().is_none() {
            tries += 1;
            r.on_event(event);
            r.on_event(EkfEvent::WaitOver);
        }
        assert_eq!(tries, 3);
        assert_eq!(
            r.failure(),
            Some(format!("EKF2 restart failed after 3 attempts: {reason}"))
        );
    }

    let mut r = EkfRestart::start(1);
    r.on_event(EkfEvent::Queued);
    r.on_event(EkfEvent::WaitOver);
    r.on_event(EkfEvent::Closed);
    assert_eq!(
        r.failure().as_deref(),
        Some("EKF2 restart failed after 1 attempts: Failed to send ekf2 start: channel closed")
    );
}
