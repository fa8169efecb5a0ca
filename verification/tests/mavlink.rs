use hitl_daemon::flight::{
    ActuatorOutputs, AutopilotMessage, FlightMode, HilActuatorControls, ProtocolError,
};
use hitl_daemon::ieee::Real32;
use hitl_daemon::mavlink_io::async_io::{
    reconnect_delay, serialize_heartbeat, try_parse_message, FrameReader, LinkWriter, NshRequest,
    WriterEvent, WriterStep,
};
use hitl_daemon::mavlink_io::codec::{read_message, MavCodec};
use hitl_daemon::mavlink_io::heartbeat::{
    ConnectionState, Heartbeat, HeartbeatManager, MODE_FLAG_HIL_ENABLED, MODE_FLAG_SAFETY_ARMED,
    VEHICLE_TYPE_GCS,
};
use hitl_daemon::mavlink_io::messages::{
    build_hil_sensor, make_hil_gps, make_hil_sensor, HilGpsData, HilSensorData, Outbound,
    COMPONENT_ID, SYSTEM_ID,
};
use hitl_daemon::mavlink_io::serial::{
    candidate_probe_ports, contains_heartbeat, detect_flight_controller, find_pixhawk_ports,
    is_excluded_port, is_pixhawk_vid, maybe_prefer_tty, next_probe, scan_for_heartbeat,
    tty_variant, PortInfo, PortRead, ScanStep, SerialConfig, SerialError, VID_3DR, VID_HOLYBRO_1,
    VID_HOLYBRO_2, VID_NXP,
};
use hitl_daemon::param_io::{
    make_param_request_read, make_param_save, make_param_set, make_param_set_i32,
};
use mavlink::ardupilotmega::{
    HilSensorUpdatedFlags, MavCmd, MavMessage, MavModeFlag, MavParamType, MavType,
    SerialControlDev, SerialControlFlag,
};
use mavlink::{MavlinkVersion, Message};

fn r32(x: f32) -> Real32 {
    Real32::from_bits(x.to_bits())
}

fn number(x: Real32) -> f32 {
    f32::from_bits(x.bits)
}

fn decoded(m: &Outbound) -> MavMessage {
    MavMessage::parse(MavlinkVersion::V2, m.message_id(), &m.payload()).unwrap()
}

// ---- serial ports ----

#[test]
fn test_pixhawk_vid_detection() {
    assert!(is_pixhawk_vid(VID_3DR));
    assert!(is_pixhawk_vid(VID_NXP));
    assert!(is_pixhawk_vid(VID_HOLYBRO_1));
    assert!(is_pixhawk_vid(VID_HOLYBRO_2));
    assert!(!is_pixhawk_vid(0x1234));
}

fn heartbeat_v2_frame() -> Vec<u8> {
    // magic, len, incompat, compat, seq, sysid, compid, msgid(0,0,0)
    vec![0xFD, 9, 0, 0, 42, 1, 1, 0, 0, 0, 0, 0, 0, 0, 0, 0, 0, 0, 0]
}

fn heartbeat_v1_frame() -> Vec<u8> {
    // magic, len, seq, sysid, compid, msgid=0
    vec![0xFE, 9, 7, 1, 1, 0, 0, 0, 0, 0, 0, 0, 0, 0, 0]
}

#[test]
fn detects_a_mavlink_v2_heartbeat() {
    assert!(contains_heartbeat(&heartbeat_v2_frame()));
}

#[test]
fn detects_a_mavlink_v1_heartbeat() {
    assert!(contains_heartbeat(&heartbeat_v1_frame()));
}

#[test]
fn detects_a_heartbeat_that_does_not_start_at_the_first_byte() {
    // A probe opens mid-stream, so the first bytes read are usually the tail of
    // some other frame.
    let mut stream = vec![0x11, 0x22, 0x33, 0x44];
    stream.extend_from_slice(&heartbeat_v2_frame());
    assert!(contains_heartbeat(&stream));
}

#[test]
fn does_not_mistake_another_mavlink_message_for_a_heartbeat() {
    // Same framing, message id 30 (ATTITUDE). A port carrying MAVLink but no
    // heartbeat is not a flight controller announcing itself.
    let frame = vec![0xFD, 9, 0, 0, 42, 1, 1, 30, 0, 0, 0, 0, 0, 0];
    assert!(!contains_heartbeat(&frame));
}

#[test]
fn does_not_find_a_heartbeat_in_unrelated_traffic() {
    // A 3D printer answering G-code, for instance.
    assert!(!contains_heartbeat(b"ok T:210.0 /210.0 B:60.0 /60.0\n"));
}

#[test]
fn a_truncated_header_is_not_a_heartbeat() {
    // Magic byte at the very end of what was read so far: there is not enough
    // to decide, and guessing would adopt the wrong port.
    assert!(!contains_heartbeat(&[0x00, 0x00, 0xFD]));
    assert!(!contains_heartbeat(&[0xFE, 9, 7]));
}

/// Drive a probe with what a source would give, 256 bytes at a time, until the
/// window for this port is over.
fn scan(source: &[u8]) -> bool {
    let mut window: Vec<u8> = Vec::new();
    for chunk in source.chunks(256) {
        match scan_for_heartbeat(&mut window, PortRead::Data(chunk.to_vec())) {
            ScanStep::Heard => return true,
            ScanStep::GivenUp => return false,
            ScanStep::Listening => {}
        }
    }
    assert_eq!(
        scan_for_heartbeat(&mut window, PortRead::Quiet),
        ScanStep::Listening
    );
    scan_for_heartbeat(&mut window, PortRead::Deadline) == ScanStep::Heard
}

#[test]
fn scanning_adopts_a_port_that_emits_a_heartbeat() {
    assert!(scan(&heartbeat_v2_frame()));
}

#[test]
fn scanning_releases_a_port_that_stays_quiet() {
    // Bounded: the probe must give the port back rather than holding it.
    assert!(!scan(&[]));
    let mut window: Vec<u8> = Vec::new();
    assert_eq!(
        scan_for_heartbeat(&mut window, PortRead::Deadline),
        ScanStep::GivenUp
    );
}

#[test]
fn scanning_releases_a_port_carrying_unrelated_traffic() {
    let noise: Vec<u8> = std::iter::repeat(b"ok T:210.0\n")
        .take(50)
        .flat_map(|s| s.to_vec())
        .collect();
    assert!(!scan(&noise));
}

#[test]
fn scanning_gives_up_on_a_port_that_fails() {
    let mut window: Vec<u8> = Vec::new();
    assert_eq!(
        scan_for_heartbeat(&mut window, PortRead::Failed),
        ScanStep::GivenUp
    );
}

#[test]
fn a_header_split_between_reads_is_heard() {
    // More than the window's limit of noise first, so that the probe has
    // forgotten most of it, then a frame that is cut in its header.
    let mut window: Vec<u8> = Vec::new();
    for _ in 0..20 {
        assert_eq!(
            scan_for_heartbeat(&mut window, PortRead::Data(vec![0x55; 256])),
            ScanStep::Listening
        );
    }
    assert!(window.len() < 4096);
    let frame = heartbeat_v2_frame();
    assert_eq!(
        scan_for_heartbeat(&mut window, PortRead::Data(frame[..4].to_vec())),
        ScanStep::Listening
    );
    assert_eq!(
        scan_for_heartbeat(&mut window, PortRead::Data(frame[4..].to_vec())),
        ScanStep::Heard
    );
}

#[test]
fn the_scan_window_keeps_its_last_512_bytes() {
    let mut window: Vec<u8> = vec![1; 4096];
    scan_for_heartbeat(&mut window, PortRead::Data(vec![2]));
    assert_eq!(window.len(), 512);
    assert_eq!(window[511], 2);
    assert_eq!(window[510], 1);
}

#[test]
fn known_non_flight_controller_ports_are_excluded() {
    assert!(is_excluded_port("/dev/tty.Bluetooth-Incoming-Port"));
    assert!(is_excluded_port("/dev/tty.debug-console"));
    assert!(!is_excluded_port("/dev/tty.usbmodem01"));
    assert!(!is_excluded_port("/dev/ttyACM0"));
}

#[test]
fn test_serial_config_default() {
    let config = SerialConfig::default();
    assert_eq!(config.baud_rate, 921600);
    assert_eq!(config.timeout_ms, 100);
}

#[test]
fn test_serial_config_builder() {
    let config = SerialConfig::new(115200).with_timeout(1000);
    assert_eq!(config.baud_rate, 115200);
    assert_eq!(config.timeout_ms, 1000);
}

#[test]
fn serial_errors_name_the_port() {
    assert_eq!(
        SerialError::OpenFailed {
            port: "/dev/ttyACM0".to_string(),
            detail: "busy".to_string()
        }
        .text(),
        "Failed to open serial port '/dev/ttyACM0': busy"
    );
    assert_eq!(
        SerialError::EnumerationFailed {
            detail: "no bus".to_string()
        }
        .text(),
        "Failed to enumerate serial ports: no bus"
    );
    assert_eq!(SerialError::NoFcFound.text(), "No PX4 boards found");
}

#[test]
fn the_tty_device_is_preferred_where_it_exists() {
    assert_eq!(
        tty_variant("/dev/cu.usbmodem01"),
        Some("/dev/tty.usbmodem01".to_string())
    );
    assert_eq!(tty_variant("/dev/ttyACM0"), None);
    assert_eq!(
        maybe_prefer_tty("/dev/cu.usbmodem01", true),
        "/dev/tty.usbmodem01"
    );
    assert_eq!(
        maybe_prefer_tty("/dev/cu.usbmodem01", false),
        "/dev/cu.usbmodem01"
    );
    assert_eq!(maybe_prefer_tty("/dev/ttyACM0", true), "/dev/ttyACM0");
}

fn port(name: &str, vid: Option<u16>) -> PortInfo {
    PortInfo {
        name: name.to_string(),
        preferred: name.to_string(),
        vid,
    }
}

#[test]
fn ports_are_recognised_or_probed_but_never_both() {
    let ports = vec![
        port("/dev/ttyS0", None),
        port("/dev/ttyACM0", Some(VID_3DR)),
        port("/dev/ttyACM1", Some(0x1234)),
        port("/dev/ttyACM0", Some(VID_3DR)),
        port("/dev/wlan-debug", Some(0x1234)),
        port("/dev/ttyACM1", Some(0x1234)),
    ];
    assert_eq!(find_pixhawk_ports(&ports), vec!["/dev/ttyACM0".to_string()]);
    assert_eq!(
        candidate_probe_ports(&ports),
        vec!["/dev/ttyACM1".to_string()]
    );
}

#[test]
fn a_recognised_board_is_never_probed_for() {
    let known = vec!["a".to_string()];
    let candidates = vec!["b".to_string()];
    assert_eq!(next_probe(&known, &candidates, &vec![]), None);
    let outcome = detect_flight_controller(&known, &candidates, &vec![]);
    assert_eq!(outcome.found, known);
    assert_eq!(outcome.examined, known);
    assert!(!outcome.adopted_by_probe);
}

#[test]
fn probing_stops_at_the_first_heartbeat_and_reports_what_it_examined() {
    let candidates = vec!["a".to_string(), "b".to_string(), "c".to_string()];
    assert_eq!(next_probe(&vec![], &candidates, &vec![]), Some(0));
    assert_eq!(next_probe(&vec![], &candidates, &vec![false]), Some(1));
    assert_eq!(next_probe(&vec![], &candidates, &vec![false, true]), None);
    let outcome = detect_flight_controller(&vec![], &candidates, &vec![false, true]);
    assert_eq!(outcome.found, vec!["b".to_string()]);
    assert_eq!(outcome.examined, vec!["a".to_string(), "b".to_string()]);
    assert!(outcome.adopted_by_probe);

    let outcome = detect_flight_controller(&vec![], &candidates, &vec![false, false, false]);
    assert!(outcome.found.is_empty());
    assert_eq!(outcome.examined, candidates);
    assert!(!outcome.adopted_by_probe);
}

// ---- heartbeats ----

fn make_test_heartbeat(armed: bool) -> Heartbeat {
    Heartbeat {
        custom_mode: 0,
        vehicle_type: 2,
        autopilot: 12,
        base_mode: if armed { MODE_FLAG_SAFETY_ARMED } else { 0 },
        system_status: 3,
        mavlink_version: 3,
    }
}

#[test]
fn test_initial_state() {
    let manager = HeartbeatManager::new();
    assert_eq!(manager.state(), ConnectionState::Disconnected);
    assert!(!manager.is_connected());
    assert!(!manager.is_armed());
}

#[test]
fn test_heartbeat_connects() {
    let mut manager = HeartbeatManager::new();
    let heartbeat = make_test_heartbeat(false);

    manager.on_heartbeat_received(1, 1, &heartbeat, 0);

    assert_eq!(manager.state(), ConnectionState::Connected);
    assert!(manager.is_connected());
    assert!(!manager.is_armed());
    assert_eq!(manager.remote_system_id(), Some(1));
}

#[test]
fn test_armed_state() {
    let mut manager = HeartbeatManager::new();
    let heartbeat = make_test_heartbeat(true);

    manager.on_heartbeat_received(1, 1, &heartbeat, 0);

    assert_eq!(manager.state(), ConnectionState::Armed);
    assert!(manager.is_connected());
    assert!(manager.is_armed());
}

#[test]
fn test_make_heartbeat() {
    let msg = decoded(&Outbound::Heartbeat(HeartbeatManager::make_heartbeat()));
    match msg {
        MavMessage::HEARTBEAT(hb) => {
            assert_eq!(hb.mavtype, MavType::MAV_TYPE_GCS);
            assert_eq!(hb.mavlink_version, 3);
        }
        _ => panic!("Expected HEARTBEAT message"),
    }
    assert_eq!(
        HeartbeatManager::make_heartbeat().vehicle_type,
        VEHICLE_TYPE_GCS
    );
}

#[test]
fn a_silent_link_is_lost_once() {
    let mut manager = HeartbeatManager::new();
    manager.on_heartbeat_received(1, 1, &make_test_heartbeat(false), 1000);
    assert!(!manager.check_timeout(6000));
    assert!(manager.check_timeout(6001));
    assert_eq!(manager.state(), ConnectionState::Disconnected);
    assert!(!manager.check_timeout(7000));
    assert_eq!(manager.state().text(), "Disconnected");
}

// ---- messages ----

#[test]
fn test_make_hil_sensor() {
    let data = HilSensorData {
        time_usec: 1000000,
        xacc: r32(0.0),
        yacc: r32(0.0),
        zacc: r32(-9.81),
        ..Default::default()
    };

    let msg = decoded(&make_hil_sensor(&data));
    match msg {
        MavMessage::HIL_SENSOR(sensor) => {
            assert_eq!(sensor.time_usec, 1000000);
            assert!((sensor.zacc - (-9.81)).abs() < 0.01);
            assert_eq!(sensor.fields_updated, HilSensorUpdatedFlags::all());
        }
        _ => panic!("Expected HIL_SENSOR message"),
    }
}

#[test]
fn test_make_hil_gps() {
    let data = HilGpsData {
        time_usec: 1000000,
        fix_type: 3,
        lat: 473977418, // 47.3977418 degrees
        lon: 85455963,  // 8.5455963 degrees
        alt: 450000,    // 450m
        satellites_visible: 12,
        ..Default::default()
    };

    let msg = decoded(&make_hil_gps(&data));
    match msg {
        MavMessage::HIL_GPS(gps) => {
            assert_eq!(gps.time_usec, 1000000);
            assert_eq!(gps.fix_type, 3);
            assert_eq!(gps.lat, 473977418);
            assert_eq!(gps.satellites_visible, 12);
        }
        _ => panic!("Expected HIL_GPS message"),
    }
}

#[test]
fn every_sensor_field_reaches_its_place() {
    let data = HilSensorData {
        time_usec: 7,
        xacc: r32(1.0),
        yacc: r32(2.0),
        zacc: r32(3.0),
        xgyro: r32(4.0),
        ygyro: r32(5.0),
        zgyro: r32(6.0),
        xmag: r32(7.0),
        ymag: r32(8.0),
        zmag: r32(9.0),
        abs_pressure: r32(10.0),
        diff_pressure: r32(11.0),
        pressure_alt: r32(12.0),
        temperature: r32(13.0),
    };
    match decoded(&make_hil_sensor(&data)) {
        MavMessage::HIL_SENSOR(s) => {
            assert_eq!((s.xacc, s.yacc, s.zacc), (1.0, 2.0, 3.0));
            assert_eq!((s.xgyro, s.ygyro, s.zgyro), (4.0, 5.0, 6.0));
            assert_eq!((s.xmag, s.ymag, s.zmag), (7.0, 8.0, 9.0));
            assert_eq!((s.abs_pressure, s.diff_pressure), (10.0, 11.0));
            assert_eq!((s.pressure_alt, s.temperature), (12.0, 13.0));
        }
        _ => panic!("Expected HIL_SENSOR message"),
    }
}

#[test]
fn only_the_new_sensor_fields_are_flagged() {
    let data = HilSensorData { time_usec: 7, xacc: r32(1.0), ..Default::default() };
    match decoded(&build_hil_sensor(&data, 0x3f)) {
        MavMessage::HIL_SENSOR(s) => {
            assert_eq!(s.xacc, 1.0);
            assert_eq!(
                s.fields_updated,
                HilSensorUpdatedFlags::HIL_SENSOR_UPDATED_XACC
                    | HilSensorUpdatedFlags::HIL_SENSOR_UPDATED_YACC
                    | HilSensorUpdatedFlags::HIL_SENSOR_UPDATED_ZACC
                    | HilSensorUpdatedFlags::HIL_SENSOR_UPDATED_XGYRO
                    | HilSensorUpdatedFlags::HIL_SENSOR_UPDATED_YGYRO
                    | HilSensorUpdatedFlags::HIL_SENSOR_UPDATED_ZGYRO
            );
        }
        _ => panic!("Expected HIL_SENSOR message"),
    }
}

#[test]
fn every_gps_field_reaches_its_place() {
    let data = HilGpsData {
        time_usec: 9,
        fix_type: 3,
        lat: -1,
        lon: -473977418,
        alt: -20,
        eph: 100,
        epv: 200,
        vel: 300,
        vn: -1,
        ve: -300,
        vd: 250,
        cog: 35999,
        satellites_visible: 11,
    };
    match decoded(&make_hil_gps(&data)) {
        MavMessage::HIL_GPS(g) => {
            assert_eq!((g.lat, g.lon, g.alt), (-1, -473977418, -20));
            assert_eq!((g.eph, g.epv, g.vel), (100, 200, 300));
            assert_eq!((g.vn, g.ve, g.vd), (-1, -300, 250));
            assert_eq!((g.cog, g.fix_type, g.satellites_visible), (35999, 3, 11));
        }
        _ => panic!("Expected HIL_GPS message"),
    }
}

#[test]
fn parameter_messages_read_as_what_they_are() {
    match decoded(&Outbound::ParamSet(make_param_set("MC_ROLL_P", r32(6.5)))) {
        MavMessage::PARAM_SET(p) => {
            assert_eq!(p.param_value, 6.5);
            assert_eq!(p.param_type, MavParamType::MAV_PARAM_TYPE_REAL32);
            assert_eq!(&p.param_id[..9], b"MC_ROLL_P");
            assert_eq!((p.target_system, p.target_component), (1, 1));
        }
        _ => panic!("Expected PARAM_SET message"),
    }
    match decoded(&Outbound::ParamSet(make_param_set_i32("SYS_HITL", 1))) {
        MavMessage::PARAM_SET(p) => {
            assert_eq!(p.param_value.to_bits(), 1);
            assert_eq!(p.param_type, MavParamType::MAV_PARAM_TYPE_INT32);
        }
        _ => panic!("Expected PARAM_SET message"),
    }
    match decoded(&Outbound::ParamRequestRead(make_param_request_read("SYS_HITL"))) {
        MavMessage::PARAM_REQUEST_READ(p) => {
            assert_eq!(p.param_index, -1);
            assert_eq!(&p.param_id[..8], b"SYS_HITL");
        }
        _ => panic!("Expected PARAM_REQUEST_READ message"),
    }
    match decoded(&Outbound::CommandLong(make_param_save())) {
        MavMessage::COMMAND_LONG(c) => {
            assert_eq!(c.command, MavCmd::MAV_CMD_PREFLIGHT_STORAGE);
            assert_eq!((c.param1, c.param2, c.param7), (1.0, 0.0, 0.0));
            assert_eq!((c.target_system, c.target_component), (1, 1));
        }
        _ => panic!("Expected COMMAND_LONG message"),
    }
}

// ---- codec ----

#[test]
fn test_sequence_wrapping() {
    let mut codec = MavCodec::new();

    assert_eq!(codec.sequence(), 0);
    assert_eq!(codec.next_sequence(), 0);
    assert_eq!(codec.sequence(), 1);

    // Test wrapping
    codec.sequence = 255;
    assert_eq!(codec.next_sequence(), 255);
    assert_eq!(codec.sequence(), 0);
}

#[test]
fn test_custom_ids() {
    let codec = MavCodec::with_ids(42, 100);

    assert_eq!(codec.system_id, 42);
    assert_eq!(codec.component_id, 100);
}

#[test]
fn a_frame_that_was_sent_reads_back() {
    let mut codec = MavCodec::with_ids(42, 100);
    codec.sequence = 7;
    let data = HilGpsData {
        lat: 473977418,
        satellites_visible: 12,
        ..Default::default()
    };
    let frame = codec.send(&make_hil_gps(&data)).unwrap();
    assert_eq!(frame[0], 0xFD);
    assert_eq!(frame.len(), 12 + frame[1] as usize);
    let read = read_message(&frame).unwrap();
    assert_eq!(read.frame.system_id, 42);
    assert_eq!(read.frame.component_id, 100);
    assert_eq!(read.frame.sequence, 7);
    assert_eq!(read.frame.message_id, 113);
    assert_eq!(read.frame.consumed, frame.len());
    assert!(read.shell.is_none());
    match MavMessage::parse(MavlinkVersion::V2, 113, &read.frame.payload).unwrap() {
        MavMessage::HIL_GPS(gps) => assert_eq!(gps.lat, 473977418),
        _ => panic!("Expected HIL_GPS message"),
    }
}

#[test]
fn a_damaged_frame_is_not_read() {
    let mut codec = MavCodec::new();
    let mut frame = serialize_heartbeat(&mut codec).unwrap();
    let last = frame.len() - 1;
    frame[last] ^= 0xFF;
    assert!(read_message(&frame).is_none());
    assert!(read_message(&[]).is_none());
}

#[test]
fn the_daemons_own_heartbeat_is_recognised_by_a_probe() {
    let mut codec = MavCodec::new();
    let frame = serialize_heartbeat(&mut codec).unwrap();
    assert!(contains_heartbeat(&frame));
    assert_eq!(codec.sequence(), 1);
}

#[test]
fn only_what_mavlink_defines_has_a_frame() {
    let mut codec = MavCodec::new();
    let beat = |vehicle_type: u8, autopilot: u8, system_status: u8| {
        Outbound::Heartbeat(Heartbeat {
            custom_mode: 0,
            vehicle_type,
            autopilot,
            base_mode: 0,
            system_status,
            mavlink_version: 3,
        })
    };
    for vehicle_type in 0..=42 {
        assert!(codec.send(&beat(vehicle_type, 12, 4)).is_some());
    }
    for autopilot in 0..=20 {
        assert!(codec.send(&beat(2, autopilot, 4)).is_some());
    }
    for system_status in 0..=8 {
        assert!(codec.send(&beat(2, 12, system_status)).is_some());
    }
    assert!(codec.send(&beat(200, 12, 4)).is_none());

    let mut save = make_param_save();
    assert!(codec.send(&Outbound::CommandLong(save)).is_some());
    save.command = 65535;
    assert!(codec.send(&Outbound::CommandLong(save)).is_none());
}

#[test]
fn what_was_written_is_read_in_order() {
    let mut codec = MavCodec::with_ids(3, 4);
    let save = make_param_save();
    let messages = [
        make_hil_gps(&HilGpsData::default()),
        Outbound::CommandLong(save),
        build_hil_sensor(&HilSensorData { time_usec: 0xFD, ..Default::default() }, u32::MAX),
        Outbound::ParamSet(make_param_set_i32("SYS_HITL", 1)),
        Outbound::ParamRequestRead(make_param_request_read("SYS_HITL")),
    ];
    let mut stream = Vec::new();
    for m in &messages {
        stream.extend(codec.send(m).unwrap());
    }
    let mut reader = FrameReader::new();
    let arrivals = reader.feed(&stream);
    assert_eq!(arrivals.len(), messages.len());
    for (i, (a, m)) in arrivals.iter().zip(&messages).enumerate() {
        assert_eq!(a.frame.message_id, m.message_id());
        assert_eq!((a.frame.system_id, a.frame.component_id), (3, 4));
        assert_eq!(a.frame.sequence as usize, i);
    }
    assert!(reader.feed(&[]).is_empty());
}

// ---- the link ----

#[test]
fn reconnection_backs_off_to_a_second() {
    assert_eq!(reconnect_delay(0), 250);
    assert_eq!(reconnect_delay(1), 500);
    assert_eq!(reconnect_delay(2), 1000);
    assert_eq!(reconnect_delay(3), 1000);
    assert_eq!(reconnect_delay(255), 1000);
}

#[test]
fn a_reader_gathers_frames_across_reads() {
    let mut codec = MavCodec::new();
    let mut stream = vec![0x00, 0x11, 0x22];
    stream.extend(serialize_heartbeat(&mut codec).unwrap());
    stream.extend(serialize_heartbeat(&mut codec).unwrap());
    let cut = stream.len() - 5;
    let mut reader = FrameReader::new();
    let first = reader.feed(&stream[..cut]);
    assert_eq!(first.len(), 1);
    assert_eq!(first[0].frame.sequence, 0);
    assert!(first[0].reply.is_none());
    let second = reader.feed(&stream[cut..]);
    assert_eq!(second.len(), 1);
    assert_eq!(second[0].frame.sequence, 1);
    assert_eq!(reader.take_packet_count(), 2);
    assert_eq!(reader.take_packet_count(), 0);
}

#[test]
fn too_few_bytes_are_not_looked_at() {
    assert!(try_parse_message(&[0xFD, 0, 0, 0, 0, 0, 0]).is_none());
}

/// The frames a writer sends for some shell input.
fn typed(data: &[u8]) -> Vec<Vec<u8>> {
    let (mut writer, first) = LinkWriter::start(0);
    assert!(matches!(first, WriterStep::Write(_)));
    assert!(matches!(
        writer.on_event(WriterEvent::Written { ok: true, now_ms: 0 }),
        WriterStep::NextTurn
    ));
    assert!(matches!(
        writer.on_event(WriterEvent::Turn {
            shutdown: false,
            now_ms: 10
        }),
        WriterStep::PollShell
    ));
    let mut frames = Vec::new();
    let mut step = writer.on_event(WriterEvent::Shell(Some(NshRequest {
        request_id: 5,
        data: data.to_vec(),
        timeout_ms: 2000,
    })));
    while let WriterStep::Write(frame) = step {
        frames.push(frame);
        step = writer.on_event(WriterEvent::Written {
            ok: true,
            now_ms: 11,
        });
    }
    assert!(matches!(step, WriterStep::PollMessages));
    frames
}

/// Whether a frame carries the daemon's ids, a sequence number and a message's
/// number.
fn has_header(frame: &[u8], sequence: u8, message_id: u8) -> bool {
    frame.len() == frame[1] as usize + 12
        && frame[0] == 0xFD
        && frame[2..4] == [0, 0]
        && frame[4] == sequence
        && frame[5] == SYSTEM_ID
        && frame[6] == COMPONENT_ID
        && frame[7..10] == [message_id, 0, 0]
}

#[test]
fn what_a_writer_sends_carries_the_daemons_ids() {
    let (mut writer, first) = LinkWriter::start(0);
    match first {
        WriterStep::Write(frame) => assert!(has_header(&frame, 0, 0)),
        _ => panic!("Expected a heartbeat"),
    }
    writer.on_event(WriterEvent::Written { ok: true, now_ms: 0 });
    match writer.on_event(WriterEvent::Turn {
        shutdown: false,
        now_ms: 1000,
    }) {
        WriterStep::Write(frame) => assert!(has_header(&frame, 1, 0)),
        _ => panic!("Expected a heartbeat"),
    }
    writer.on_event(WriterEvent::Written {
        ok: true,
        now_ms: 1000,
    });
    match writer.on_event(WriterEvent::Shell(Some(NshRequest {
        request_id: 1,
        data: b"ver\n".to_vec(),
        timeout_ms: 1,
    }))) {
        WriterStep::Write(frame) => assert!(has_header(&frame, 2, 126)),
        _ => panic!("Expected shell input"),
    }
    writer.on_event(WriterEvent::Written {
        ok: true,
        now_ms: 1001,
    });
    let request = Outbound::ParamRequestRead(make_param_request_read("SYS_HITL"));
    match writer.on_event(WriterEvent::Message(request)) {
        WriterStep::Write(frame) => assert!(has_header(&frame, 3, 20)),
        _ => panic!("Expected a message"),
    }
}

#[test]
fn shell_input_goes_out_in_pieces_of_seventy_bytes() {
    let data: Vec<u8> = (0..150u8).collect();
    let frames = typed(&data);
    assert_eq!(frames.len(), 3);
    let mut carried = Vec::new();
    for (i, frame) in frames.iter().enumerate() {
        let read = read_message(frame).unwrap();
        assert_eq!(read.frame.sequence, 1 + i as u8);
        let message = MavMessage::parse(MavlinkVersion::V2, 126, &read.frame.payload).unwrap();
        match message {
            MavMessage::SERIAL_CONTROL(sc) => {
                assert_eq!(sc.device, SerialControlDev::SERIAL_CONTROL_DEV_SHELL);
                assert_eq!(
                    sc.flags,
                    SerialControlFlag::SERIAL_CONTROL_FLAG_RESPOND
                        | SerialControlFlag::SERIAL_CONTROL_FLAG_EXCLUSIVE
                );
                assert_eq!(sc.timeout, 2000);
                assert_eq!(sc.baudrate, 0);
                carried.extend_from_slice(&sc.data[..sc.count as usize]);
            }
            _ => panic!("Expected SERIAL_CONTROL message"),
        }
    }
    assert_eq!(carried, data);
    assert!(typed(&[]).is_empty());
}

#[test]
fn shell_output_is_handed_on_with_its_message() {
    let frames = typed(b"ver all\n");
    let mut reader = FrameReader::new();
    let arrivals = reader.feed(&frames[0]);
    assert_eq!(arrivals.len(), 1);
    let reply = arrivals[0].reply.as_ref().unwrap();
    assert_eq!(reply.request_id, 0);
    assert_eq!(reply.data, b"ver all\n");
    assert!(!reply.complete);
}

#[test]
fn an_empty_shell_message_completes_the_reply() {
    let mut codec = MavCodec::new();
    let empty = Outbound::SerialControl(hitl_daemon::mavlink_io::messages::SerialControl {
        timeout: 0,
        count: 0,
        data: [0; 70],
    });
    let frame = codec.send(&empty).unwrap();
    let arrivals = FrameReader::new().feed(&frame);
    let reply = arrivals[0].reply.as_ref().unwrap();
    assert!(reply.data.is_empty());
    assert!(reply.complete);
}

#[test]
fn a_writer_beats_once_a_second() {
    let (mut writer, _) = LinkWriter::start(0);
    writer.on_event(WriterEvent::Written { ok: true, now_ms: 0 });
    let step = writer.on_event(WriterEvent::Turn {
        shutdown: false,
        now_ms: 999,
    });
    assert!(matches!(step, WriterStep::PollShell));
    assert!(matches!(
        writer.on_event(WriterEvent::Shell(None)),
        WriterStep::PollMessages
    ));
    assert!(matches!(
        writer.on_event(WriterEvent::Idle),
        WriterStep::Pause(100)
    ));
    match writer.on_event(WriterEvent::Turn {
        shutdown: false,
        now_ms: 1000,
    }) {
        WriterStep::Write(frame) => assert!(contains_heartbeat(&frame)),
        _ => panic!("Expected a heartbeat"),
    }
}

#[test]
fn a_writer_survives_shell_failures_but_not_others() {
    let (mut writer, _) = LinkWriter::start(0);
    writer.on_event(WriterEvent::Written {
        ok: false,
        now_ms: 0,
    });
    writer.on_event(WriterEvent::Turn {
        shutdown: false,
        now_ms: 1,
    });
    let step = writer.on_event(WriterEvent::Shell(Some(NshRequest {
        request_id: 1,
        data: vec![b'x'; 100],
        timeout_ms: 1,
    })));
    assert!(matches!(step, WriterStep::Write(_)));
    assert!(matches!(
        writer.on_event(WriterEvent::Written {
            ok: false,
            now_ms: 2
        }),
        WriterStep::PollMessages
    ));
    let step = writer.on_event(WriterEvent::Message(make_hil_gps(&HilGpsData::default())));
    assert!(matches!(step, WriterStep::Write(_)));
    assert!(matches!(
        writer.on_event(WriterEvent::Written {
            ok: false,
            now_ms: 3
        }),
        WriterStep::Stop
    ));
}

#[test]
fn a_writer_stops_when_told_to() {
    let (mut writer, _) = LinkWriter::start(0);
    writer.on_event(WriterEvent::Written { ok: true, now_ms: 0 });
    assert!(matches!(
        writer.on_event(WriterEvent::Turn {
            shutdown: true,
            now_ms: 5000
        }),
        WriterStep::Stop
    ));
}

// ---- actuator outputs ----

#[test]
fn test_default_actuator_outputs() {
    let outputs = ActuatorOutputs::default();
    assert_eq!(outputs.timestamp_us, 0);
    assert_eq!(outputs.motors.map(number), [0.0; 4]);
    assert_eq!(outputs.mode, FlightMode::Disarmed);
}

#[test]
fn test_from_hil_actuator_controls() {
    let mut controls = [r32(0.0); 16];
    // PX4 channels match sim motors 1-4 directly (Standard Quad X)
    controls[0] = r32(0.1); // ch0 = Motor 1 (FR, CCW)
    controls[1] = r32(0.2); // ch1 = Motor 2 (BL, CCW)
    controls[2] = r32(0.3); // ch2 = Motor 3 (FL, CW)
    controls[3] = r32(0.4); // ch3 = Motor 4 (BR, CW)

    let data = HilActuatorControls {
        time_usec: 1000000,
        controls,
        mode: MODE_FLAG_SAFETY_ARMED | MODE_FLAG_HIL_ENABLED,
        flags: 0,
    };

    let outputs = ActuatorOutputs::from_hil_actuator_controls(&data).unwrap();

    assert_eq!(outputs.timestamp_us, 1000000);
    assert_eq!(outputs.mode, FlightMode::HilArmed);
    assert!(outputs.is_armed());
    assert!(outputs.is_hil_active());

    // Identity mapping: sim motors = px4 channels directly
    assert!((number(outputs.motors[0]) - 0.1).abs() < 0.01); // Motor 1 (FR)
    assert!((number(outputs.motors[1]) - 0.2).abs() < 0.01); // Motor 2 (BL)
    assert!((number(outputs.motors[2]) - 0.3).abs() < 0.01); // Motor 3 (FL)
    assert!((number(outputs.motors[3]) - 0.4).abs() < 0.01); // Motor 4 (BR)
}

#[test]
fn motor_outputs_are_limited() {
    let mut controls = [r32(0.0); 16];
    controls[0] = r32(-0.5);
    controls[1] = r32(1.5);
    controls[2] = r32(f32::NAN);
    let data = HilActuatorControls {
        time_usec: 1,
        controls,
        mode: 0,
        flags: 0,
    };
    let outputs = ActuatorOutputs::from_hil_actuator_controls(&data).unwrap();
    assert_eq!(number(outputs.motors[0]), 0.0);
    assert_eq!(number(outputs.motors[1]), 1.0);
    assert!(number(outputs.motors[2]).is_nan());
    assert_eq!(number(outputs.controls[1]), 1.5);
}

#[test]
fn test_decode_mode() {
    assert_eq!(
        ActuatorOutputs::decode_mode(MavModeFlag::empty().bits()),
        FlightMode::Disarmed
    );
    assert_eq!(
        ActuatorOutputs::decode_mode(MavModeFlag::MAV_MODE_FLAG_SAFETY_ARMED.bits()),
        FlightMode::Armed
    );
    assert_eq!(
        ActuatorOutputs::decode_mode(
            (MavModeFlag::MAV_MODE_FLAG_SAFETY_ARMED | MavModeFlag::MAV_MODE_FLAG_HIL_ENABLED)
                .bits()
        ),
        FlightMode::HilArmed
    );
    assert_eq!(
        ActuatorOutputs::decode_mode(MavModeFlag::MAV_MODE_FLAG_HIL_ENABLED.bits()),
        FlightMode::Disarmed
    ); // HIL but not armed
}

#[test]
fn lib_test_invalid_message_type() {
    let result = ActuatorOutputs::from_mavlink(&AutopilotMessage::Other);
    assert!(matches!(result, Err(ProtocolError::InvalidMessageType)));
}

#[test]
fn actuator_errors_name_what_is_wrong() {
    assert_eq!(
        ProtocolError::InvalidMessageType.text(""),
        "Invalid message type, expected HIL_ACTUATOR_CONTROLS"
    );
    assert_eq!(
        ProtocolError::InvalidActuatorValue {
            index: 3,
            value: r32(1.5)
        }
        .text("1.5"),
        "Invalid actuator value: 1.5 at index 3"
    );
}
