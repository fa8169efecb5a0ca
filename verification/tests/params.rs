use hitl_daemon::board_identity::{AutopilotVersion, BoardIdentity};
use hitl_daemon::exchange::{ExchangeStep, SendOutcome};
use hitl_daemon::ieee::Real32;
use hitl_daemon::param_io::{
    bits_i32, decode_param_id, i32_bits, make_param_request_read, ParamReadError, ParamReadPolicy,
    ParamReport, ParamType, ParamValue,
};
use hitl_daemon::param_read::{ParamRead, ParamReads, ReadEvent};
use hitl_daemon::protocol::provisioning::SnapshotParam;
use hitl_daemon::snapshot::{SessionSnapshot, StoredSnapshot};

fn r32(x: f32) -> Real32 {
    Real32::from_bits(x.to_bits())
}

fn number(x: Real32) -> f32 {
    f32::from_bits(x.bits)
}

// ---- board identity ----

fn autopilot_version() -> AutopilotVersion {
    AutopilotVersion {
        uid: 0,
        flight_sw_version: 0,
        board_version: 0,
        vendor_id: 0,
        product_id: 0,
    }
}

#[test]
fn prefers_the_hardware_uid() {
    let mut av = autopilot_version();
    av.uid = 0x0123_4567_89ab_cdef;
    // Even with a usable composite available, uid wins: it is the only field
    // that is genuinely per-board.
    av.vendor_id = 0x26ac;
    av.product_id = 0x0011;

    let id = hitl_daemon::board_identity::derive(&av, 1).expect("uid is present");
    assert_eq!(id.as_str(), "uid:0123456789abcdef");
}

#[test]
fn identity_survives_a_firmware_update() {
    // Snapshots have to outlive a reflash. Including any firmware version field
    // would silently orphan every snapshot on update.
    let mut before = autopilot_version();
    before.vendor_id = 0x26ac;
    before.flight_sw_version = 0x0100_0000;
    let mut after = autopilot_version();
    after.vendor_id = 0x26ac;
    after.flight_sw_version = 0x0200_0000;

    assert_eq!(hitl_daemon::board_identity::derive(&before, 1), hitl_daemon::board_identity::derive(&after, 1));
}

#[test]
fn falls_back_to_composite_when_no_uid_is_available() {
    let mut av = autopilot_version();
    av.vendor_id = 0x26ac;
    av.product_id = 0x0032;
    av.board_version = 0x0000_0009;

    let id = hitl_daemon::board_identity::derive(&av, 1).expect("composite is available");
    assert_eq!(id.as_str(), "board:26ac-0032-00000009-01");
}

#[test]
fn two_distinct_boards_produce_distinct_keys() {
    let mut first = autopilot_version();
    first.uid = 0x1111_1111_1111_1111;
    let mut second = autopilot_version();
    second.uid = 0x2222_2222_2222_2222;

    assert_ne!(hitl_daemon::board_identity::derive(&first, 1), hitl_daemon::board_identity::derive(&second, 1));
}

#[test]
fn the_same_board_produces_a_stable_key_across_reads() {
    let mut av = autopilot_version();
    av.uid = 0xfeed_face_dead_beef;
    // Identity must not drift between reads, or a restore would be refused on
    // the very board the snapshot came from.
    assert_eq!(hitl_daemon::board_identity::derive(&av, 1), hitl_daemon::board_identity::derive(&av, 1));
}

#[test]
fn composite_distinguishes_boards_on_different_system_ids() {
    let mut av = autopilot_version();
    av.vendor_id = 0x26ac;
    assert_ne!(hitl_daemon::board_identity::derive(&av, 1), hitl_daemon::board_identity::derive(&av, 2));
}

#[test]
fn nothing_distinguishing_yields_no_identity() {
    // Better to refuse the snapshot than to hand every anonymous board the same
    // key and let one board's tuning be restored onto another.
    assert_eq!(hitl_daemon::board_identity::derive(&autopilot_version(), 1), None);
}

#[test]
fn a_serial_is_never_taken_for_a_make() {
    let mut av = autopilot_version();
    av.board_version = 9;
    let make = hitl_daemon::board_identity::derive(&av, 1).unwrap();
    av.uid = 9;
    assert_ne!(hitl_daemon::board_identity::derive(&av, 1).unwrap(), make);
    assert_eq!(BoardIdentity::from_raw_for_test("x").as_str(), "x");
}

// ---- session snapshot ----

fn snapshot(board: &str) -> StoredSnapshot {
    StoredSnapshot {
        board_identity: board.to_string(),
        params: vec![SnapshotParam {
            name: "SYS_HITL".to_string(),
            value: r32(0.0),
            param_type: "int32".to_string(),
        }],
    }
}

#[test]
fn a_fresh_daemon_holds_nothing() {
    // A restarted process has no memory of prior sessions and must wait for a
    // browser to supply the snapshot it persisted.
    let store = SessionSnapshot::new();
    assert!(store.is_empty());
    assert!(store.get("uid:3034510f33323831").is_none());
}

#[test]
fn a_supplied_snapshot_is_readable_for_its_board() {
    let mut store = SessionSnapshot::new();
    store.store(snapshot("uid:aaaa"));

    let held = store.get("uid:aaaa").expect("stored for this board");
    assert_eq!(held.params.len(), 1);
    assert_eq!(held.params[0].param_type, "int32");
}

#[test]
fn a_snapshot_is_not_returned_for_a_different_board() {
    // The dangerous case: a second board plugged in mid-session must not be
    // handed the first board's tuning.
    let mut store = SessionSnapshot::new();
    store.store(snapshot("uid:aaaa"));
    assert!(store.get("uid:bbbb").is_none());
}

#[test]
fn a_newer_capture_replaces_the_previous_one() {
    let mut store = SessionSnapshot::new();
    store.store(snapshot("uid:aaaa"));

    let mut newer = snapshot("uid:aaaa");
    newer.params[0].value = r32(1.0);
    store.store(newer);

    assert_eq!(number(store.get("uid:aaaa").unwrap().params[0].value), 1.0);
}

#[test]
fn clearing_returns_the_store_to_empty() {
    let mut store = SessionSnapshot::new();
    store.store(snapshot("uid:aaaa"));
    store.clear();
    assert!(store.is_empty());
    assert!(store.get("uid:aaaa").is_none());
}

// ---- parameter values ----

fn param_id(name: &str) -> [u8; 16] {
    let mut buf = [0u8; 16];
    let bytes = name.as_bytes();
    let n = bytes.len().min(16);
    buf[..n].copy_from_slice(&bytes[..n]);
    buf
}

fn param_value(name: &str, value: f32, param_type: ParamType) -> ParamReport {
    ParamReport {
        param_value: r32(value),
        param_count: 900,
        param_index: 42,
        param_id: param_id(name),
        param_type,
    }
}

#[test]
fn decodes_name_value_type_and_index() {
    let pv = param_value("SYS_HITL", 1.0, ParamType::Int32);
    let decoded = ParamValue::from_mavlink(&pv).expect("well-formed PARAM_VALUE");
    assert_eq!(decoded.name, "SYS_HITL");
    assert_eq!(number(decoded.value), 1.0);
    assert_eq!(decoded.param_type, ParamType::Int32);
    assert_eq!(decoded.index, 42);
}

#[test]
fn decodes_a_name_that_fills_the_buffer_exactly() {
    // 16 chars, so there is no NUL terminator to trim.
    let name = "ABCDEFGHIJKLMNOP";
    let pv = param_value(name, 0.0, ParamType::Real32);
    let decoded = ParamValue::from_mavlink(&pv).expect("well-formed PARAM_VALUE");
    assert_eq!(decoded.name, name);
}

#[test]
fn empty_name_is_rejected() {
    let pv = param_value("", 0.0, ParamType::Real32);
    assert!(ParamValue::from_mavlink(&pv).is_none());
}

#[test]
fn a_name_that_is_not_text_is_rejected() {
    let mut pv = param_value("AB", 0.0, ParamType::Real32);
    pv.param_id[0] = 0xFF;
    assert!(ParamValue::from_mavlink(&pv).is_none());
}

#[test]
fn integer_and_real_types_are_distinguished() {
    // The distinction PX4 enforces: an INT32 written as REAL32 is dropped
    // silently, with no PARAM_VALUE reply at all.
    let int_param =
        ParamValue::from_mavlink(&param_value("SYS_AUTOSTART", 4001.0, ParamType::Int32)).unwrap();
    let real_param =
        ParamValue::from_mavlink(&param_value("EKF2_REQ_HDRIFT", 0.3, ParamType::Real32)).unwrap();
    assert!(int_param.is_integer());
    assert!(!real_param.is_integer());
}

#[test]
fn zero_valued_int_is_not_mistaken_for_a_real() {
    // Value alone cannot tell these apart, which is the whole reason the type
    // is carried rather than inferred at restore time.
    let as_int = ParamValue::from_mavlink(&param_value("A", 0.0, ParamType::Int32)).unwrap();
    let as_real = ParamValue::from_mavlink(&param_value("A", 0.0, ParamType::Real32)).unwrap();
    assert_eq!(as_int.value, as_real.value);
    assert_ne!(as_int.param_type, as_real.param_type);
}

#[test]
fn an_integer_is_decoded_from_its_bits() {
    let mut pv = param_value("A", 0.0, ParamType::Int32);
    for n in [0, 1, -1, 4001, 16777217, i32::MIN, i32::MAX] {
        pv.param_value = Real32::from_bits(n as u32);
        let decoded = ParamValue::from_mavlink(&pv).unwrap().decoded_value();
        assert_eq!(number(decoded), n as f32);
        assert_eq!(i32_bits(n), n as u32);
        assert_eq!(bits_i32(n as u32), n);
    }
}

// ---- reads ----

/// A board that answers reads of the parameters it has, after ignoring some
/// requests.
struct Board {
    table: Vec<(&'static str, f32, ParamType)>,
    ignore_first: usize,
    requests: usize,
}

impl Board {
    fn new(table: Vec<(&'static str, f32, ParamType)>, ignore_first: usize) -> Board {
        Board {
            table,
            ignore_first,
            requests: 0,
        }
    }

    fn read(&mut self, name: &str) -> Result<ParamValue, ParamReadError> {
        let mut read = ParamRead::start(name, ParamReadPolicy::default());
        loop {
            match read.step() {
                ExchangeStep::Send => {
                    self.requests += 1;
                    assert_eq!(decode_param_id(&read.request().param_id), name);
                    read.on_event(ReadEvent::Sent(SendOutcome::Queued));
                }
                ExchangeStep::Pause => read.on_event(ReadEvent::PauseOver),
                ExchangeStep::Await => {
                    let row = self.table.iter().find(|(n, _, _)| *n == name);
                    match row {
                        Some((n, v, t)) if self.requests > self.ignore_first => {
                            // An unrelated report first, which is drained.
                            let other =
                                ParamValue::from_mavlink(&param_value("OTHER", 9.0, *t)).unwrap();
                            read.on_event(ReadEvent::Report(other));
                            let pv = ParamValue::from_mavlink(&param_value(n, *v, *t)).unwrap();
                            read.on_event(ReadEvent::Report(pv));
                        }
                        _ => read.on_event(ReadEvent::TimedOut),
                    }
                }
                _ => return read.outcome(),
            }
        }
    }
}

#[test]
fn reads_a_parameter_and_returns_its_declared_type() {
    let mut board = Board::new(vec![("SYS_HITL", 0.0, ParamType::Int32)], 0);
    let value = board.read("SYS_HITL").unwrap();
    assert_eq!(value.name, "SYS_HITL");
    assert_eq!(number(value.value), 0.0);
    // The point of the read: a zero-valued INT32 is indistinguishable from a
    // REAL32 by value, so the type has to come from PX4.
    assert_eq!(value.param_type, ParamType::Int32);
    assert!(value.is_integer());
}

#[test]
fn request_addresses_by_name_not_index() {
    // Parameter indices shift between firmware builds; addressing by index
    // would read the wrong parameter after a firmware update.
    let req = make_param_request_read("EKF2_REQ_HDRIFT");
    assert_eq!(req.param_index, -1);
    assert_eq!(decode_param_id(&req.param_id), "EKF2_REQ_HDRIFT");
}

#[test]
fn a_parameter_name_survives_the_name_field() {
    for name in ["", "A", "SYS_HITL", "MC_ROLLRATE_P", "EKF2_REQ_HDRIFT1"] {
        assert!(name.len() <= 16);
        assert_eq!(decode_param_id(&make_param_request_read(name).param_id), name);
    }
    let long = make_param_request_read("EKF2_REQ_HDRIFT_LONG");
    assert_eq!(decode_param_id(&long.param_id), "EKF2_REQ_HDRIFT_", "cut to the field");
}

#[test]
fn retries_when_the_first_request_is_dropped() {
    let mut board = Board::new(vec![("COM_ARM_SDCARD", 1.0, ParamType::Int32)], 1);
    let value = board.read("COM_ARM_SDCARD").unwrap();
    assert_eq!(number(value.value), 1.0);
    assert_eq!(board.requests, 2);
}

#[test]
fn unknown_parameter_reports_no_reply() {
    let mut board = Board::new(vec![], 0);
    let result = board.read("NOT_A_PARAM");
    assert!(matches!(result, Err(ParamReadError::NoReply)));
    assert_eq!(board.requests, 3);
}

#[test]
fn bulk_read_reports_which_names_failed() {
    let mut board = Board::new(
        vec![
            ("SYS_HITL", 0.0, ParamType::Int32),
            ("EKF2_REQ_HDRIFT", 0.3, ParamType::Real32),
        ],
        0,
    );
    let mut reads = ParamReads::start(vec![
        "SYS_HITL".to_string(),
        "GHOST_PARAM".to_string(),
        "EKF2_REQ_HDRIFT".to_string(),
    ]);
    while let Some(name) = reads.next_name().map(|n| n.to_string()) {
        reads.record(board.read(&name));
    }
    let (values, failed) = reads.finish();

    assert_eq!(values.len(), 2);
    // The caller has to be able to tell the user every parameter that could not
    // be captured, not just the first.
    assert_eq!(failed, vec!["GHOST_PARAM".to_string()]);
}

#[test]
fn disconnected_link_is_reported_distinctly_from_silence() {
    let mut read = ParamRead::start("SYS_HITL", ParamReadPolicy::default());
    assert_eq!(read.step(), ExchangeStep::Send);
    read.on_event(ReadEvent::Sent(SendOutcome::Disconnected));
    assert!(matches!(read.outcome(), Err(ParamReadError::LinkClosed)));
}

#[test]
fn a_full_queue_is_waited_for() {
    let mut read = ParamRead::start("SYS_HITL", ParamReadPolicy::default());
    read.on_event(ReadEvent::Sent(SendOutcome::Full));
    assert_eq!(read.step(), ExchangeStep::Pause);
    read.on_event(ReadEvent::PauseOver);
    assert_eq!(read.step(), ExchangeStep::Send);
}
