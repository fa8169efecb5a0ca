//! What provisioning writes, and how a board reports that it took effect.
use crate::exchange;
use crate::exchange::ParamWrite;
use crate::ieee::Real32;
use crate::mavlink_io::heartbeat::{Heartbeat, MODE_FLAG_HIL_ENABLED, VEHICLE_TYPE_QUADROTOR};
use crate::param_read;
use vstd::prelude::*;

verus! {

/// Airframe of a generic quadcopter.
pub const QUADROTOR_AUTOSTART_ID: i32 = 4001;

/// Bit pattern of 3.0.
pub const REAL_THREE: u32 = 0x4040_0000;

/// Number of parameters provisioning writes.
pub const PROVISIONED_PARAM_COUNT: usize = 21;

/// Whether a heartbeat reports simulation mode, and whether it reports a
/// quadrotor.
pub fn heartbeat_hitl_signals(hb: &Heartbeat) -> (r: (bool, bool))
    ensures
        r == (hb.hil_enabled(), hb.vehicle_type == VEHICLE_TYPE_QUADROTOR),
{
    (hb.base_mode & MODE_FLAG_HIL_ENABLED != 0, hb.vehicle_type == VEHICLE_TYPE_QUADROTOR)
}

/// A write of an integer parameter.
pub open spec fn int_write(name: Seq<char>, value: i32) -> exchange::WriteModel {
    exchange::WriteModel { name, value: exchange::WriteValue::Int(value) }
}

/// A write of a floating-point parameter, given as a bit pattern.
pub open spec fn number_write(name: Seq<char>, bits: u32) -> exchange::WriteModel {
    exchange::WriteModel { name, value: exchange::WriteValue::Number(Real32 { bits }) }
}

/// The writes of provisioning, in order: simulation mode, the airframe, and
/// what an armable simulation needs besides. Simulation mode alone does
/// nothing about the gates that look for a real IMU, barometer, compass and SD
/// card.
pub open spec fn provisioning() -> Seq<exchange::WriteModel> {
    seq![
        int_write("SYS_HITL"@, 1),
        int_write("SYS_AUTOSTART"@, QUADROTOR_AUTOSTART_ID),
        int_write("SYS_HAS_BARO"@, 0),
        int_write("CBRK_SUPPLY_CHK"@, 894281),
        int_write("COM_ARM_HFLT_CHK"@, 0),
        int_write("COM_ARM_MAG_ANG"@, 180),
        int_write("COM_ARM_MAG_STR"@, 0),
        int_write("COM_ARM_SDCARD"@, 0),
        int_write("EKF2_GPS_CHECK"@, 0),
        int_write("EKF2_MAG_CHECK"@, 0),
        int_write("EKF2_MULTI_IMU"@, 1),
        int_write("GPS_1_CONFIG"@, 0),
        int_write("HIL_ACT_FUNC1"@, 101),
        int_write("HIL_ACT_FUNC2"@, 102),
        int_write("HIL_ACT_FUNC3"@, 103),
        int_write("HIL_ACT_FUNC4"@, 104),
        int_write("SENS_IMU_MODE"@, 0),
        int_write("SENS_MAG_AUTOCAL"@, 0),
        number_write("EKF2_ABL_LIM"@, 0),
        number_write("EKF2_REQ_HDRIFT"@, REAL_THREE),
        number_write("EKF2_REQ_VDRIFT"@, REAL_THREE),
    ]
}

/// The names of a list of writes.
pub open spec fn write_names(writes: Seq<exchange::WriteModel>) -> Seq<Seq<char>> {
    writes.map_values(|w: exchange::WriteModel| w.name)
}

/// The writes of provisioning.
pub fn provisioning_writes() -> (r: Vec<ParamWrite>)
    ensures
        exchange::write_models(r@) == provisioning(),
        r@.len() == PROVISIONED_PARAM_COUNT,
{
    let mut w: Vec<ParamWrite> = Vec::new();
    w.push(ParamWrite::integer("SYS_HITL", 1));
    w.push(ParamWrite::integer("SYS_AUTOSTART", QUADROTOR_AUTOSTART_ID));
    w.push(ParamWrite::integer("SYS_HAS_BARO", 0));
    w.push(ParamWrite::integer("CBRK_SUPPLY_CHK", 894281));
    w.push(ParamWrite::integer("COM_ARM_HFLT_CHK", 0));
    w.push(ParamWrite::integer("COM_ARM_MAG_ANG", 180));
    w.push(ParamWrite::integer("COM_ARM_MAG_STR", 0));
    w.push(ParamWrite::integer("COM_ARM_SDCARD", 0));
    w.push(ParamWrite::integer("EKF2_GPS_CHECK", 0));
    w.push(ParamWrite::integer("EKF2_MAG_CHECK", 0));
    w.push(ParamWrite::integer("EKF2_MULTI_IMU", 1));
    w.push(ParamWrite::integer("GPS_1_CONFIG", 0));
    w.push(ParamWrite::integer("HIL_ACT_FUNC1", 101));
    w.push(ParamWrite::integer("HIL_ACT_FUNC2", 102));
    w.push(ParamWrite::integer("HIL_ACT_FUNC3", 103));
    w.push(ParamWrite::integer("HIL_ACT_FUNC4", 104));
    w.push(ParamWrite::integer("SENS_IMU_MODE", 0));
    w.push(ParamWrite::integer("SENS_MAG_AUTOCAL", 0));
    w.push(ParamWrite::number("EKF2_ABL_LIM", Real32::from_bits(0)));
    w.push(ParamWrite::number("EKF2_REQ_HDRIFT", Real32::from_bits(REAL_THREE)));
    w.push(ParamWrite::number("EKF2_REQ_VDRIFT", Real32::from_bits(REAL_THREE)));
    assert(exchange::write_models(w@) =~= provisioning());
    w
}

/// Every parameter provisioning will overwrite. Derived from the writes
/// themselves: a parameter written but not captured could not be put back.
pub fn provisioned_param_names() -> (r: Vec<String>)
    ensures
        param_read::texts(r@) == write_names(provisioning()),
{
    let writes = provisioning_writes();
    let mut names: Vec<String> = Vec::new();
    let mut i: usize = 0;
    while i < writes.len()
        invariant
            i <= writes@.len(),
            exchange::write_models(writes@) == provisioning(),
            param_read::texts(names@) == write_names(provisioning()).take(i as int),
        decreases writes@.len() - i,
    {
        let ghost before = names@;
        assert(exchange::write_models(writes@)[i as int] == writes@[i as int]@);
        names.push(writes[i].name.clone());
        assert(param_read::texts(names@) =~= param_read::texts(before).push(writes@[i as int].name@));
        assert(write_names(provisioning()).take(i + 1) =~= write_names(provisioning()).take(
            i as int,
        ).push(provisioning()[i as int].name));
        i = i + 1;
    }
    assert(exchange::write_models(writes@).len() == writes@.len());
    assert(write_names(provisioning()).take(i as int) =~= write_names(provisioning()));
    names
}

/// What each parameter of provisioning is set to, whichever write of the list
/// sets it: a board in simulation mode as a quadcopter, each motor output on its
/// own function, and no check that wants hardware the simulation does not have.
pub proof fn law_what_each_parameter_is_set_to(i: int)
    requires
        0 <= i < provisioning().len(),
    ensures
        provisioning()[i].name == "SYS_HITL"@ ==> provisioning()[i].value == exchange::WriteValue::Int(
            1,
        ),
        provisioning()[i].name == "SYS_AUTOSTART"@ ==> provisioning()[i].value == exchange::WriteValue::Int(
            4001,
        ),
        provisioning()[i].name == "SYS_HAS_BARO"@ ==> provisioning()[i].value == exchange::WriteValue::Int(
            0,
        ),
        provisioning()[i].name == "CBRK_SUPPLY_CHK"@ ==> provisioning()[i].value == exchange::WriteValue::Int(
            894281,
        ),
        provisioning()[i].name == "COM_ARM_HFLT_CHK"@ ==> provisioning()[i].value == exchange::WriteValue::Int(
            0,
        ),
        provisioning()[i].name == "COM_ARM_MAG_ANG"@ ==> provisioning()[i].value == exchange::WriteValue::Int(
            180,
        ),
        provisioning()[i].name == "COM_ARM_MAG_STR"@ ==> provisioning()[i].value == exchange::WriteValue::Int(
            0,
        ),
        provisioning()[i].name == "COM_ARM_SDCARD"@ ==> provisioning()[i].value == exchange::WriteValue::Int(
            0,
        ),
        provisioning()[i].name == "EKF2_GPS_CHECK"@ ==> provisioning()[i].value == exchange::WriteValue::Int(
            0,
        ),
        provisioning()[i].name == "EKF2_MAG_CHECK"@ ==> provisioning()[i].value == exchange::WriteValue::Int(
            0,
        ),
        provisioning()[i].name == "EKF2_MULTI_IMU"@ ==> provisioning()[i].value == exchange::WriteValue::Int(
            1,
        ),
        provisioning()[i].name == "GPS_1_CONFIG"@ ==> provisioning()[i].value == exchange::WriteValue::Int(
            0,
        ),
        provisioning()[i].name == "HIL_ACT_FUNC1"@ ==> provisioning()[i].value == exchange::WriteValue::Int(
            101,
        ),
        provisioning()[i].name == "HIL_ACT_FUNC2"@ ==> provisioning()[i].value == exchange::WriteValue::Int(
            102,
        ),
        provisioning()[i].name == "HIL_ACT_FUNC3"@ ==> provisioning()[i].value == exchange::WriteValue::Int(
            103,
        ),
        provisioning()[i].name == "HIL_ACT_FUNC4"@ ==> provisioning()[i].value == exchange::WriteValue::Int(
            104,
        ),
        provisioning()[i].name == "SENS_IMU_MODE"@ ==> provisioning()[i].value == exchange::WriteValue::Int(
            0,
        ),
        provisioning()[i].name == "SENS_MAG_AUTOCAL"@ ==> provisioning()[i].value == exchange::WriteValue::Int(
            0,
        ),
        provisioning()[i].name == "EKF2_ABL_LIM"@ ==> provisioning()[i].value
            == exchange::WriteValue::Number(Real32 { bits: 0 }),
        provisioning()[i].name == "EKF2_REQ_HDRIFT"@ ==> provisioning()[i].value
            == exchange::WriteValue::Number(Real32 { bits: 0x4040_0000 }),
        provisioning()[i].name == "EKF2_REQ_VDRIFT"@ ==> provisioning()[i].value
            == exchange::WriteValue::Number(Real32 { bits: 0x4040_0000 }),
{
    reveal_strlit("SYS_HITL");
    reveal_strlit("SYS_AUTOSTART");
    reveal_strlit("SYS_HAS_BARO");
    reveal_strlit("CBRK_SUPPLY_CHK");
    reveal_strlit("COM_ARM_HFLT_CHK");
    reveal_strlit("COM_ARM_MAG_ANG");
    reveal_strlit("COM_ARM_MAG_STR");
    reveal_strlit("COM_ARM_SDCARD");
    reveal_strlit("EKF2_GPS_CHECK");
    reveal_strlit("EKF2_MAG_CHECK");
    reveal_strlit("EKF2_MULTI_IMU");
    reveal_strlit("GPS_1_CONFIG");
    reveal_strlit("HIL_ACT_FUNC1");
    reveal_strlit("HIL_ACT_FUNC2");
    reveal_strlit("HIL_ACT_FUNC3");
    reveal_strlit("HIL_ACT_FUNC4");
    reveal_strlit("SENS_IMU_MODE");
    reveal_strlit("SENS_MAG_AUTOCAL");
    reveal_strlit("EKF2_ABL_LIM");
    reveal_strlit("EKF2_REQ_HDRIFT");
    reveal_strlit("EKF2_REQ_VDRIFT");
    assert("SYS_HITL"@.len() == 8);
    assert("SYS_HITL"@[0] == 'S');
    assert("SYS_HITL"@[1] == 'Y');
    assert("SYS_HITL"@[2] == 'S');
    assert("SYS_HITL"@[3] == '_');
    assert("SYS_HITL"@[4] == 'H');
    assert("SYS_HITL"@[5] == 'I');
    assert("SYS_HITL"@[6] == 'T');
    assert("SYS_HITL"@[7] == 'L');
    assert("SYS_AUTOSTART"@.len() == 13);
    assert("SYS_AUTOSTART"@[0] == 'S');
    assert("SYS_AUTOSTART"@[1] == 'Y');
    assert("SYS_AUTOSTART"@[2] == 'S');
    assert("SYS_AUTOSTART"@[3] == '_');
    assert("SYS_AUTOSTART"@[4] == 'A');
    assert("SYS_AUTOSTART"@[5] == 'U');
    assert("SYS_AUTOSTART"@[6] == 'T');
    assert("SYS_AUTOSTART"@[7] == 'O');
    assert("SYS_AUTOSTART"@[8] == 'S');
    assert("SYS_AUTOSTART"@[9] == 'T');
    assert("SYS_AUTOSTART"@[10] == 'A');
    assert("SYS_AUTOSTART"@[11] == 'R');
    assert("SYS_AUTOSTART"@[12] == 'T');
    assert("SYS_HAS_BARO"@.len() == 12);
    assert("SYS_HAS_BARO"@[0] == 'S');
    assert("SYS_HAS_BARO"@[1] == 'Y');
    assert("SYS_HAS_BARO"@[2] == 'S');
    assert("SYS_HAS_BARO"@[3] == '_');
    assert("SYS_HAS_BARO"@[4] == 'H');
    assert("SYS_HAS_BARO"@[5] == 'A');
    assert("SYS_HAS_BARO"@[6] == 'S');
    assert("SYS_HAS_BARO"@[7] == '_');
    assert("SYS_HAS_BARO"@[8] == 'B');
    assert("SYS_HAS_BARO"@[9] == 'A');
    assert("SYS_HAS_BARO"@[10] == 'R');
    assert("SYS_HAS_BARO"@[11] == 'O');
    assert("CBRK_SUPPLY_CHK"@.len() == 15);
    assert("CBRK_SUPPLY_CHK"@[0] == 'C');
    assert("CBRK_SUPPLY_CHK"@[1] == 'B');
    assert("CBRK_SUPPLY_CHK"@[2] == 'R');
    assert("CBRK_SUPPLY_CHK"@[3] == 'K');
    assert("CBRK_SUPPLY_CHK"@[4] == '_');
    assert("CBRK_SUPPLY_CHK"@[5] == 'S');
    assert("CBRK_SUPPLY_CHK"@[6] == 'U');
    assert("CBRK_SUPPLY_CHK"@[7] == 'P');
    assert("CBRK_SUPPLY_CHK"@[8] == 'P');
    assert("CBRK_SUPPLY_CHK"@[9] == 'L');
    assert("CBRK_SUPPLY_CHK"@[10] == 'Y');
    assert("CBRK_SUPPLY_CHK"@[11] == '_');
    assert("CBRK_SUPPLY_CHK"@[12] == 'C');
    assert("CBRK_SUPPLY_CHK"@[13] == 'H');
    assert("CBRK_SUPPLY_CHK"@[14] == 'K');
    assert("COM_ARM_HFLT_CHK"@.len() == 16);
    assert("COM_ARM_HFLT_CHK"@[0] == 'C');
    assert("COM_ARM_HFLT_CHK"@[1] == 'O');
    assert("COM_ARM_HFLT_CHK"@[2] == 'M');
    assert("COM_ARM_HFLT_CHK"@[3] == '_');
    assert("COM_ARM_HFLT_CHK"@[4] == 'A');
    assert("COM_ARM_HFLT_CHK"@[5] == 'R');
    assert("COM_ARM_HFLT_CHK"@[6] == 'M');
    assert("COM_ARM_HFLT_CHK"@[7] == '_');
    assert("COM_ARM_HFLT_CHK"@[8] == 'H');
    assert("COM_ARM_HFLT_CHK"@[9] == 'F');
    assert("COM_ARM_HFLT_CHK"@[10] == 'L');
    assert("COM_ARM_HFLT_CHK"@[11] == 'T');
    assert("COM_ARM_HFLT_CHK"@[12] == '_');
    assert("COM_ARM_HFLT_CHK"@[13] == 'C');
    assert("COM_ARM_HFLT_CHK"@[14] == 'H');
    assert("COM_ARM_HFLT_CHK"@[15] == 'K');
    assert("COM_ARM_MAG_ANG"@.len() == 15);
    assert("COM_ARM_MAG_ANG"@[0] == 'C');
    assert("COM_ARM_MAG_ANG"@[1] == 'O');
    assert("COM_ARM_MAG_ANG"@[2] == 'M');
    assert("COM_ARM_MAG_ANG"@[3] == '_');
    assert("COM_ARM_MAG_ANG"@[4] == 'A');
    assert("COM_ARM_MAG_ANG"@[5] == 'R');
    assert("COM_ARM_MAG_ANG"@[6] == 'M');
    assert("COM_ARM_MAG_ANG"@[7] == '_');
    assert("COM_ARM_MAG_ANG"@[8] == 'M');
    assert("COM_ARM_MAG_ANG"@[9] == 'A');
    assert("COM_ARM_MAG_ANG"@[10] == 'G');
    assert("COM_ARM_MAG_ANG"@[11] == '_');
    assert("COM_ARM_MAG_ANG"@[12] == 'A');
    assert("COM_ARM_MAG_ANG"@[13] == 'N');
    assert("COM_ARM_MAG_ANG"@[14] == 'G');
    assert("COM_ARM_MAG_STR"@.len() == 15);
    assert("COM_ARM_MAG_STR"@[0] == 'C');
    assert("COM_ARM_MAG_STR"@[1] == 'O');
    assert("COM_ARM_MAG_STR"@[2] == 'M');
    assert("COM_ARM_MAG_STR"@[3] == '_');
    assert("COM_ARM_MAG_STR"@[4] == 'A');
    assert("COM_ARM_MAG_STR"@[5] == 'R');
    assert("COM_ARM_MAG_STR"@[6] == 'M');
    assert("COM_ARM_MAG_STR"@[7] == '_');
    assert("COM_ARM_MAG_STR"@[8] == 'M');
    assert("COM_ARM_MAG_STR"@[9] == 'A');
    assert("COM_ARM_MAG_STR"@[10] == 'G');
    assert("COM_ARM_MAG_STR"@[11] == '_');
    assert("COM_ARM_MAG_STR"@[12] == 'S');
    assert("COM_ARM_MAG_STR"@[13] == 'T');
    assert("COM_ARM_MAG_STR"@[14] == 'R');
    assert("COM_ARM_SDCARD"@.len() == 14);
    assert("COM_ARM_SDCARD"@[0] == 'C');
    assert("COM_ARM_SDCARD"@[1] == 'O');
    assert("COM_ARM_SDCARD"@[2] == 'M');
    assert("COM_ARM_SDCARD"@[3] == '_');
    assert("COM_ARM_SDCARD"@[4] == 'A');
    assert("COM_ARM_SDCARD"@[5] == 'R');
    assert("COM_ARM_SDCARD"@[6] == 'M');
    assert("COM_ARM_SDCARD"@[7] == '_');
    assert("COM_ARM_SDCARD"@[8] == 'S');
    assert("COM_ARM_SDCARD"@[9] == 'D');
    assert("COM_ARM_SDCARD"@[10] == 'C');
    assert("COM_ARM_SDCARD"@[11] == 'A');
    assert("COM_ARM_SDCARD"@[12] == 'R');
    assert("COM_ARM_SDCARD"@[13] == 'D');
    assert("EKF2_GPS_CHECK"@.len() == 14);
    assert("EKF2_GPS_CHECK"@[0] == 'E');
    assert("EKF2_GPS_CHECK"@[1] == 'K');
    assert("EKF2_GPS_CHECK"@[2] == 'F');
    assert("EKF2_GPS_CHECK"@[3] == '2');
    assert("EKF2_GPS_CHECK"@[4] == '_');
    assert("EKF2_GPS_CHECK"@[5] == 'G');
    assert("EKF2_GPS_CHECK"@[6] == 'P');
    assert("EKF2_GPS_CHECK"@[7] == 'S');
    assert("EKF2_GPS_CHECK"@[8] == '_');
    assert("EKF2_GPS_CHECK"@[9] == 'C');
    assert("EKF2_GPS_CHECK"@[10] == 'H');
    assert("EKF2_GPS_CHECK"@[11] == 'E');
    assert("EKF2_GPS_CHECK"@[12] == 'C');
    assert("EKF2_GPS_CHECK"@[13] == 'K');
    assert("EKF2_MAG_CHECK"@.len() == 14);
    assert("EKF2_MAG_CHECK"@[0] == 'E');
    assert("EKF2_MAG_CHECK"@[1] == 'K');
    assert("EKF2_MAG_CHECK"@[2] == 'F');
    assert("EKF2_MAG_CHECK"@[3] == '2');
    assert("EKF2_MAG_CHECK"@[4] == '_');
    assert("EKF2_MAG_CHECK"@[5] == 'M');
    assert("EKF2_MAG_CHECK"@[6] == 'A');
    assert("EKF2_MAG_CHECK"@[7] == 'G');
    assert("EKF2_MAG_CHECK"@[8] == '_');
    assert("EKF2_MAG_CHECK"@[9] == 'C');
    assert("EKF2_MAG_CHECK"@[10] == 'H');
    assert("EKF2_MAG_CHECK"@[11] == 'E');
    assert("EKF2_MAG_CHECK"@[12] == 'C');
    assert("EKF2_MAG_CHECK"@[13] == 'K');
    assert("EKF2_MULTI_IMU"@.len() == 14);
    assert("EKF2_MULTI_IMU"@[0] == 'E');
    assert("EKF2_MULTI_IMU"@[1] == 'K');
    assert("EKF2_MULTI_IMU"@[2] == 'F');
    assert("EKF2_MULTI_IMU"@[3] == '2');
    assert("EKF2_MULTI_IMU"@[4] == '_');
    assert("EKF2_MULTI_IMU"@[5] == 'M');
    assert("EKF2_MULTI_IMU"@[6] == 'U');
    assert("EKF2_MULTI_IMU"@[7] == 'L');
    assert("EKF2_MULTI_IMU"@[8] == 'T');
    assert("EKF2_MULTI_IMU"@[9] == 'I');
    assert("EKF2_MULTI_IMU"@[10] == '_');
    assert("EKF2_MULTI_IMU"@[11] == 'I');
    assert("EKF2_MULTI_IMU"@[12] == 'M');
    assert("EKF2_MULTI_IMU"@[13] == 'U');
    assert("GPS_1_CONFIG"@.len() == 12);
    assert("GPS_1_CONFIG"@[0] == 'G');
    assert("GPS_1_CONFIG"@[1] == 'P');
    assert("GPS_1_CONFIG"@[2] == 'S');
    assert("GPS_1_CONFIG"@[3] == '_');
    assert("GPS_1_CONFIG"@[4] == '1');
    assert("GPS_1_CONFIG"@[5] == '_');
    assert("GPS_1_CONFIG"@[6] == 'C');
    assert("GPS_1_CONFIG"@[7] == 'O');
    assert("GPS_1_CONFIG"@[8] == 'N');
    assert("GPS_1_CONFIG"@[9] == 'F');
    assert("GPS_1_CONFIG"@[10] == 'I');
    assert("GPS_1_CONFIG"@[11] == 'G');
    assert("HIL_ACT_FUNC1"@.len() == 13);
    assert("HIL_ACT_FUNC1"@[0] == 'H');
    assert("HIL_ACT_FUNC1"@[1] == 'I');
    assert("HIL_ACT_FUNC1"@[2] == 'L');
    assert("HIL_ACT_FUNC1"@[3] == '_');
    assert("HIL_ACT_FUNC1"@[4] == 'A');
    assert("HIL_ACT_FUNC1"@[5] == 'C');
    assert("HIL_ACT_FUNC1"@[6] == 'T');
    assert("HIL_ACT_FUNC1"@[7] == '_');
    assert("HIL_ACT_FUNC1"@[8] == 'F');
    assert("HIL_ACT_FUNC1"@[9] == 'U');
    assert("HIL_ACT_FUNC1"@[10] == 'N');
    assert("HIL_ACT_FUNC1"@[11] == 'C');
    assert("HIL_ACT_FUNC1"@[12] == '1');
    assert("HIL_ACT_FUNC2"@.len() == 13);
    assert("HIL_ACT_FUNC2"@[0] == 'H');
    assert("HIL_ACT_FUNC2"@[1] == 'I');
    assert("HIL_ACT_FUNC2"@[2] == 'L');
    assert("HIL_ACT_FUNC2"@[3] == '_');
    assert("HIL_ACT_FUNC2"@[4] == 'A');
    assert("HIL_ACT_FUNC2"@[5] == 'C');
    assert("HIL_ACT_FUNC2"@[6] == 'T');
    assert("HIL_ACT_FUNC2"@[7] == '_');
    assert("HIL_ACT_FUNC2"@[8] == 'F');
    assert("HIL_ACT_FUNC2"@[9] == 'U');
    assert("HIL_ACT_FUNC2"@[10] == 'N');
    assert("HIL_ACT_FUNC2"@[11] == 'C');
    assert("HIL_ACT_FUNC2"@[12] == '2');
    assert("HIL_ACT_FUNC3"@.len() == 13);
    assert("HIL_ACT_FUNC3"@[0] == 'H');
    assert("HIL_ACT_FUNC3"@[1] == 'I');
    assert("HIL_ACT_FUNC3"@[2] == 'L');
    assert("HIL_ACT_FUNC3"@[3] == '_');
    assert("HIL_ACT_FUNC3"@[4] == 'A');
    assert("HIL_ACT_FUNC3"@[5] == 'C');
    assert("HIL_ACT_FUNC3"@[6] == 'T');
    assert("HIL_ACT_FUNC3"@[7] == '_');
    assert("HIL_ACT_FUNC3"@[8] == 'F');
    assert("HIL_ACT_FUNC3"@[9] == 'U');
    assert("HIL_ACT_FUNC3"@[10] == 'N');
    assert("HIL_ACT_FUNC3"@[11] == 'C');
    assert("HIL_ACT_FUNC3"@[12] == '3');
    assert("HIL_ACT_FUNC4"@.len() == 13);
    assert("HIL_ACT_FUNC4"@[0] == 'H');
    assert("HIL_ACT_FUNC4"@[1] == 'I');
    assert("HIL_ACT_FUNC4"@[2] == 'L');
    assert("HIL_ACT_FUNC4"@[3] == '_');
    assert("HIL_ACT_FUNC4"@[4] == 'A');
    assert("HIL_ACT_FUNC4"@[5] == 'C');
    assert("HIL_ACT_FUNC4"@[6] == 'T');
    assert("HIL_ACT_FUNC4"@[7] == '_');
    assert("HIL_ACT_FUNC4"@[8] == 'F');
    assert("HIL_ACT_FUNC4"@[9] == 'U');
    assert("HIL_ACT_FUNC4"@[10] == 'N');
    assert("HIL_ACT_FUNC4"@[11] == 'C');
    assert("HIL_ACT_FUNC4"@[12] == '4');
    assert("SENS_IMU_MODE"@.len() == 13);
    assert("SENS_IMU_MODE"@[0] == 'S');
    assert("SENS_IMU_MODE"@[1] == 'E');
    assert("SENS_IMU_MODE"@[2] == 'N');
    assert("SENS_IMU_MODE"@[3] == 'S');
    assert("SENS_IMU_MODE"@[4] == '_');
    assert("SENS_IMU_MODE"@[5] == 'I');
    assert("SENS_IMU_MODE"@[6] == 'M');
    assert("SENS_IMU_MODE"@[7] == 'U');
    assert("SENS_IMU_MODE"@[8] == '_');
    assert("SENS_IMU_MODE"@[9] == 'M');
    assert("SENS_IMU_MODE"@[10] == 'O');
    assert("SENS_IMU_MODE"@[11] == 'D');
    assert("SENS_IMU_MODE"@[12] == 'E');
    assert("SENS_MAG_AUTOCAL"@.len() == 16);
    assert("SENS_MAG_AUTOCAL"@[0] == 'S');
    assert("SENS_MAG_AUTOCAL"@[1] == 'E');
    assert("SENS_MAG_AUTOCAL"@[2] == 'N');
    assert("SENS_MAG_AUTOCAL"@[3] == 'S');
    assert("SENS_MAG_AUTOCAL"@[4] == '_');
    assert("SENS_MAG_AUTOCAL"@[5] == 'M');
    assert("SENS_MAG_AUTOCAL"@[6] == 'A');
    assert("SENS_MAG_AUTOCAL"@[7] == 'G');
    assert("SENS_MAG_AUTOCAL"@[8] == '_');
    assert("SENS_MAG_AUTOCAL"@[9] == 'A');
    assert("SENS_MAG_AUTOCAL"@[10] == 'U');
    assert("SENS_MAG_AUTOCAL"@[11] == 'T');
    assert("SENS_MAG_AUTOCAL"@[12] == 'O');
    assert("SENS_MAG_AUTOCAL"@[13] == 'C');
    assert("SENS_MAG_AUTOCAL"@[14] == 'A');
    assert("SENS_MAG_AUTOCAL"@[15] == 'L');
    assert("EKF2_ABL_LIM"@.len() == 12);
    assert("EKF2_ABL_LIM"@[0] == 'E');
    assert("EKF2_ABL_LIM"@[1] == 'K');
    assert("EKF2_ABL_LIM"@[2] == 'F');
    assert("EKF2_ABL_LIM"@[3] == '2');
    assert("EKF2_ABL_LIM"@[4] == '_');
    assert("EKF2_ABL_LIM"@[5] == 'A');
    assert("EKF2_ABL_LIM"@[6] == 'B');
    assert("EKF2_ABL_LIM"@[7] == 'L');
    assert("EKF2_ABL_LIM"@[8] == '_');
    assert("EKF2_ABL_LIM"@[9] == 'L');
    assert("EKF2_ABL_LIM"@[10] == 'I');
    assert("EKF2_ABL_LIM"@[11] == 'M');
    assert("EKF2_REQ_HDRIFT"@.len() == 15);
    assert("EKF2_REQ_HDRIFT"@[0] == 'E');
    assert("EKF2_REQ_HDRIFT"@[1] == 'K');
    assert("EKF2_REQ_HDRIFT"@[2] == 'F');
    assert("EKF2_REQ_HDRIFT"@[3] == '2');
    assert("EKF2_REQ_HDRIFT"@[4] == '_');
    assert("EKF2_REQ_HDRIFT"@[5] == 'R');
    assert("EKF2_REQ_HDRIFT"@[6] == 'E');
    assert("EKF2_REQ_HDRIFT"@[7] == 'Q');
    assert("EKF2_REQ_HDRIFT"@[8] == '_');
    assert("EKF2_REQ_HDRIFT"@[9] == 'H');
    assert("EKF2_REQ_HDRIFT"@[10] == 'D');
    assert("EKF2_REQ_HDRIFT"@[11] == 'R');
    assert("EKF2_REQ_HDRIFT"@[12] == 'I');
    assert("EKF2_REQ_HDRIFT"@[13] == 'F');
    assert("EKF2_REQ_HDRIFT"@[14] == 'T');
    assert("EKF2_REQ_VDRIFT"@.len() == 15);
    assert("EKF2_REQ_VDRIFT"@[0] == 'E');
    assert("EKF2_REQ_VDRIFT"@[1] == 'K');
    assert("EKF2_REQ_VDRIFT"@[2] == 'F');
    assert("EKF2_REQ_VDRIFT"@[3] == '2');
    assert("EKF2_REQ_VDRIFT"@[4] == '_');
    assert("EKF2_REQ_VDRIFT"@[5] == 'R');
    assert("EKF2_REQ_VDRIFT"@[6] == 'E');
    assert("EKF2_REQ_VDRIFT"@[7] == 'Q');
    assert("EKF2_REQ_VDRIFT"@[8] == '_');
    assert("EKF2_REQ_VDRIFT"@[9] == 'V');
    assert("EKF2_REQ_VDRIFT"@[10] == 'D');
    assert("EKF2_REQ_VDRIFT"@[11] == 'R');
    assert("EKF2_REQ_VDRIFT"@[12] == 'I');
    assert("EKF2_REQ_VDRIFT"@[13] == 'F');
    assert("EKF2_REQ_VDRIFT"@[14] == 'T');
}

/// Every one of these parameters is written.
pub proof fn law_which_parameters_are_written()
    ensures
        provisioning().len() == 21,
        write_names(provisioning()).contains("SYS_HITL"@),
        write_names(provisioning()).contains("SYS_AUTOSTART"@),
        write_names(provisioning()).contains("SYS_HAS_BARO"@),
        write_names(provisioning()).contains("CBRK_SUPPLY_CHK"@),
        write_names(provisioning()).contains("COM_ARM_HFLT_CHK"@),
        write_names(provisioning()).contains("COM_ARM_MAG_ANG"@),
        write_names(provisioning()).contains("COM_ARM_MAG_STR"@),
        write_names(provisioning()).contains("COM_ARM_SDCARD"@),
        write_names(provisioning()).contains("EKF2_GPS_CHECK"@),
        write_names(provisioning()).contains("EKF2_MAG_CHECK"@),
        write_names(provisioning()).contains("EKF2_MULTI_IMU"@),
        write_names(provisioning()).contains("GPS_1_CONFIG"@),
        write_names(provisioning()).contains("HIL_ACT_FUNC1"@),
        write_names(provisioning()).contains("HIL_ACT_FUNC2"@),
        write_names(provisioning()).contains("HIL_ACT_FUNC3"@),
        write_names(provisioning()).contains("HIL_ACT_FUNC4"@),
        write_names(provisioning()).contains("SENS_IMU_MODE"@),
        write_names(provisioning()).contains("SENS_MAG_AUTOCAL"@),
        write_names(provisioning()).contains("EKF2_ABL_LIM"@),
        write_names(provisioning()).contains("EKF2_REQ_HDRIFT"@),
        write_names(provisioning()).contains("EKF2_REQ_VDRIFT"@),
{
    let names = write_names(provisioning());
    assert(names[0] == "SYS_HITL"@);
    assert(names[1] == "SYS_AUTOSTART"@);
    assert(names[2] == "SYS_HAS_BARO"@);
    assert(names[3] == "CBRK_SUPPLY_CHK"@);
    assert(names[4] == "COM_ARM_HFLT_CHK"@);
    assert(names[5] == "COM_ARM_MAG_ANG"@);
    assert(names[6] == "COM_ARM_MAG_STR"@);
    assert(names[7] == "COM_ARM_SDCARD"@);
    assert(names[8] == "EKF2_GPS_CHECK"@);
    assert(names[9] == "EKF2_MAG_CHECK"@);
    assert(names[10] == "EKF2_MULTI_IMU"@);
    assert(names[11] == "GPS_1_CONFIG"@);
    assert(names[12] == "HIL_ACT_FUNC1"@);
    assert(names[13] == "HIL_ACT_FUNC2"@);
    assert(names[14] == "HIL_ACT_FUNC3"@);
    assert(names[15] == "HIL_ACT_FUNC4"@);
    assert(names[16] == "SENS_IMU_MODE"@);
    assert(names[17] == "SENS_MAG_AUTOCAL"@);
    assert(names[18] == "EKF2_ABL_LIM"@);
    assert(names[19] == "EKF2_REQ_HDRIFT"@);
    assert(names[20] == "EKF2_REQ_VDRIFT"@);
}

/// A heartbeat reports simulation mode by its flag of 32, and a quadrotor by its
/// vehicle type.
pub proof fn law_how_a_heartbeat_reports_the_settings(hb: Heartbeat)
    ensures
        hb.hil_enabled() <==> (hb.base_mode / 32) % 2 == 1,
        VEHICLE_TYPE_QUADROTOR == 2,
{
    let b = hb.base_mode;
    assert(b & 32 == 0 <==> (b / 32) % 2 == 0) by (bit_vector);
}

} // verus!
