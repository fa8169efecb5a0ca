//! Component records, and the build that they add up to.
//!
//! A record gives what the catalogue knows of a component; what it does not
//! give keeps a default. Numbers that have to be multiplied out are left as
//! their factors.
use crate::build_config::chips;
use crate::build_config::chips::{
    parse_baro_chip, parse_frame_material, parse_gps_chipset, parse_imu_chip, parse_mag_chip,
    BaroChip, FrameMaterial, GpsChipset, ImuChip, MagChip,
};
use crate::ieee::{clamp, clamped, Real64};
use crate::protocol::config::ConfigureBuild;
use crate::text;
use crate::text::same_text;
use vstd::prelude::*;

verus! {

/// Motor weight when the record gives none: 30 g, as a bit pattern.
pub const DEFAULT_MOTOR_WEIGHT_G: u64 = 0x403e_0000_0000_0000;

/// GPS weight when the record gives none: 12 g, as a bit pattern.
pub const DEFAULT_GPS_WEIGHT_G: u64 = 0x4028_0000_0000_0000;

/// GPS update rate when the record gives none: 10 Hz, as a bit pattern.
pub const DEFAULT_GPS_RATE_HZ: u64 = 0x4024_0000_0000_0000;

/// Lowest GPS update rate: 1 Hz, as a bit pattern.
pub const MIN_GPS_RATE_HZ: u64 = 0x3ff0_0000_0000_0000;

/// Highest GPS update rate: 100 Hz, as a bit pattern.
pub const MAX_GPS_RATE_HZ: u64 = 0x4059_0000_0000_0000;

/// Smallest capacity the battery mass estimate was fitted over: 1100 mAh, as a
/// bit pattern.
pub const BATTERY_FIT_MIN_MAH: u64 = 0x4091_3000_0000_0000;

/// Largest capacity the battery mass estimate was fitted over: 4500 mAh, as a
/// bit pattern. Larger packs use denser cells.
pub const BATTERY_FIT_MAX_MAH: u64 = 0x40b1_9400_0000_0000;

/// Zero, as a bit pattern.
pub const ZERO: u64 = 0;

/// Blades of a propeller whose record gives none.
pub const DEFAULT_BLADE_COUNT: i32 = 3;

/// The value of a field of a component record.
#[derive(Clone, Debug)]
pub enum SpecField {
    /// A number, and the whole number it is written as, if it is one.
    Number { value: Real64, whole: Option<i64> },
    /// A text.
    Text(String),
    /// True or false.
    Flag(bool),
    /// Anything else.
    Other,
}

/// A component record: its fields, by name.
#[derive(Clone, Debug)]
pub struct SpecRecord {
    /// The fields.
    pub fields: Vec<(String, SpecField)>,
}

/// The field of a name, if the record has one.
pub open spec fn field_of(fields: Seq<(String, SpecField)>, name: Seq<char>) -> Option<SpecField>
    decreases fields.len(),
{
    if fields.len() == 0 {
        None
    } else if fields[0].0@ == name {
        Some(fields[0].1)
    } else {
        field_of(fields.skip(1), name)
    }
}

/// The number in a field.
pub open spec fn number_in(f: Option<SpecField>) -> Option<Real64> {
    match f {
        Some(SpecField::Number { value, .. }) => Some(value),
        _ => None,
    }
}

/// The whole number in a field.
pub open spec fn whole_in(f: Option<SpecField>) -> Option<i64> {
    match f {
        Some(SpecField::Number { whole, .. }) => whole,
        _ => None,
    }
}

/// The text in a field.
pub open spec fn text_in(f: Option<SpecField>) -> Option<Seq<char>> {
    match f {
        Some(SpecField::Text(t)) => Some(t@),
        _ => None,
    }
}

/// The flag in a field.
pub open spec fn flag_in(f: Option<SpecField>) -> Option<bool> {
    match f {
        Some(SpecField::Flag(b)) => Some(b),
        _ => None,
    }
}

impl SpecRecord {
    /// The field of a name.
    pub open spec fn field(self, name: Seq<char>) -> Option<SpecField> {
        field_of(self.fields@, name)
    }

    /// The number in the field of a name.
    pub open spec fn number_field(self, name: Seq<char>) -> Option<Real64> {
        number_in(self.field(name))
    }

    /// The field of a name, if the record has one.
    pub fn get(&self, name: &str) -> (r: Option<&SpecField>)
        ensures
            r is Some <==> self.field(name@) is Some,
            r matches Some(f) ==> self.field(name@) == Some(*f),
    {
        let mut i: usize = 0;
        assert(self.fields@.skip(0) =~= self.fields@);
        while i < self.fields.len()
            invariant
                i <= self.fields@.len(),
                field_of(self.fields@, name@) == field_of(self.fields@.skip(i as int), name@),
            decreases self.fields@.len() - i,
        {
            assert(self.fields@.skip(i as int)[0] == self.fields@[i as int]);
            assert(self.fields@.skip(i as int).skip(1) =~= self.fields@.skip(i + 1));
            if same_text(self.fields[i].0.as_str(), name) {
                return Some(&self.fields[i].1);
            }
            i = i + 1;
        }
        None
    }

    /// The number in the field of a name.
    pub fn number(&self, name: &str) -> (r: Option<Real64>)
        ensures
            r == number_in(self.field(name@)),
    {
        match self.get(name) {
            Some(SpecField::Number { value, .. }) => Some(*value),
            _ => None,
        }
    }

    /// The whole number in the field of a name.
    pub fn whole(&self, name: &str) -> (r: Option<i64>)
        ensures
            r == whole_in(self.field(name@)),
    {
        match self.get(name) {
            Some(SpecField::Number { whole, .. }) => *whole,
            _ => None,
        }
    }

    /// The text in the field of a name.
    pub fn text(&self, name: &str) -> (r: Option<&str>)
        ensures
            (match r {
                Some(t) => Some(t@),
                None => None,
            }) == text_in(self.field(name@)),
    {
        match self.get(name) {
            Some(SpecField::Text(t)) => Some(t.as_str()),
            _ => None,
        }
    }
}

/// Pitch of a propeller.
#[derive(Clone, Copy, Debug, PartialEq, Eq, Structural)]
pub enum Pitch {
    /// As the record gives it.
    Given(Real64),
    /// Nine tenths of this diameter.
    OfDiameter(Real64),
}

/// Weight of the battery.
#[derive(Clone, Copy, Debug, PartialEq, Eq, Structural)]
pub enum BatteryWeight {
    /// As the record gives it.
    Measured(Real64),
    /// Estimated from capacity and cell count, at 0.035 g per mAh and cell.
    Estimated,
}

/// The GPS receiver of a build.
#[derive(Clone, Copy, Debug, PartialEq, Eq, Structural)]
pub struct GpsSpec {
    /// Chipset.
    pub chipset: GpsChipset,
    /// Update rate, within 1 and 100 Hz.
    pub update_rate_hz: Real64,
    /// Whether it carries a compass.
    pub has_compass: bool,
    /// Weight.
    pub weight_g: Real64,
}

/// A build, as far as it is known. What is absent keeps the default of the
/// physics model.
#[derive(Clone, Copy, Debug, PartialEq, Eq, Structural)]
pub struct BuildPlan {
    /// Frame weight.
    pub frame_weight_g: Real64,
    /// Distance between opposite motors.
    pub wheelbase_mm: Option<Real64>,
    /// Frame material.
    pub material: Option<FrameMaterial>,
    /// Motor speed constant.
    pub motor_kv: Real64,
    /// Motor weight.
    pub motor_weight_g: Real64,
    /// Winding resistance.
    pub motor_resistance_ohm: Option<Real64>,
    /// No-load current.
    pub motor_no_load_amps: Option<Real64>,
    /// Propeller diameter.
    pub prop_diameter_in: Real64,
    /// Propeller pitch.
    pub prop_pitch: Pitch,
    /// Blades.
    pub blade_count: i32,
    /// Propeller weight.
    pub prop_weight_g: Option<Real64>,
    /// Cells in series.
    pub battery_cell_count: u8,
    /// Pack capacity.
    pub battery_capacity_mah: Real64,
    /// Pack weight.
    pub battery_weight: BatteryWeight,
    /// Continuous current of the speed controllers.
    pub esc_continuous_amps: Option<Real64>,
    /// Burst current of the speed controllers.
    pub esc_burst_amps: Option<Real64>,
    /// Weight of one speed controller.
    pub esc_unit_weight_g: Option<Real64>,
    /// Speed controllers to weigh.
    pub esc_count: u8,
    /// Flight controller weight.
    pub fc_weight_g: Option<Real64>,
    /// Inertial measurement unit.
    pub imu_chip: Option<ImuChip>,
    /// Barometer.
    pub baro_chip: Option<BaroChip>,
    /// Magnetometer.
    pub mag_chip: Option<MagChip>,
    /// GPS receiver.
    pub gps: Option<GpsSpec>,
}

/// `x` if there is one, or else `d`.
pub open spec fn number_or(x: Option<Real64>, d: Real64) -> Real64 {
    match x {
        Some(v) => v,
        None => d,
    }
}

/// `x` if there is one, or else `d`.
pub fn or_number(x: Option<Real64>, d: Real64) -> (r: Real64)
    ensures
        r == number_or(x, d),
{
    match x {
        Some(v) => v,
        None => d,
    }
}

/// The low 32 bits of a number, as a signed number.
pub open spec fn wrapped(n: int) -> int {
    (n + 0x8000_0000) % 0x1_0000_0000 - 0x8000_0000
}

/// The low 32 bits of a number, as a signed number.
pub fn wrap_i32(n: i64) -> (r: i32)
    ensures
        r == wrapped(n as int),
{
    let lifted: u128 = (n as i128 + 0x8000_0000_0000_0000 + 0x8000_0000) as u128;
    let low: i64 = (lifted % 0x1_0000_0000) as i64;
    assert(low == (n + 0x8000_0000) % 0x1_0000_0000) by {
        assert(lifted == (n + 0x8000_0000) + 0x8000_0000 * 0x1_0000_0000);
    }
    (low - 0x8000_0000) as i32
}

/// The first field among two that a record has.
pub open spec fn either_field(
    record: SpecRecord,
    first: Seq<char>,
    second: Seq<char>,
) -> Option<SpecField> {
    match record.field(first) {
        Some(f) => Some(f),
        None => record.field(second),
    }
}

/// A number, if it is one greater than zero.
pub open spec fn positive(x: Option<Real64>) -> Option<Real64> {
    match x {
        Some(v) => if (Real64 { bits: ZERO }).lt(v) {
            Some(v)
        } else {
            None
        },
        None => None,
    }
}

/// A number, if it is one that is not negative.
pub open spec fn non_negative(x: Option<Real64>) -> Option<Real64> {
    match x {
        Some(v) => if (Real64 { bits: ZERO }).le(v) {
            Some(v)
        } else {
            None
        },
        None => None,
    }
}

/// The build of a request whose motor has this record; a motor without a speed
/// constant makes none.
pub open spec fn planned(request: ConfigureBuild, motor: SpecRecord) -> Option<BuildPlan> {
    match motor.number_field("kvRating"@) {
        None => None,
        Some(kv) => Some(
            BuildPlan {
                frame_weight_g: request.frame_weight_g,
                wheelbase_mm: None,
                material: None,
                motor_kv: kv,
                motor_weight_g: number_or(
                    motor.number_field("weightG"@),
                    Real64 { bits: DEFAULT_MOTOR_WEIGHT_G },
                ),
                motor_resistance_ohm: positive(motor.number_field("resistanceOhm"@)),
                motor_no_load_amps: non_negative(
                    number_in(either_field(motor, "noLoadCurrentA"@, "idleCurrentA"@)),
                ),
                prop_diameter_in: request.prop_diameter_inches,
                prop_pitch: Pitch::OfDiameter(request.prop_diameter_inches),
                blade_count: DEFAULT_BLADE_COUNT,
                prop_weight_g: None,
                battery_cell_count: request.battery_cell_count,
                battery_capacity_mah: request.battery_capacity_mah,
                battery_weight: BatteryWeight::Estimated,
                esc_continuous_amps: None,
                esc_burst_amps: None,
                esc_unit_weight_g: None,
                esc_count: request.esc_count,
                fc_weight_g: None,
                imu_chip: None,
                baro_chip: None,
                mag_chip: None,
                gps: None,
            },
        ),
    }
}

/// A build with the propeller of this record.
pub open spec fn with_prop(p: BuildPlan, record: SpecRecord) -> BuildPlan {
    let diameter = number_or(record.number_field("diameterIn"@), p.prop_diameter_in);
    BuildPlan {
        prop_diameter_in: diameter,
        prop_pitch: match record.number_field("pitchIn"@) {
            Some(v) => Pitch::Given(v),
            None => Pitch::OfDiameter(diameter),
        },
        blade_count: match whole_in(record.field("bladeCount"@)) {
            Some(n) => wrapped(n as int) as i32,
            None => DEFAULT_BLADE_COUNT,
        },
        prop_weight_g: record.number_field("weightG"@),
        ..p
    }
}

/// A build with the frame of this record. Its weight stays the request's.
pub open spec fn with_frame(p: BuildPlan, record: SpecRecord) -> BuildPlan {
    BuildPlan {
        wheelbase_mm: match record.number_field("wheelbaseMm"@) {
            Some(v) => Some(v),
            None => p.wheelbase_mm,
        },
        material: match text_in(record.field("material"@)) {
            Some(t) => Some(chips::frame_material(text::lowered(t))),
            None => p.material,
        },
        ..p
    }
}

/// A build with the speed controllers of this record.
pub open spec fn with_esc(p: BuildPlan, record: SpecRecord) -> BuildPlan {
    BuildPlan {
        esc_continuous_amps: match record.number_field("continuousCurrentA"@) {
            Some(v) => Some(v),
            None => p.esc_continuous_amps,
        },
        esc_burst_amps: match record.number_field("burstCurrentA"@) {
            Some(v) => Some(v),
            None => p.esc_burst_amps,
        },
        esc_unit_weight_g: match record.number_field("weightG"@) {
            Some(v) => Some(v),
            None => p.esc_unit_weight_g,
        },
        ..p
    }
}

/// A build with the flight controller of this record.
pub open spec fn with_fc(p: BuildPlan, record: SpecRecord) -> BuildPlan {
    BuildPlan {
        fc_weight_g: match record.number_field("weightG"@) {
            Some(v) => Some(v),
            None => p.fc_weight_g,
        },
        imu_chip: match text_in(record.field("gyro"@)) {
            Some(t) => Some(chips::imu_chip(text::squeezed(text::lowered(t)))),
            None => p.imu_chip,
        },
        baro_chip: match text_in(record.field("barometer"@)) {
            Some(t) => Some(chips::baro_chip(text::squeezed(text::lowered(t)))),
            None => p.baro_chip,
        },
        mag_chip: match text_in(record.field("magnetometer"@)) {
            Some(t) => Some(chips::mag_chip(text::squeezed(text::lowered(t)))),
            None => p.mag_chip,
        },
        ..p
    }
}

/// A build with the battery of this record.
pub open spec fn with_battery(p: BuildPlan, record: SpecRecord) -> BuildPlan {
    BuildPlan {
        battery_weight: match record.number_field("weightG"@) {
            Some(v) => BatteryWeight::Measured(v),
            None => p.battery_weight,
        },
        ..p
    }
}

/// A build with the GPS receiver of this record.
pub open spec fn with_gps(p: BuildPlan, record: SpecRecord) -> BuildPlan {
    BuildPlan {
        gps: Some(
            GpsSpec {
                chipset: match text_in(record.field("chipset"@)) {
                    Some(t) => chips::gps_chipset(text::squeezed(text::lowered(t))),
                    None => GpsChipset::Other,
                },
                update_rate_hz: clamped(
                    number_or(
                        record.number_field("updateRateHz"@),
                        Real64 { bits: DEFAULT_GPS_RATE_HZ },
                    ),
                    MIN_GPS_RATE_HZ,
                    MAX_GPS_RATE_HZ,
                ),
                has_compass: match flag_in(either_field(record, "compass"@, "hasCompass"@)) {
                    Some(b) => b,
                    None => false,
                },
                weight_g: number_or(
                    record.number_field("weightG"@),
                    Real64 { bits: DEFAULT_GPS_WEIGHT_G },
                ),
            },
        ),
        ..p
    }
}

impl BuildPlan {
    /// The build of a request whose motor has this record; a motor without a
    /// speed constant makes none.
    pub fn start(request: &ConfigureBuild, motor: &SpecRecord) -> (r: Option<BuildPlan>)
        ensures
            r == planned(*request, *motor),
    {
        let kv: Real64 = match motor.number("kvRating") {
            None => return None,
            Some(kv) => kv,
        };
        let resistance: Option<Real64> = match motor.number("resistanceOhm") {
            Some(v) => if Real64::from_bits(ZERO).less_than(v) {
                Some(v)
            } else {
                None
            },
            None => None,
        };
        let idle: Option<&SpecField> = match motor.get("noLoadCurrentA") {
            Some(f) => Some(f),
            None => motor.get("idleCurrentA"),
        };
        let no_load: Option<Real64> = match idle {
            Some(SpecField::Number { value, .. }) => if Real64::from_bits(ZERO).at_most(*value) {
                Some(*value)
            } else {
                None
            },
            _ => None,
        };
        Some(
            BuildPlan {
                frame_weight_g: request.frame_weight_g,
                wheelbase_mm: None,
                material: None,
                motor_kv: kv,
                motor_weight_g: or_number(
                    motor.number("weightG"),
                    Real64::from_bits(DEFAULT_MOTOR_WEIGHT_G),
                ),
                motor_resistance_ohm: resistance,
                motor_no_load_amps: no_load,
                prop_diameter_in: request.prop_diameter_inches,
                prop_pitch: Pitch::OfDiameter(request.prop_diameter_inches),
                blade_count: DEFAULT_BLADE_COUNT,
                prop_weight_g: None,
                battery_cell_count: request.battery_cell_count,
                battery_capacity_mah: request.battery_capacity_mah,
                battery_weight: BatteryWeight::Estimated,
                esc_continuous_amps: None,
                esc_burst_amps: None,
                esc_unit_weight_g: None,
                esc_count: request.esc_count,
                fc_weight_g: None,
                imu_chip: None,
                baro_chip: None,
                mag_chip: None,
                gps: None,
            },
        )
    }

    /// Add the propeller of this record.
    pub fn add_prop(&mut self, record: &SpecRecord)
        ensures
            *final(self) == with_prop(*old(self), *record),
    {
        let diameter: Real64 = or_number(record.number("diameterIn"), self.prop_diameter_in);
        self.prop_diameter_in = diameter;
        self.prop_pitch = match record.number("pitchIn") {
            Some(v) => Pitch::Given(v),
            None => Pitch::OfDiameter(diameter),
        };
        self.blade_count = match record.whole("bladeCount") {
            Some(n) => wrap_i32(n),
            None => DEFAULT_BLADE_COUNT,
        };
        self.prop_weight_g = record.number("weightG");
    }

    /// Add the frame of this record.
    pub fn add_frame(&mut self, record: &SpecRecord)
        ensures
            *final(self) == with_frame(*old(self), *record),
    {
        if let Some(v) = record.number("wheelbaseMm") {
            self.wheelbase_mm = Some(v);
        }
        if let Some(t) = record.text("material") {
            self.material = Some(parse_frame_material(t));
        }
    }

    /// Add the speed controllers of this record.
    pub fn add_esc(&mut self, record: &SpecRecord)
        ensures
            *final(self) == with_esc(*old(self), *record),
    {
        if let Some(v) = record.number("continuousCurrentA") {
            self.esc_continuous_amps = Some(v);
        }
        if let Some(v) = record.number("burstCurrentA") {
            self.esc_burst_amps = Some(v);
        }
        if let Some(v) = record.number("weightG") {
            self.esc_unit_weight_g = Some(v);
        }
    }

    /// Add the flight controller of this record.
    pub fn add_fc(&mut self, record: &SpecRecord)
        ensures
            *final(self) == with_fc(*old(self), *record),
    {
        if let Some(v) = record.number("weightG") {
            self.fc_weight_g = Some(v);
        }
        if let Some(t) = record.text("gyro") {
            self.imu_chip = Some(parse_imu_chip(t));
        }
        if let Some(t) = record.text("barometer") {
            self.baro_chip = Some(parse_baro_chip(t));
        }
        if let Some(t) = record.text("magnetometer") {
            self.mag_chip = Some(parse_mag_chip(t));
        }
    }

    /// Add the battery of this record.
    pub fn add_battery(&mut self, record: &SpecRecord)
        ensures
            *final(self) == with_battery(*old(self), *record),
    {
        if let Some(v) = record.number("weightG") {
            self.battery_weight = BatteryWeight::Measured(v);
        }
    }

    /// Add the GPS receiver of this record.
    pub fn add_gps(&mut self, record: &SpecRecord)
        ensures
            *final(self) == with_gps(*old(self), *record),
    {
        let compass: Option<&SpecField> = match record.get("compass") {
            Some(f) => Some(f),
            None => record.get("hasCompass"),
        };
        self.gps = Some(
            GpsSpec {
                chipset: match record.text("chipset") {
                    Some(t) => parse_gps_chipset(t),
                    None => GpsChipset::Other,
                },
                update_rate_hz: clamp(
                    or_number(
                        record.number("updateRateHz"),
                        Real64::from_bits(DEFAULT_GPS_RATE_HZ),
                    ),
                    MIN_GPS_RATE_HZ,
                    MAX_GPS_RATE_HZ,
                ),
                has_compass: match compass {
                    Some(SpecField::Flag(b)) => *b,
                    _ => false,
                },
                weight_g: or_number(
                    record.number("weightG"),
                    Real64::from_bits(DEFAULT_GPS_WEIGHT_G),
                ),
            },
        );
    }

    /// The components whose mass is an estimate, so that none is presented as
    /// a specification.
    pub fn estimated_masses(&self) -> (r: Vec<String>)
        ensures
            r@.map_values(|s: String| s@) == masses_estimated(*self),
    {
        let mut names: Vec<String> = Vec::new();
        if self.prop_weight_g.is_none() {
            names.push("propeller".to_owned());
        }
        if let BatteryWeight::Estimated = self.battery_weight {
            names.push("battery".to_owned());
            if self.battery_capacity_mah.less_than(Real64::from_bits(BATTERY_FIT_MIN_MAH))
                || Real64::from_bits(BATTERY_FIT_MAX_MAH).less_than(self.battery_capacity_mah) {
                names.push("battery (extrapolated)".to_owned());
            }
        }
        assert(names@.map_values(|s: String| s@) =~= masses_estimated(*self));
        names
    }

    /// What the speed controllers weigh together: the weight of one and how
    /// many to count. A 4-in-1 weighs once.
    pub fn esc_weight(&self) -> (r: Option<(Real64, u8)>)
        ensures
            r == controllers_weighed(self.esc_unit_weight_g, self.esc_count),
    {
        match self.esc_unit_weight_g {
            None => None,
            Some(w) => Some(
                (
                    w,
                    if self.esc_count > 1 {
                        self.esc_count
                    } else {
                        1
                    },
                ),
            ),
        }
    }
}

/// Whether a capacity lies outside the range of the battery mass estimate.
pub open spec fn extrapolated(capacity_mah: Real64) -> bool {
    capacity_mah.lt(Real64 { bits: BATTERY_FIT_MIN_MAH }) || (Real64 {
        bits: BATTERY_FIT_MAX_MAH,
    }).lt(capacity_mah)
}

/// The components whose mass is an estimate.
pub open spec fn masses_estimated(p: BuildPlan) -> Seq<Seq<char>> {
    let prop = if p.prop_weight_g is None {
        seq!["propeller"@]
    } else {
        Seq::empty()
    };
    let battery = if p.battery_weight is Estimated {
        if extrapolated(p.battery_capacity_mah) {
            seq!["battery"@, "battery (extrapolated)"@]
        } else {
            seq!["battery"@]
        }
    } else {
        Seq::empty()
    };
    prop + battery
}

/// A field is found under its own name, wherever it stands in the record, and
/// the first of several counts; a name that no field has is not found.
pub proof fn law_a_field_is_found_by_its_name(
    fields: Seq<(String, SpecField)>,
    name: Seq<char>,
    i: int,
)
    ensures
        0 <= i < fields.len() && fields[i].0@ == name && (forall|j: int|
            0 <= j < i ==> (#[trigger] fields[j]).0@ != name) ==> field_of(fields, name) == Some(
            fields[i].1,
        ),
        (forall|j: int| 0 <= j < fields.len() ==> (#[trigger] fields[j]).0@ != name) <==> field_of(
            fields,
            name,
        ) is None,
    decreases fields.len(),
{
    if fields.len() > 0 {
        let rest = fields.skip(1);
        assert forall|j: int| 0 <= j < rest.len() implies #[trigger] rest[j] == fields[j + 1] by {}
        law_a_field_is_found_by_its_name(rest, name, i - 1);
        if fields[0].0@ != name {
            if forall|j: int| 0 <= j < rest.len() ==> (#[trigger] rest[j]).0@ != name {
                assert forall|j: int| 0 <= j < fields.len() implies (#[trigger] fields[j]).0@
                    != name by {
                    if j > 0 {
                        assert(rest[j - 1] == fields[j]);
                    }
                }
            } else {
                let j = choose|j: int| 0 <= j < rest.len() && (#[trigger] rest[j]).0@ == name;
                assert(fields[j + 1].0@ == name);
            }
            if 0 <= i < fields.len() && fields[i].0@ == name && (forall|j: int|
                0 <= j < i ==> (#[trigger] fields[j]).0@ != name) {
                assert forall|j: int| 0 <= j < i - 1 implies (#[trigger] rest[j]).0@ != name by {
                    assert(fields[j + 1].0@ != name);
                }
                assert(rest[i - 1] == fields[i]);
            }
        } else {
            assert(fields[0].0@ == name);
        }
    }
}

/// Only a number is taken for a number, a text for a text, and a flag for a
/// flag.
pub proof fn law_a_field_is_taken_for_what_it_is(f: SpecField)
    ensures
        f matches SpecField::Number { value, whole } ==> number_in(Some(f)) == Some(value)
            && whole_in(Some(f)) == whole,
        f matches SpecField::Text(t) ==> text_in(Some(f)) == Some(t@),
        f matches SpecField::Flag(b) ==> flag_in(Some(f)) == Some(b),
        !(f is Number) ==> number_in(Some(f)) is None && whole_in(Some(f)) is None,
        !(f is Text) ==> text_in(Some(f)) is None,
        !(f is Flag) ==> flag_in(Some(f)) is None,
        number_in(None) is None,
        whole_in(None) is None,
        text_in(None) is None,
        flag_in(None) is None,
{
}

/// A motor makes a build exactly when its record gives a speed constant, which
/// the build has. The build has the weight of the record too; only a record
/// without one gets the default of 30 g.
pub proof fn law_a_build_has_the_motor_of_its_record(request: ConfigureBuild, motor: SpecRecord)
    ensures
        planned(request, motor) is Some <==> number_in(field_of(motor.fields@, "kvRating"@)) is Some,
        planned(request, motor) matches Some(p) ==> {
            &&& number_in(field_of(motor.fields@, "kvRating"@)) == Some(p.motor_kv)
            &&& match number_in(field_of(motor.fields@, "weightG"@)) {
                Some(w) => p.motor_weight_g == w,
                None => p.motor_weight_g.bits == 0x403e_0000_0000_0000,
            }
        },
{
}

/// A winding resistance counts only above zero, and a no-load current only from
/// zero on; the current goes by either of two names, the first before the
/// second.
pub proof fn law_what_counts_of_a_motors_windings(
    request: ConfigureBuild,
    motor: SpecRecord,
    p: BuildPlan,
)
    requires
        planned(request, motor) == Some(p),
    ensures
        match number_in(field_of(motor.fields@, "resistanceOhm"@)) {
            Some(r) => {
                &&& (Real64 { bits: 0 }).lt(r) ==> p.motor_resistance_ohm == Some(r)
                &&& !(Real64 { bits: 0 }).lt(r) ==> p.motor_resistance_ohm is None
            },
            None => p.motor_resistance_ohm is None,
        },
        match field_of(motor.fields@, "noLoadCurrentA"@) {
            Some(SpecField::Number { value, .. }) => {
                &&& (Real64 { bits: 0 }).le(value) ==> p.motor_no_load_amps == Some(value)
                &&& !(Real64 { bits: 0 }).le(value) ==> p.motor_no_load_amps is None
            },
            Some(_) => p.motor_no_load_amps is None,
            None => match number_in(field_of(motor.fields@, "idleCurrentA"@)) {
                Some(i) => {
                    &&& (Real64 { bits: 0 }).le(i) ==> p.motor_no_load_amps == Some(i)
                    &&& !(Real64 { bits: 0 }).le(i) ==> p.motor_no_load_amps is None
                },
                None => p.motor_no_load_amps is None,
            },
        },
{
}

/// A build starts with what its request says of frame, propeller, battery and
/// speed controllers, and with nothing that only a record can say.
pub proof fn law_a_build_starts_from_its_request(
    request: ConfigureBuild,
    motor: SpecRecord,
    p: BuildPlan,
)
    requires
        planned(request, motor) == Some(p),
    ensures
        p.frame_weight_g == request.frame_weight_g,
        p.prop_diameter_in == request.prop_diameter_inches,
        p.prop_pitch == Pitch::OfDiameter(request.prop_diameter_inches),
        p.blade_count == 3,
        p.battery_cell_count == request.battery_cell_count,
        p.battery_capacity_mah == request.battery_capacity_mah,
        p.battery_weight is Estimated,
        p.esc_count == request.esc_count,
        p.wheelbase_mm is None,
        p.material is None,
        p.prop_weight_g is None,
        p.esc_continuous_amps is None,
        p.esc_burst_amps is None,
        p.esc_unit_weight_g is None,
        p.fc_weight_g is None,
        p.imu_chip is None,
        p.baro_chip is None,
        p.mag_chip is None,
        p.gps is None,
{
}

/// A propeller's record gives its diameter, pitch, blades and weight. Without a
/// diameter that of the build stays, without a pitch it is the usual share of
/// the diameter, and without a weight there is none.
pub proof fn law_a_build_has_the_propeller_of_its_record(p: BuildPlan, record: SpecRecord)
    ensures
        ({
            let after = with_prop(p, record);
            &&& number_in(field_of(record.fields@, "diameterIn"@)) matches Some(d)
                ==> after.prop_diameter_in == d
            &&& number_in(field_of(record.fields@, "diameterIn"@)) is None
                ==> after.prop_diameter_in == p.prop_diameter_in
            &&& number_in(field_of(record.fields@, "pitchIn"@)) matches Some(v)
                ==> after.prop_pitch == Pitch::Given(v)
            &&& number_in(field_of(record.fields@, "pitchIn"@)) is None ==> after.prop_pitch
                == Pitch::OfDiameter(after.prop_diameter_in)
            &&& whole_in(field_of(record.fields@, "bladeCount"@)) matches Some(n) ==> (
            -0x8000_0000 <= n < 0x8000_0000 ==> after.blade_count == n)
            &&& whole_in(field_of(record.fields@, "bladeCount"@)) is None ==> after.blade_count == 3
            &&& after.prop_weight_g == number_in(field_of(record.fields@, "weightG"@))
        }),
        with_prop(p, record) == (BuildPlan {
            prop_diameter_in: with_prop(p, record).prop_diameter_in,
            prop_pitch: with_prop(p, record).prop_pitch,
            blade_count: with_prop(p, record).blade_count,
            prop_weight_g: with_prop(p, record).prop_weight_g,
            ..p
        }),
{
}

/// A frame's record gives its wheelbase and material; what it does not give, the
/// weight above all, stays as it was.
pub proof fn law_a_build_has_the_frame_of_its_record(p: BuildPlan, record: SpecRecord)
    ensures
        ({
            let after = with_frame(p, record);
            &&& number_in(field_of(record.fields@, "wheelbaseMm"@)) matches Some(v)
                ==> after.wheelbase_mm == Some(v)
            &&& number_in(field_of(record.fields@, "wheelbaseMm"@)) is None ==> after.wheelbase_mm
                == p.wheelbase_mm
            &&& text_in(field_of(record.fields@, "material"@)) matches Some(t) ==> after.material
                == Some(chips::frame_material(text::lowered(t)))
            &&& text_in(field_of(record.fields@, "material"@)) is None ==> after.material
                == p.material
            &&& after.frame_weight_g == p.frame_weight_g
            &&& after == (BuildPlan {
                wheelbase_mm: after.wheelbase_mm,
                material: after.material,
                ..p
            })
        }),
{
}

/// The record of the speed controllers gives their currents, continuous and in
/// bursts, and the weight of one; what it does not give stays as it was.
pub proof fn law_a_build_has_the_speed_controllers_of_their_record(
    p: BuildPlan,
    record: SpecRecord,
)
    ensures
        ({
            let after = with_esc(p, record);
            &&& number_in(field_of(record.fields@, "continuousCurrentA"@)) matches Some(v)
                ==> after.esc_continuous_amps == Some(v)
            &&& number_in(field_of(record.fields@, "continuousCurrentA"@)) is None
                ==> after.esc_continuous_amps == p.esc_continuous_amps
            &&& number_in(field_of(record.fields@, "burstCurrentA"@)) matches Some(v)
                ==> after.esc_burst_amps == Some(v)
            &&& number_in(field_of(record.fields@, "burstCurrentA"@)) is None
                ==> after.esc_burst_amps == p.esc_burst_amps
            &&& number_in(field_of(record.fields@, "weightG"@)) matches Some(v)
                ==> after.esc_unit_weight_g == Some(v)
            &&& number_in(field_of(record.fields@, "weightG"@)) is None
                ==> after.esc_unit_weight_g == p.esc_unit_weight_g
            &&& after == (BuildPlan {
                esc_continuous_amps: after.esc_continuous_amps,
                esc_burst_amps: after.esc_burst_amps,
                esc_unit_weight_g: after.esc_unit_weight_g,
                ..p
            })
        }),
{
}

/// The flight controller's record gives its weight and its sensors, each under
/// its own name, in any case and with or without separators; what it does not
/// give stays as it was.
pub proof fn law_a_build_has_the_flight_controller_of_its_record(
    p: BuildPlan,
    record: SpecRecord,
)
    ensures
        ({
            let after = with_fc(p, record);
            &&& number_in(field_of(record.fields@, "weightG"@)) matches Some(v)
                ==> after.fc_weight_g == Some(v)
            &&& number_in(field_of(record.fields@, "weightG"@)) is None ==> after.fc_weight_g
                == p.fc_weight_g
            &&& text_in(field_of(record.fields@, "gyro"@)) matches Some(t) ==> after.imu_chip
                == Some(chips::imu_chip(text::squeezed(text::lowered(t))))
            &&& text_in(field_of(record.fields@, "gyro"@)) is None ==> after.imu_chip == p.imu_chip
            &&& text_in(field_of(record.fields@, "barometer"@)) matches Some(t) ==> after.baro_chip
                == Some(chips::baro_chip(text::squeezed(text::lowered(t))))
            &&& text_in(field_of(record.fields@, "barometer"@)) is None ==> after.baro_chip
                == p.baro_chip
            &&& text_in(field_of(record.fields@, "magnetometer"@)) matches Some(t)
                ==> after.mag_chip == Some(chips::mag_chip(text::squeezed(text::lowered(t))))
            &&& text_in(field_of(record.fields@, "magnetometer"@)) is None ==> after.mag_chip
                == p.mag_chip
            &&& after == (BuildPlan {
                fc_weight_g: after.fc_weight_g,
                imu_chip: after.imu_chip,
                baro_chip: after.baro_chip,
                mag_chip: after.mag_chip,
                ..p
            })
        }),
{
}

/// A battery whose record gives a weight has that weight; without one it stays
/// an estimate, and the cells and the capacity are the request's either way.
pub proof fn law_a_build_has_the_battery_of_its_record(p: BuildPlan, record: SpecRecord)
    ensures
        number_in(field_of(record.fields@, "weightG"@)) matches Some(v) ==> with_battery(
            p,
            record,
        ).battery_weight == BatteryWeight::Measured(v),
        number_in(field_of(record.fields@, "weightG"@)) is None ==> with_battery(p, record) == p,
        with_battery(p, record) == (BuildPlan {
            battery_weight: with_battery(p, record).battery_weight,
            ..p
        }),
{
}

/// A GPS receiver updates at the rate of its record, kept between 1 and 100 Hz
/// and 10 Hz if there is none; its weight is 12 g and it has no compass unless
/// the record says otherwise.
pub proof fn law_a_build_has_the_receiver_of_its_record(p: BuildPlan, record: SpecRecord)
    ensures
        with_gps(p, record) == (BuildPlan { gps: with_gps(p, record).gps, ..p }),
        with_gps(p, record).gps matches Some(g) && {
            &&& number_in(field_of(record.fields@, "updateRateHz"@)) matches Some(v) ==> {
                &&& !v.nan() ==> (Real64 { bits: 0x3ff0_0000_0000_0000 }).le(g.update_rate_hz)
                    && g.update_rate_hz.le(Real64 { bits: 0x4059_0000_0000_0000 })
                &&& (Real64 { bits: 0x3ff0_0000_0000_0000 }).le(v) && v.le(
                    Real64 { bits: 0x4059_0000_0000_0000 },
                ) ==> g.update_rate_hz == v
            }
            &&& number_in(field_of(record.fields@, "updateRateHz"@)) is None
                ==> g.update_rate_hz.bits == 0x4024_0000_0000_0000
            &&& number_in(field_of(record.fields@, "weightG"@)) matches Some(v) ==> g.weight_g == v
            &&& number_in(field_of(record.fields@, "weightG"@)) is None ==> g.weight_g.bits
                == 0x4028_0000_0000_0000
            &&& text_in(field_of(record.fields@, "chipset"@)) matches Some(t) ==> g.chipset
                == chips::gps_chipset(text::squeezed(text::lowered(t)))
            &&& text_in(field_of(record.fields@, "chipset"@)) is None ==> g.chipset is Other
            &&& field_of(record.fields@, "compass"@) matches Some(SpecField::Flag(b))
                ==> g.has_compass == b
            &&& field_of(record.fields@, "compass"@) matches Some(f) ==> (!(f is Flag)
                ==> !g.has_compass)
            &&& field_of(record.fields@, "compass"@) is None ==> (field_of(
                record.fields@,
                "hasCompass"@,
            ) matches Some(SpecField::Flag(b)) ==> g.has_compass == b)
            &&& field_of(record.fields@, "compass"@) is None && flag_in(
                field_of(record.fields@, "hasCompass"@),
            ) is None ==> !g.has_compass
        },
{
}

/// A mass is presented as an estimate exactly when no record gave it, and a
/// battery's is marked as extrapolated outside 1100 to 4500 mAh.
pub proof fn law_what_is_presented_as_an_estimate(p: BuildPlan)
    ensures
        p.prop_weight_g is None <==> masses_estimated(p).contains("propeller"@),
        p.battery_weight is Estimated <==> masses_estimated(p).contains("battery"@),
        masses_estimated(p).contains("battery (extrapolated)"@) <==> p.battery_weight is Estimated
            && (p.battery_capacity_mah.lt(Real64 { bits: 0x4091_3000_0000_0000 }) || (Real64 {
            bits: 0x40b1_9400_0000_0000,
        }).lt(p.battery_capacity_mah)),
{
    reveal_strlit("propeller");
    reveal_strlit("battery");
    reveal_strlit("battery (extrapolated)");
    assert("propeller"@.len() == 9);
    assert("battery"@.len() == 7);
    assert("battery (extrapolated)"@.len() == 22);
    let m = masses_estimated(p);
    if p.prop_weight_g is None {
        assert(m[0] == "propeller"@);
        if p.battery_weight is Estimated {
            assert(m[1] == "battery"@);
            if extrapolated(p.battery_capacity_mah) {
                assert(m[2] == "battery (extrapolated)"@);
            }
        }
    } else if p.battery_weight is Estimated {
        assert(m[0] == "battery"@);
        if extrapolated(p.battery_capacity_mah) {
            assert(m[1] == "battery (extrapolated)"@);
        }
    }
}

/// The low 32 bits of a number, taken as signed, are the number itself where it
/// fits, and otherwise differ from it by whole turns.
pub proof fn law_wrapping_keeps_the_low_bits(n: int)
    ensures
        -0x8000_0000 <= wrapped(n) < 0x8000_0000,
        (n - wrapped(n)) % 0x1_0000_0000 == 0,
        -0x8000_0000 <= n < 0x8000_0000 ==> wrapped(n) == n,
{
}

/// What the speed controllers weigh together: the weight of one, and how many to
/// count.
pub open spec fn controllers_weighed(unit_g: Option<Real64>, count: u8) -> Option<(Real64, u8)> {
    match unit_g {
        None => None,
        Some(w) => Some(
            (
                w,
                if count > 1 {
                    count
                } else {
                    1u8
                },
            ),
        ),
    }
}

/// Speed controllers of unknown weight weigh nothing that could be counted; of
/// known weight, each counts, and one at least.
pub proof fn law_how_speed_controllers_are_weighed(unit_g: Option<Real64>, count: u8)
    ensures
        controllers_weighed(unit_g, count) is Some <==> unit_g is Some,
        controllers_weighed(unit_g, count) matches Some((w, n)) ==> Some(w) == unit_g && n >= 1
            && n >= count && (count >= 1 ==> n == count),
        unit_g matches Some(w) ==> controllers_weighed(unit_g, 0) == Some((w, 1u8)),
{
}

} // verus!
