//! Build configuration: the request, its stages, its outcome.
use crate::bytes::push_bytes;
use crate::ieee::{Real32, Real64};
use crate::protocol::tags::{invalid_payload, CommandType, ProtocolError, MSG_TYPE_CONFIGURE_BUILD};
use crate::text::utf8_text;
use vstd::prelude::*;

verus! {

/// Latitude of the default flight location, 40.015, as a bit pattern.
pub const DEFAULT_LAT: u64 = 0x4044_01eb_851e_b852;

/// Longitude of the default flight location, -105.2705, as a bit pattern.
pub const DEFAULT_LON: u64 = 0xc05a_514f_df3b_645a;

/// 90 degrees, as a bit pattern.
pub const DEGREES_90: u64 = 0x4056_8000_0000_0000;

/// -90 degrees, as a bit pattern.
pub const DEGREES_MINUS_90: u64 = 0xc056_8000_0000_0000;

/// 180 degrees, as a bit pattern.
pub const DEGREES_180: u64 = 0x4066_8000_0000_0000;

/// -180 degrees, as a bit pattern.
pub const DEGREES_MINUS_180: u64 = 0xc066_8000_0000_0000;

/// Pack voltage of a request that names none, 14.8, as a bit pattern.
pub const DEFAULT_BATTERY_VOLTAGE: u64 = 0x402d_9999_9999_999a;

/// Pack capacity of a request that names none, 1500 mAh, as a bit pattern.
pub const DEFAULT_BATTERY_CAPACITY: u64 = 0x4097_7000_0000_0000;

/// The bytes of a JSON frame: tag, then body.
pub fn frame_json(tag: u8, json: &[u8]) -> (r: Vec<u8>)
    ensures
        r@ == json_frame(tag, json@),
{
    let mut out: Vec<u8> = Vec::new();
    out.push(tag);
    assert(out@ =~= seq![tag]);
    push_bytes(&mut out, json);
    out
}

/// The body of a JSON frame with this tag.
pub fn json_body(data: &[u8], tag: u8) -> (r: Result<Vec<u8>, ProtocolError>)
    ensures
        body_reading(data@, tag, r),
{
    if data.len() < 2 {
        return Err(ProtocolError::MessageTooShort { expected: 2, actual: data.len() });
    }
    if data[0] != tag {
        return Err(ProtocolError::UnknownMessageType(data[0]));
    }
    let body: Vec<u8> = crate::bytes::copy_range(data, 1, data.len());
    assert(body@ =~= data@.skip(1));
    Ok(body)
}

/// The error for a JSON body that does not read as a `kind`.
pub fn bad_json(kind: &str, detail: &str) -> (r: ProtocolError)
    ensures
        r matches ProtocolError::InvalidPayload { command_type, reason } && command_type
            == CommandType::Arm && reason@ == kind@ + ": "@ + detail@,
{
    let mut reason: String = kind.to_owned();
    reason.append(": ");
    reason.append(detail);
    invalid_payload(reason.as_str())
}

/// Geographic origin of a simulated flight.
#[derive(Clone, Copy, Debug, PartialEq, Eq, Structural)]
pub struct FlightLocation {
    /// Latitude in degrees.
    pub lat: Real64,
    /// Longitude in degrees.
    pub lon: Real64,
}

/// Why a location is no point on Earth.
#[derive(Clone, Copy, Debug, PartialEq, Eq, Structural)]
pub enum LocationFault {
    /// The latitude is infinite or not a number.
    LatNotFinite,
    /// The longitude is infinite or not a number.
    LonNotFinite,
    /// The latitude is out of range.
    LatOutOfRange,
    /// The longitude is out of range.
    LonOutOfRange,
}

/// The fault of a location, `None` for a real point on Earth.
pub open spec fn location_fault(l: FlightLocation) -> Option<LocationFault> {
    if !l.lat.finite() {
        Some(LocationFault::LatNotFinite)
    } else if !l.lon.finite() {
        Some(LocationFault::LonNotFinite)
    } else if !(Real64 { bits: DEGREES_MINUS_90 }.le(l.lat) && l.lat.le(
        Real64 { bits: DEGREES_90 },
    )) {
        Some(LocationFault::LatOutOfRange)
    } else if !(Real64 { bits: DEGREES_MINUS_180 }.le(l.lon) && l.lon.le(
        Real64 { bits: DEGREES_180 },
    )) {
        Some(LocationFault::LonOutOfRange)
    } else {
        None
    }
}

/// Where a flight takes place when the browser names no location.
pub open spec fn default_location() -> FlightLocation {
    FlightLocation { lat: Real64 { bits: DEFAULT_LAT }, lon: Real64 { bits: DEFAULT_LON } }
}

impl FlightLocation {
    /// Applied when a browser sends no location.
    pub fn default_origin() -> (r: FlightLocation)
        ensures
            r == default_location(),
    {
        FlightLocation {
            lat: Real64::from_bits(DEFAULT_LAT),
            lon: Real64::from_bits(DEFAULT_LON),
        }
    }

    /// Reject anything that is not a real point on Earth.
    pub fn validate(&self) -> (r: Result<(), LocationFault>)
        ensures
            r == match location_fault(*self) {
                Some(f) => Err::<(), LocationFault>(f),
                None => Ok::<(), LocationFault>(()),
            },
    {
        if !self.lat.is_finite() {
            return Err(LocationFault::LatNotFinite);
        }
        if !self.lon.is_finite() {
            return Err(LocationFault::LonNotFinite);
        }
        if !(Real64::from_bits(DEGREES_MINUS_90).at_most(self.lat) && self.lat.at_most(
            Real64::from_bits(DEGREES_90),
        )) {
            return Err(LocationFault::LatOutOfRange);
        }
        if !(Real64::from_bits(DEGREES_MINUS_180).at_most(self.lon) && self.lon.at_most(
            Real64::from_bits(DEGREES_180),
        )) {
            return Err(LocationFault::LonOutOfRange);
        }
        Ok(())
    }
}

impl LocationFault {
    /// What the user is told; `number` renders the offending degrees.
    pub open spec fn message(self, number: Seq<char>) -> Seq<char> {
        match self {
            LocationFault::LatNotFinite => "flight_location.lat must be a finite number"@,
            LocationFault::LonNotFinite => "flight_location.lon must be a finite number"@,
            LocationFault::LatOutOfRange => "flight_location.lat "@ + number
                + " out of range (-90..=90)"@,
            LocationFault::LonOutOfRange => "flight_location.lon "@ + number
                + " out of range (-180..=180)"@,
        }
    }

    /// What the user is told; `number` renders the offending degrees.
    pub fn text(&self, number: &str) -> (r: String)
        ensures
            r@ == self.message(number@),
    {
        match self {
            LocationFault::LatNotFinite => {
                "flight_location.lat must be a finite number".to_owned()
            },
            LocationFault::LonNotFinite => {
                "flight_location.lon must be a finite number".to_owned()
            },
            LocationFault::LatOutOfRange => {
                let mut out: String = "flight_location.lat ".to_owned();
                out.append(number);
                out.append(" out of range (-90..=90)");
                out
            },
            LocationFault::LonOutOfRange => {
                let mut out: String = "flight_location.lon ".to_owned();
                out.append(number);
                out.append(" out of range (-180..=180)");
                out
            },
        }
    }
}

/// A build to configure.
#[derive(Clone, Debug)]
pub struct ConfigureBuild {
    /// Motor, in the component catalogue.
    pub motor_slug: String,
    /// Propeller, in the component catalogue.
    pub prop_slug: Option<String>,
    /// Propeller diameter, for a propeller the catalogue does not give one for.
    pub prop_diameter_inches: Real64,
    /// Frame weight.
    pub frame_weight_g: Real64,
    /// Pack voltage.
    pub battery_voltage: Real64,
    /// Pack capacity.
    pub battery_capacity_mah: Real64,
    /// Cells in series.
    pub battery_cell_count: u8,
    /// Speed controller, in the component catalogue.
    pub esc_slug: Option<String>,
    /// Flight controller, in the component catalogue.
    pub fc_slug: Option<String>,
    /// Frame, in the component catalogue.
    pub frame_slug: Option<String>,
    /// Battery, in the component catalogue.
    pub battery_slug: Option<String>,
    /// GPS receiver, in the component catalogue.
    pub gps_slug: Option<String>,
    /// 1 for a 4-in-1 speed controller, 4 for individual ones.
    pub esc_count: u8,
    /// Where the flight takes place; absent from browsers that predate
    /// location selection.
    pub flight_location: Option<FlightLocation>,
    /// Terrain elevation the browser sampled at the location: the vertical
    /// datum of the whole flight. `None` when no elevation data covered it.
    pub origin_elevation_msl: Option<Real64>,
    /// Gyro noise density in rad/s/sqrt(Hz).
    pub gyro_noise_density: Option<Real64>,
    /// Accelerometer noise density in m/s^2/sqrt(Hz).
    pub accel_noise_density: Option<Real64>,
    /// Barometer noise in metres.
    pub baro_noise_sigma: Option<Real64>,
    /// Magnetometer noise in gauss.
    pub mag_noise_sigma: Option<Real64>,
    /// GPS horizontal noise in metres.
    pub gps_horizontal_noise: Option<Real64>,
    /// GPS altitude noise in metres.
    pub gps_altitude_noise: Option<Real64>,
    /// GPS velocity noise in m/s.
    pub gps_velocity_noise: Option<Real64>,
    /// How the sensor profile was matched; informational.
    pub sensor_match_type: Option<String>,
}

impl ConfigureBuild {
    /// The location this flight runs at.
    ///
    /// A present but invalid location is an error and fails configuration: the
    /// caller asked for a specific place and must not silently be flown
    /// somewhere else. An absent location gets the default.
    pub fn resolve_flight_location(&self) -> (r: Result<FlightLocation, LocationFault>)
        ensures
            r == match self.flight_location {
                None => Ok::<FlightLocation, LocationFault>(default_location()),
                Some(l) => match location_fault(l) {
                    Some(f) => Err::<FlightLocation, LocationFault>(f),
                    None => Ok::<FlightLocation, LocationFault>(l),
                },
            },
    {
        match self.flight_location {
            None => Ok(FlightLocation::default_origin()),
            Some(l) => match l.validate() {
                Ok(()) => Ok(l),
                Err(f) => Err(f),
            },
        }
    }

    /// The JSON text of a build configuration frame.
    pub fn body(data: &[u8]) -> (r: Result<String, ProtocolError>)
        ensures
            request_reading(data@, r),
    {
        match json_body(data, MSG_TYPE_CONFIGURE_BUILD) {
            Err(e) => Err(e),
            Ok(body) => match utf8_text(body.as_slice()) {
                Some(t) => Ok(t),
                None => Err(invalid_payload("ConfigureBuild: invalid UTF-8")),
            },
        }
    }
}

/// Speed controllers of a request that names no number.
pub fn default_esc_count() -> (r: u8)
    ensures
        r == 1,
{
    1
}

/// Pack voltage of a request that names none.
pub fn default_battery_voltage() -> (r: Real64)
    ensures
        r.bits == DEFAULT_BATTERY_VOLTAGE,
{
    Real64::from_bits(DEFAULT_BATTERY_VOLTAGE)
}

/// Pack capacity of a request that names none.
pub fn default_battery_capacity_mah() -> (r: Real64)
    ensures
        r.bits == DEFAULT_BATTERY_CAPACITY,
{
    Real64::from_bits(DEFAULT_BATTERY_CAPACITY)
}

/// Cells of a request that names none.
pub fn default_battery_cell_count() -> (r: u8)
    ensures
        r == 4,
{
    4
}

/// Lifecycle state of a build configuration.
#[derive(Clone, Copy, Debug, PartialEq, Eq, Structural)]
pub enum ConfigState {
    /// Computed, but acknowledgements are still pending; the simulation has
    /// not been reconfigured yet.
    Configuring,
    /// Every parameter acknowledged or skipped, new physics delivered.
    Ready,
    /// Something failed; the simulation still runs the previous configuration.
    Error,
}

/// Which part of applying a build is running. Each is announced as it begins.
#[derive(Clone, Copy, Debug, PartialEq, Eq, Structural)]
pub enum ConfigStage {
    /// Fetching component specifications.
    FetchingSpecs,
    /// Computing physics and per-build gains.
    Computing,
    /// Writing parameters and awaiting an acknowledgement for each.
    PushingParams,
    /// Restarting the estimator.
    RestartingEkf,
}

/// Rate-controller gains as shown to the user.
#[derive(Clone, Copy, Debug, PartialEq, Eq, Structural)]
pub struct Px4PidsView {
    /// Roll rate P.
    pub roll_p: Real32,
    /// Roll rate I.
    pub roll_i: Real32,
    /// Roll rate D.
    pub roll_d: Real32,
    /// Roll rate feed-forward.
    pub roll_ff: Real32,
    /// Pitch rate P.
    pub pitch_p: Real32,
    /// Pitch rate I.
    pub pitch_i: Real32,
    /// Pitch rate D.
    pub pitch_d: Real32,
    /// Pitch rate feed-forward.
    pub pitch_ff: Real32,
    /// Yaw rate P.
    pub yaw_p: Real32,
    /// Yaw rate I.
    pub yaw_i: Real32,
    /// Yaw rate D.
    pub yaw_d: Real32,
    /// Yaw rate feed-forward.
    pub yaw_ff: Real32,
}

/// What a build configuration came to.
#[derive(Clone, Debug)]
pub struct AppliedConfig {
    /// All-up mass.
    pub mass_kg: Real64,
    /// Thrust coefficient.
    pub kt: Real64,
    /// Torque coefficient.
    pub kq: Real64,
    /// Arm length.
    pub arm_length_m: Real64,
    /// Static thrust of one motor.
    pub max_thrust_per_motor_g: Real64,
    /// Total static thrust over weight.
    pub thrust_to_weight_ratio: Real64,
    /// Motor speed constant.
    pub motor_kv: Real64,
    /// Pack voltage.
    pub battery_voltage: Real64,
    /// No-load speed.
    pub max_motor_rpm: Real64,
    /// Flight time estimate.
    pub estimated_flight_time_min: Real64,
    /// Hover throttle handed to the position controller, clamped to its range.
    pub hover_cmd: Real32,
    /// Whether the build can lift its own weight.
    pub can_hover: bool,
    /// Throttle the build needs to hover, unclamped.
    pub hover_required: Real64,
    /// Components whose mass was estimated rather than read.
    pub estimated_masses: Vec<String>,
    /// Gains pushed, absent when the push was skipped.
    pub applied_pids: Option<Px4PidsView>,
    /// Parameters confirmed by an acknowledgement.
    pub verified_params: u32,
}

/// Progress or outcome of a build configuration.
#[derive(Clone, Debug)]
pub struct ConfigResult {
    /// Lifecycle state.
    pub state: ConfigState,
    /// False only on failure.
    pub success: bool,
    /// Why it failed.
    pub error: Option<String>,
    /// What the build came to.
    pub config: Option<AppliedConfig>,
    /// The stage in progress, absent on terminal results.
    pub stage: Option<ConfigStage>,
}

/// A location is a point on Earth exactly when its latitude lies between -90 and
/// 90 degrees and its longitude between -180 and 180; a fault names the degrees
/// that do not.
pub proof fn law_what_is_a_point_on_earth(l: FlightLocation)
    ensures
        ({
            let lat = (Real64 { bits: 0xc056_8000_0000_0000 }).le(l.lat) && l.lat.le(
                Real64 { bits: 0x4056_8000_0000_0000 },
            );
            let lon = (Real64 { bits: 0xc066_8000_0000_0000 }).le(l.lon) && l.lon.le(
                Real64 { bits: 0x4066_8000_0000_0000 },
            );
            &&& location_fault(l) is None <==> lat && lon
            &&& lat && !lon ==> location_fault(l) == Some(LocationFault::LonNotFinite)
                || location_fault(l) == Some(LocationFault::LonOutOfRange)
            &&& lon && !lat ==> location_fault(l) == Some(LocationFault::LatNotFinite)
                || location_fault(l) == Some(LocationFault::LatOutOfRange)
            &&& location_fault(l) == Some(LocationFault::LatNotFinite) <==> !l.lat.finite()
            &&& location_fault(l) == Some(LocationFault::LonNotFinite) <==> l.lat.finite()
                && !l.lon.finite()
        }),
{
}

/// The bytes of a JSON frame: tag, then body.
pub open spec fn json_frame(tag: u8, json: Seq<u8>) -> Seq<u8> {
    seq![tag] + json
}

/// What the body of a JSON frame with this tag reads as.
pub open spec fn body_reading(d: Seq<u8>, tag: u8, r: Result<Vec<u8>, ProtocolError>) -> bool {
    &&& d.len() < 2 ==> r == Err::<Vec<u8>, ProtocolError>(
        ProtocolError::MessageTooShort { expected: 2, actual: d.len() as usize },
    )
    &&& d.len() >= 2 && d[0] != tag ==> r == Err::<Vec<u8>, ProtocolError>(
        ProtocolError::UnknownMessageType(d[0]),
    )
    &&& d.len() >= 2 && d[0] == tag ==> (r matches Ok(body) && body@ == d.skip(1))
}

/// What a build configuration frame reads as.
pub open spec fn request_reading(d: Seq<u8>, r: Result<String, ProtocolError>) -> bool {
    &&& d.len() < 2 ==> r == Err::<String, ProtocolError>(
        ProtocolError::MessageTooShort { expected: 2, actual: d.len() as usize },
    )
    &&& d.len() >= 2 && d[0] != MSG_TYPE_CONFIGURE_BUILD ==> r == Err::<String, ProtocolError>(
        ProtocolError::UnknownMessageType(d[0]),
    )
    &&& d.len() >= 2 && d[0] == MSG_TYPE_CONFIGURE_BUILD && vstd::utf8::valid_utf8(d.skip(1))
        ==> (r matches Ok(t) && t@ == vstd::utf8::decode_utf8(d.skip(1)))
    &&& d.len() >= 2 && d[0] == MSG_TYPE_CONFIGURE_BUILD && !vstd::utf8::valid_utf8(d.skip(1))
        ==> (r matches Err(ProtocolError::InvalidPayload { command_type, reason }) && command_type
        == CommandType::Arm && reason@ == "ConfigureBuild: invalid UTF-8"@)
}

/// The body of a JSON frame is read back under its own tag and refused under
/// any other; a frame without a body is too short.
pub proof fn law_a_json_frame_is_read_under_its_own_tag(
    json: Seq<u8>,
    written: u8,
    expected: u8,
    r: Result<Vec<u8>, ProtocolError>,
)
    requires
        body_reading(json_frame(written, json), expected, r),
    ensures
        json.len() > 0 && written == expected ==> (r matches Ok(body) && body@ == json),
        json.len() > 0 && written != expected ==> r == Err::<Vec<u8>, ProtocolError>(
            ProtocolError::UnknownMessageType(written),
        ),
        json.len() == 0 ==> (r matches Err(ProtocolError::MessageTooShort { expected: e, actual })
            && e == 2 && actual == 1),
{
    assert(json_frame(written, json).skip(1) =~= json);
}

/// A build request is the text behind its tag; under another tag there is none.
pub proof fn law_a_build_request_is_the_text_behind_its_tag(
    said: Seq<char>,
    tag: u8,
    r: Result<String, ProtocolError>,
)
    requires
        said.len() > 0,
        request_reading(json_frame(tag, vstd::utf8::encode_utf8(said)), r),
    ensures
        tag == 0x13 ==> (r matches Ok(t) && t@ == said),
        tag != 0x13 ==> r == Err::<String, ProtocolError>(ProtocolError::UnknownMessageType(tag)),
{
    let body = vstd::utf8::encode_utf8(said);
    vstd::utf8::encode_utf8_valid_utf8(said);
    vstd::utf8::encode_utf8_decode_utf8(said);
    assert(json_frame(tag, body).skip(1) =~= body);
    assert(body.len() > 0) by {
        if body.len() == 0 {
            assert(body =~= Seq::<u8>::empty());
            assert(vstd::utf8::decode_utf8(body).len() == 0);
        }
    }
}

/// A place that is none is refused with the coordinate that is at fault.
pub proof fn law_what_a_bad_place_is_told(f: LocationFault, number: Seq<char>)
    ensures
        f is LatNotFinite ==> f.message(number) == "flight_location.lat must be a finite number"@,
        f is LonNotFinite ==> f.message(number) == "flight_location.lon must be a finite number"@,
        f is LatOutOfRange ==> f.message(number) == "flight_location.lat "@ + number
            + " out of range (-90..=90)"@,
        f is LonOutOfRange ==> f.message(number) == "flight_location.lon "@ + number
            + " out of range (-180..=180)"@,
{
}

} // verus!
