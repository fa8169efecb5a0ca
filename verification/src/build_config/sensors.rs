//! Sensor noise of a build.
//!
//! Noise comes from the request where it carries a measured profile, and from
//! the chips of the build otherwise. Bias drift stays off: in simulation it
//! makes the estimator diverge.
use crate::build_config::specs::or_number;
use crate::build_config::specs;
use crate::ieee::Real64;
use crate::protocol::config::ConfigureBuild;
use vstd::prelude::*;

verus! {

/// Time constant of a drift that is switched off: 1000 s, as a bit pattern.
pub const DRIFT_TAU: u64 = 0x408f_4000_0000_0000;

/// No drift, as a bit pattern.
pub const NO_DRIFT: u64 = 0;

/// GPS horizontal noise without a receiver: 0.1 m, as a bit pattern.
pub const DEFAULT_GPS_HORIZONTAL: u64 = 0x3fb9_9999_9999_999a;

/// GPS altitude noise without a receiver: 0.3 m, as a bit pattern.
pub const DEFAULT_GPS_ALTITUDE: u64 = 0x3fd3_3333_3333_3333;

/// GPS velocity noise without a receiver: 0.05 m/s, as a bit pattern.
pub const DEFAULT_GPS_VELOCITY: u64 = 0x3fa9_9999_9999_999a;

/// GPS update rate without a receiver: 10 Hz, as a bit pattern.
pub const DEFAULT_GPS_RATE: u64 = 0x4024_0000_0000_0000;

/// GPS delay without a receiver: 80 ms, as a bit pattern.
pub const DEFAULT_GPS_DELAY: u64 = 0x4054_0000_0000_0000;

/// Magnetometer noise without a magnetometer: 0.005 gauss, as a bit pattern.
pub const DEFAULT_MAG_NOISE: u64 = 0x3f74_7ae1_47ae_147b;

/// Noise of the chips of a build.
#[derive(Clone, Copy, Debug, PartialEq, Eq, Structural)]
pub struct SensorProfiles {
    /// Gyro noise density.
    pub gyro_noise_density: Real64,
    /// Accelerometer noise density.
    pub accel_noise_density: Real64,
    /// Barometer noise in metres.
    pub baro_noise_sigma_m: Real64,
    /// Magnetometer noise in gauss, absent without a magnetometer.
    pub mag_noise_sigma_gauss: Option<Real64>,
}

/// Accuracy of a GPS receiver.
#[derive(Clone, Copy, Debug, PartialEq, Eq, Structural)]
pub struct GpsProfile {
    /// Horizontal noise in metres.
    pub horizontal_noise_sigma_m: Real64,
    /// Altitude noise in metres.
    pub altitude_noise_sigma_m: Real64,
    /// Velocity noise in m/s.
    pub velocity_noise_sigma_mps: Real64,
    /// Update rate.
    pub update_rate_hz: Real64,
    /// Delay.
    pub delay_ms: Real64,
}

/// What is set of the inertial measurement unit.
#[derive(Clone, Copy, Debug, PartialEq, Eq, Structural)]
pub struct ImuConfig {
    /// Gyro noise density.
    pub gyro_noise_density: Real64,
    /// Accelerometer noise density.
    pub accel_noise_density: Real64,
    /// Gyro bias drift.
    pub gyro_bias_sigma: Real64,
    /// Its time constant.
    pub gyro_bias_tau: Real64,
    /// Accelerometer bias drift.
    pub accel_bias_sigma: Real64,
    /// Its time constant.
    pub accel_bias_tau: Real64,
}

/// What is set of the GPS receiver; the rest keeps its default.
#[derive(Clone, Copy, Debug, PartialEq, Eq, Structural)]
pub struct GpsConfig {
    /// Horizontal noise.
    pub horizontal_noise_sigma: Real64,
    /// Altitude noise.
    pub altitude_noise_sigma: Real64,
    /// Velocity noise.
    pub velocity_noise_sigma: Real64,
    /// Position drift on top of the noise. The receiver's stated accuracy
    /// already holds its wander; drift here would count it twice.
    pub position_drift_sigma: Real64,
    /// Its time constant.
    pub position_drift_tau: Real64,
    /// Update rate.
    pub update_rate_hz: Real64,
    /// Delay.
    pub delay_ms: Real64,
}

/// What is set of the sensors.
#[derive(Clone, Copy, Debug, PartialEq, Eq, Structural)]
pub struct SensorsConfig {
    /// Inertial measurement unit.
    pub imu: ImuConfig,
    /// GPS receiver.
    pub gps: GpsConfig,
    /// Barometer noise.
    pub baro_noise_sigma: Real64,
    /// Magnetometer noise.
    pub mag_noise_sigma_gauss: Real64,
}

/// A GPS receiver's accuracy at the rate its own product listing states, where
/// the build has one.
pub open spec fn listed_profile(p: Option<GpsProfile>, gps: Option<specs::GpsSpec>) -> Option<
    GpsProfile,
> {
    match (p, gps) {
        (Some(profile), Some(g)) => Some(
            GpsProfile { update_rate_hz: g.update_rate_hz, ..profile },
        ),
        _ => p,
    }
}

/// A GPS receiver's accuracy at the rate its own product listing states.
pub fn listed_gps_profile(p: Option<GpsProfile>, gps: Option<specs::GpsSpec>) -> (r: Option<
    GpsProfile,
>)
    ensures
        r == listed_profile(p, gps),
{
    match (p, gps) {
        (Some(profile), Some(g)) => Some(
            GpsProfile { update_rate_hz: g.update_rate_hz, ..profile },
        ),
        _ => p,
    }
}

/// The receiver assumed when a build has none.
pub open spec fn assumed_gps() -> GpsProfile {
    GpsProfile {
        horizontal_noise_sigma_m: Real64 { bits: DEFAULT_GPS_HORIZONTAL },
        altitude_noise_sigma_m: Real64 { bits: DEFAULT_GPS_ALTITUDE },
        velocity_noise_sigma_mps: Real64 { bits: DEFAULT_GPS_VELOCITY },
        update_rate_hz: Real64 { bits: DEFAULT_GPS_RATE },
        delay_ms: Real64 { bits: DEFAULT_GPS_DELAY },
    }
}

/// The GPS settings of a request, over a receiver's accuracy.
pub open spec fn gps_config(gp: GpsProfile, request: ConfigureBuild) -> GpsConfig {
    GpsConfig {
        horizontal_noise_sigma: specs::number_or(
            request.gps_horizontal_noise,
            gp.horizontal_noise_sigma_m,
        ),
        altitude_noise_sigma: specs::number_or(
            request.gps_altitude_noise,
            gp.altitude_noise_sigma_m,
        ),
        velocity_noise_sigma: specs::number_or(
            request.gps_velocity_noise,
            gp.velocity_noise_sigma_mps,
        ),
        position_drift_sigma: Real64 { bits: NO_DRIFT },
        position_drift_tau: Real64 { bits: DRIFT_TAU },
        update_rate_hz: gp.update_rate_hz,
        delay_ms: gp.delay_ms,
    }
}

/// The sensor settings of a build.
pub open spec fn sensors_config(
    profiles: SensorProfiles,
    gps_profile: Option<GpsProfile>,
    request: ConfigureBuild,
) -> SensorsConfig {
    SensorsConfig {
        imu: ImuConfig {
            gyro_noise_density: specs::number_or(
                request.gyro_noise_density,
                profiles.gyro_noise_density,
            ),
            accel_noise_density: specs::number_or(
                request.accel_noise_density,
                profiles.accel_noise_density,
            ),
            gyro_bias_sigma: Real64 { bits: NO_DRIFT },
            gyro_bias_tau: Real64 { bits: DRIFT_TAU },
            accel_bias_sigma: Real64 { bits: NO_DRIFT },
            accel_bias_tau: Real64 { bits: DRIFT_TAU },
        },
        gps: gps_config(
            match gps_profile {
                Some(gp) => gp,
                None => assumed_gps(),
            },
            request,
        ),
        baro_noise_sigma: specs::number_or(request.baro_noise_sigma, profiles.baro_noise_sigma_m),
        mag_noise_sigma_gauss: specs::number_or(
            request.mag_noise_sigma,
            specs::number_or(
                profiles.mag_noise_sigma_gauss,
                Real64 { bits: DEFAULT_MAG_NOISE },
            ),
        ),
    }
}

/// The sensor settings of a build. A profile in the request overrides what the
/// chips say.
pub fn build_sensors_config(
    profiles: &SensorProfiles,
    gps_profile: Option<GpsProfile>,
    request: &ConfigureBuild,
) -> (r: SensorsConfig)
    ensures
        r == sensors_config(*profiles, gps_profile, *request),
{
    let gp: GpsProfile = match gps_profile {
        Some(gp) => gp,
        None => GpsProfile {
            horizontal_noise_sigma_m: Real64::from_bits(DEFAULT_GPS_HORIZONTAL),
            altitude_noise_sigma_m: Real64::from_bits(DEFAULT_GPS_ALTITUDE),
            velocity_noise_sigma_mps: Real64::from_bits(DEFAULT_GPS_VELOCITY),
            update_rate_hz: Real64::from_bits(DEFAULT_GPS_RATE),
            delay_ms: Real64::from_bits(DEFAULT_GPS_DELAY),
        },
    };
    let off: Real64 = Real64::from_bits(NO_DRIFT);
    let tau: Real64 = Real64::from_bits(DRIFT_TAU);
    SensorsConfig {
        imu: ImuConfig {
            gyro_noise_density: or_number(request.gyro_noise_density, profiles.gyro_noise_density),
            accel_noise_density: or_number(
                request.accel_noise_density,
                profiles.accel_noise_density,
            ),
            gyro_bias_sigma: off,
            gyro_bias_tau: tau,
            accel_bias_sigma: off,
            accel_bias_tau: tau,
        },
        gps: GpsConfig {
            horizontal_noise_sigma: or_number(
                request.gps_horizontal_noise,
                gp.horizontal_noise_sigma_m,
            ),
            altitude_noise_sigma: or_number(request.gps_altitude_noise, gp.altitude_noise_sigma_m),
            velocity_noise_sigma: or_number(
                request.gps_velocity_noise,
                gp.velocity_noise_sigma_mps,
            ),
            position_drift_sigma: off,
            position_drift_tau: tau,
            update_rate_hz: gp.update_rate_hz,
            delay_ms: gp.delay_ms,
        },
        baro_noise_sigma: or_number(request.baro_noise_sigma, profiles.baro_noise_sigma_m),
        mag_noise_sigma_gauss: or_number(
            request.mag_noise_sigma,
            or_number(profiles.mag_noise_sigma_gauss, Real64::from_bits(DEFAULT_MAG_NOISE)),
        ),
    }
}

/// No sensor ever drifts, whatever the request and the chips say.
pub proof fn law_sensors_never_drift(
    profiles: SensorProfiles,
    gps_profile: Option<GpsProfile>,
    request: ConfigureBuild,
)
    ensures
        ({
            let s = sensors_config(profiles, gps_profile, request);
            &&& s.imu.gyro_bias_sigma.bits == NO_DRIFT
            &&& s.imu.accel_bias_sigma.bits == NO_DRIFT
            &&& s.gps.position_drift_sigma.bits == NO_DRIFT
        }),
{
}

/// A measured profile in the request is taken field by field; what it leaves
/// out is as the chips of the build are.
pub proof fn law_a_measured_profile_overrides_the_chips(
    profiles: SensorProfiles,
    gps: GpsProfile,
    request: ConfigureBuild,
)
    ensures
        ({
            let s = sensors_config(profiles, Some(gps), request);
            &&& request.gyro_noise_density matches Some(v) ==> s.imu.gyro_noise_density == v
            &&& request.gyro_noise_density is None ==> s.imu.gyro_noise_density == profiles.gyro_noise_density
            &&& request.accel_noise_density matches Some(v) ==> s.imu.accel_noise_density == v
            &&& request.accel_noise_density is None ==> s.imu.accel_noise_density == profiles.accel_noise_density
            &&& request.baro_noise_sigma matches Some(v) ==> s.baro_noise_sigma == v
            &&& request.baro_noise_sigma is None ==> s.baro_noise_sigma == profiles.baro_noise_sigma_m
            &&& request.gps_horizontal_noise matches Some(v) ==> s.gps.horizontal_noise_sigma == v
            &&& request.gps_horizontal_noise is None ==> s.gps.horizontal_noise_sigma == gps.horizontal_noise_sigma_m
            &&& request.gps_altitude_noise matches Some(v) ==> s.gps.altitude_noise_sigma == v
            &&& request.gps_altitude_noise is None ==> s.gps.altitude_noise_sigma == gps.altitude_noise_sigma_m
            &&& request.gps_velocity_noise matches Some(v) ==> s.gps.velocity_noise_sigma == v
            &&& request.gps_velocity_noise is None ==> s.gps.velocity_noise_sigma == gps.velocity_noise_sigma_mps
            &&& request.mag_noise_sigma matches Some(v) ==> s.mag_noise_sigma_gauss == v
            &&& request.mag_noise_sigma is None ==> (profiles.mag_noise_sigma_gauss matches Some(m)
                ==> s.mag_noise_sigma_gauss == m)
            &&& request.mag_noise_sigma is None && profiles.mag_noise_sigma_gauss is None
                ==> s.mag_noise_sigma_gauss.bits == 0x3f74_7ae1_47ae_147b
            &&& s.gps.update_rate_hz == gps.update_rate_hz
            &&& s.gps.delay_ms == gps.delay_ms
        }),
{
}

/// A build without a receiver is given an ordinary one: 0.1 m across, 0.3 m up
/// and down, 0.05 m/s, ten times a second, 80 ms late.
pub proof fn law_the_receiver_of_a_build_without_one(
    profiles: SensorProfiles,
    request: ConfigureBuild,
)
    ensures
        ({
            let g = sensors_config(profiles, None, request).gps;
            &&& request.gps_horizontal_noise is None ==> g.horizontal_noise_sigma.bits
                == 0x3fb9_9999_9999_999a
            &&& request.gps_altitude_noise is None ==> g.altitude_noise_sigma.bits
                == 0x3fd3_3333_3333_3333
            &&& request.gps_velocity_noise is None ==> g.velocity_noise_sigma.bits
                == 0x3fa9_9999_9999_999a
            &&& request.gps_horizontal_noise matches Some(v) ==> g.horizontal_noise_sigma == v
            &&& request.gps_altitude_noise matches Some(v) ==> g.altitude_noise_sigma == v
            &&& request.gps_velocity_noise matches Some(v) ==> g.velocity_noise_sigma == v
            &&& g.update_rate_hz.bits == 0x4024_0000_0000_0000
            &&& g.delay_ms.bits == 0x4054_0000_0000_0000
        }),
{
}

/// A receiver runs at the rate of its own product listing, and is otherwise as
/// its chipset is; without a listing it is as its chipset is.
pub proof fn law_a_receiver_runs_at_its_listed_rate(
    profile: GpsProfile,
    gps: specs::GpsSpec,
)
    ensures
        listed_profile(Some(profile), Some(gps)) matches Some(l) && {
            &&& l.update_rate_hz == gps.update_rate_hz
            &&& l.horizontal_noise_sigma_m == profile.horizontal_noise_sigma_m
            &&& l.altitude_noise_sigma_m == profile.altitude_noise_sigma_m
            &&& l.velocity_noise_sigma_mps == profile.velocity_noise_sigma_mps
            &&& l.delay_ms == profile.delay_ms
        },
        listed_profile(Some(profile), None) == Some(profile),
        listed_profile(None, Some(gps)) is None,
{
}

} // verus!
