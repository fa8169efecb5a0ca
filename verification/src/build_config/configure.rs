//! The course of a build configuration.
//!
//! Specifications are fetched one component after another; only the motor's
//! are indispensable. Once the build is computed, its parameters are pushed and
//! confirmed, and only then is the simulation given the new physics and the
//! flight moved to the location that was asked for. Whatever fails before that
//! leaves the running flight untouched.
use crate::build_config::push;
use crate::build_config::push::PidParams;
use crate::build_config::specs;
use crate::build_config::specs::{BuildPlan, SpecRecord};
use crate::ieee;
use crate::ieee::{clamp, Real32, Real64};
use crate::protocol::config;
use crate::protocol::config::{
    AppliedConfig, ConfigResult, ConfigStage, ConfigState, ConfigureBuild, FlightLocation,
    LocationFault, Px4PidsView,
};
use vstd::prelude::*;

verus! {

/// One, as a bit pattern.
pub const ONE: u64 = 0x3ff0_0000_0000_0000;

/// Lowest hover throttle the autopilot accepts: 0.1, as a bit pattern.
pub const HOVER_MIN: u64 = 0x3fb9_9999_9999_999a;

/// Highest hover throttle the autopilot accepts: 0.8, as a bit pattern.
pub const HOVER_MAX: u64 = 0x3fe9_9999_9999_999a;

/// Lowest throttle floor the autopilot accepts: 0.05, as a bit pattern.
pub const THR_MIN_LOW: u32 = 0x3d4c_cccd;

/// Highest throttle floor the autopilot accepts: 0.2, as a bit pattern.
pub const THR_MIN_HIGH: u32 = 0x3e4c_cccd;

/// Whether a build can hover: its static thrust exceeds its weight.
pub fn can_hover(thrust_to_weight_ratio: Real64) -> (r: bool)
    ensures
        r == hovers(thrust_to_weight_ratio),
{
    Real64::from_bits(ONE).less_than(thrust_to_weight_ratio)
}

/// Whether a build can hover: its static thrust exceeds its weight.
pub open spec fn hovers(thrust_to_weight_ratio: Real64) -> bool {
    (Real64 { bits: ONE }).lt(thrust_to_weight_ratio)
}

/// The hover throttle a build needs, brought into the range that the autopilot
/// accepts.
pub fn hover_command(required: Real64) -> (r: Real64)
    ensures
        r == ieee::clamped(required, HOVER_MIN, HOVER_MAX),
{
    clamp(required, HOVER_MIN, HOVER_MAX)
}

/// A throttle floor brought into the range that the autopilot accepts.
pub open spec fn floor_clamped(x: Real32) -> Real32 {
    if x.lt(Real32 { bits: THR_MIN_LOW }) {
        Real32 { bits: THR_MIN_LOW }
    } else if (Real32 { bits: THR_MIN_HIGH }).lt(x) {
        Real32 { bits: THR_MIN_HIGH }
    } else {
        x
    }
}

/// A throttle floor brought into the range that the autopilot accepts.
pub fn throttle_floor(x: Real32) -> (r: Real32)
    ensures
        r == floor_clamped(x),
{
    if x.less_than(Real32::from_bits(THR_MIN_LOW)) {
        Real32::from_bits(THR_MIN_LOW)
    } else if Real32::from_bits(THR_MIN_HIGH).less_than(x) {
        Real32::from_bits(THR_MIN_HIGH)
    } else {
        x
    }
}

/// A component whose record is fetched.
#[derive(Clone, Copy, Debug, PartialEq, Eq, Structural)]
pub enum Component {
    /// The motors.
    Motor,
    /// The propellers.
    Prop,
    /// The frame.
    Frame,
    /// The speed controllers.
    Esc,
    /// The flight controller.
    Fc,
    /// The battery.
    Battery,
    /// The GPS receiver.
    Gps,
}

/// What a configuration asks for next.
#[derive(Clone, Copy, Debug, PartialEq, Eq, Structural)]
pub enum ConfigureStep {
    /// Fetch the record of a component.
    Fetch(Component),
    /// Compute the physics and the gains.
    Compute,
    /// Push the parameters and have them confirmed.
    Push,
    /// Hand the physics to the simulation.
    Deliver,
    /// Restart the estimator.
    Restart,
    /// It is over.
    Finished,
}

/// What was computed of a build.
#[derive(Clone, Copy, Debug, PartialEq, Eq, Structural)]
pub struct DerivedBuild {
    /// All-up mass.
    pub mass_kg: Real64,
    /// Thrust coefficient.
    pub kt: Real64,
    /// Torque coefficient.
    pub kq: Real64,
    /// Arm length.
    pub arm_length_m: Real64,
    /// Static thrust of one motor.
    pub max_thrust_per_motor_g: Real64,
    /// Total static thrust over weight.
    pub thrust_to_weight_ratio: Real64,
    /// Motor speed constant.
    pub motor_kv: Real64,
    /// No-load speed.
    pub max_motor_rpm: Real64,
    /// Flight time estimate.
    pub estimated_flight_time_min: Real64,
    /// Hover throttle in the autopilot's range.
    pub hover_cmd: Real32,
    /// Throttle the build needs to hover.
    pub hover_required: Real64,
}

/// The parameters of a build, given its gains and a throttle floor.
pub open spec fn build_params(d: DerivedBuild, pids: Px4PidsView, floor: Real32) -> PidParams {
    PidParams {
        pids,
        hover_cmd: d.hover_cmd,
        thr_min: floor_clamped(floor),
        can_hover: hovers(d.thrust_to_weight_ratio),
    }
}

/// What happened to a configuration.
#[derive(Clone, Debug)]
pub enum ConfigureEvent {
    /// The record arrived.
    Fetched(SpecRecord),
    /// It could not be fetched.
    FetchFailed(String),
    /// The build was computed.
    Computed(DerivedBuild),
    /// The push was confirmed in full, or skipped: the gains that were applied
    /// and the number of parameters confirmed.
    Pushed { pids: Option<Px4PidsView>, verified: u32 },
    /// The push failed.
    PushFailed(String),
    /// The simulation took the physics.
    Delivered,
    /// The simulation is gone.
    NotDelivered,
    /// The estimator was restarted, or could not be.
    Restarted,
}

/// A configuration under way.
#[derive(Debug)]
pub struct Configure {
    request: ConfigureBuild,
    step: ConfigureStep,
    plan: Option<BuildPlan>,
    derived: Option<DerivedBuild>,
    pids: Option<Px4PidsView>,
    verified: u32,
    error: Option<String>,
}

/// Where a configuration stands.
pub ghost struct ConfigureModel {
    pub request: ConfigureBuild,
    pub step: ConfigureStep,
    pub plan: Option<BuildPlan>,
    pub derived: Option<DerivedBuild>,
    pub pids: Option<Px4PidsView>,
    pub verified: u32,
    pub error: Option<Seq<char>>,
}

impl View for Configure {
    type V = ConfigureModel;

    closed spec fn view(&self) -> ConfigureModel {
        ConfigureModel {
            request: self.request,
            step: self.step,
            plan: self.plan,
            derived: self.derived,
            pids: self.pids,
            verified: self.verified,
            error: match self.error {
                Some(e) => Some(e@),
                None => None,
            },
        }
    }
}

/// Components that come after this one.
pub open spec fn components_left(c: Component) -> int {
    match c {
        Component::Motor => 6,
        Component::Prop => 5,
        Component::Frame => 4,
        Component::Esc => 3,
        Component::Fc => 2,
        Component::Battery => 1,
        Component::Gps => 0,
    }
}

/// The component after this one, and whether a request names it; the GPS
/// receiver is the last.
pub open spec fn following(request: ConfigureBuild, c: Component) -> (Component, bool) {
    match c {
        Component::Motor => (Component::Prop, request.prop_slug is Some),
        Component::Prop => (Component::Frame, request.frame_slug is Some),
        Component::Frame => (Component::Esc, request.esc_slug is Some),
        Component::Esc => (Component::Fc, request.fc_slug is Some),
        Component::Fc => (Component::Battery, request.battery_slug is Some),
        _ => (Component::Gps, request.gps_slug is Some),
    }
}

/// The step after the record of a component: the next component the request
/// names.
pub open spec fn step_after(request: ConfigureBuild, done: Component) -> ConfigureStep
    decreases components_left(done),
{
    let (next, named) = following(request, done);
    if done is Gps {
        ConfigureStep::Compute
    } else if named {
        ConfigureStep::Fetch(next)
    } else {
        step_after(request, next)
    }
}

/// A build with the record of a component other than the motor.
pub open spec fn with_component(p: BuildPlan, c: Component, record: SpecRecord) -> BuildPlan {
    match c {
        Component::Motor => p,
        Component::Prop => specs::with_prop(p, record),
        Component::Frame => specs::with_frame(p, record),
        Component::Esc => specs::with_esc(p, record),
        Component::Fc => specs::with_fc(p, record),
        Component::Battery => specs::with_battery(p, record),
        Component::Gps => specs::with_gps(p, record),
    }
}

/// A configuration that has not begun.
pub open spec fn configure_begun(request: ConfigureBuild) -> ConfigureModel {
    ConfigureModel {
        request,
        step: ConfigureStep::Fetch(Component::Motor),
        plan: None,
        derived: None,
        pids: None,
        verified: 0,
        error: None,
    }
}

/// A configuration that failed.
pub open spec fn configure_failed(m: ConfigureModel, message: Seq<char>) -> ConfigureModel {
    ConfigureModel { step: ConfigureStep::Finished, error: Some(message), ..m }
}

/// A configuration after a record arrived.
pub open spec fn after_record(m: ConfigureModel, c: Component, record: SpecRecord) -> ConfigureModel {
    if c is Motor {
        match specs::planned(m.request, record) {
            None => configure_failed(m, "Motor missing KV rating in specs"@),
            Some(plan) => ConfigureModel {
                plan: Some(plan),
                step: step_after(m.request, c),
                ..m
            },
        }
    } else {
        ConfigureModel {
            plan: match m.plan {
                Some(p) => Some(with_component(p, c, record)),
                None => None,
            },
            step: step_after(m.request, c),
            ..m
        }
    }
}

/// A configuration after an event. Only the motor's record is indispensable.
pub open spec fn configure_advanced(m: ConfigureModel, e: ConfigureEvent) -> ConfigureModel {
    match (m.step, e) {
        (ConfigureStep::Fetch(c), ConfigureEvent::Fetched(record)) => after_record(m, c, record),
        (ConfigureStep::Fetch(c), ConfigureEvent::FetchFailed(reason)) => if c is Motor {
            configure_failed(m, "Failed to fetch motor: "@ + reason@)
        } else {
            ConfigureModel { step: step_after(m.request, c), ..m }
        },
        (ConfigureStep::Compute, ConfigureEvent::Computed(d)) => ConfigureModel {
            derived: Some(d),
            step: ConfigureStep::Push,
            ..m
        },
        (ConfigureStep::Push, ConfigureEvent::Pushed { pids, verified }) => ConfigureModel {
            pids,
            verified,
            step: ConfigureStep::Deliver,
            ..m
        },
        (ConfigureStep::Push, ConfigureEvent::PushFailed(reason)) => configure_failed(
            m,
            "PID verification failed: "@ + reason@,
        ),
        (ConfigureStep::Deliver, ConfigureEvent::Delivered) => ConfigureModel {
            step: ConfigureStep::Restart,
            ..m
        },
        (ConfigureStep::Deliver, ConfigureEvent::NotDelivered) => configure_failed(
            m,
            "Simulation thread unavailable"@,
        ),
        (ConfigureStep::Restart, ConfigureEvent::Restarted) => ConfigureModel {
            step: ConfigureStep::Finished,
            ..m
        },
        _ => m,
    }
}

/// What holds of every configuration: it is for a point on Earth, past the
/// motor there is a build, and past the computation there are its numbers.
pub open spec fn configure_invariant(m: ConfigureModel) -> bool {
    &&& wanted_location(m.request) is Ok
    &&& match m.step {
        ConfigureStep::Fetch(c) => !(c is Motor) ==> m.plan is Some,
        ConfigureStep::Compute => m.plan is Some,
        ConfigureStep::Push => m.plan is Some && m.derived is Some,
        ConfigureStep::Deliver => m.plan is Some && m.derived is Some,
        ConfigureStep::Restart => m.plan is Some && m.derived is Some,
        ConfigureStep::Finished => m.error is None ==> m.plan is Some && m.derived is Some,
    }
    &&& !(m.step is Finished) ==> m.error is None
}

/// Whether this is what a build came to. The pack voltage is the request's,
/// which need not be nominal.
pub open spec fn came_to(
    c: AppliedConfig,
    request: ConfigureBuild,
    p: BuildPlan,
    d: DerivedBuild,
    pids: Option<Px4PidsView>,
    verified: u32,
) -> bool {
    &&& c.mass_kg == d.mass_kg
    &&& c.kt == d.kt
    &&& c.kq == d.kq
    &&& c.arm_length_m == d.arm_length_m
    &&& c.max_thrust_per_motor_g == d.max_thrust_per_motor_g
    &&& c.thrust_to_weight_ratio == d.thrust_to_weight_ratio
    &&& c.motor_kv == d.motor_kv
    &&& c.battery_voltage == request.battery_voltage
    &&& c.max_motor_rpm == d.max_motor_rpm
    &&& c.estimated_flight_time_min == d.estimated_flight_time_min
    &&& c.hover_cmd == d.hover_cmd
    &&& c.can_hover == hovers(d.thrust_to_weight_ratio)
    &&& c.hover_required == d.hover_required
    &&& c.estimated_masses@.map_values(|s: String| s@) == specs::masses_estimated(p)
    &&& c.applied_pids == pids
    &&& c.verified_params == verified
}

/// What a build came to.
pub fn applied_config(
    request: &ConfigureBuild,
    p: &BuildPlan,
    d: &DerivedBuild,
    pids: Option<Px4PidsView>,
    verified: u32,
) -> (r: AppliedConfig)
    ensures
        came_to(r, *request, *p, *d, pids, verified),
{
    AppliedConfig {
        mass_kg: d.mass_kg,
        kt: d.kt,
        kq: d.kq,
        arm_length_m: d.arm_length_m,
        max_thrust_per_motor_g: d.max_thrust_per_motor_g,
        thrust_to_weight_ratio: d.thrust_to_weight_ratio,
        motor_kv: d.motor_kv,
        battery_voltage: request.battery_voltage,
        max_motor_rpm: d.max_motor_rpm,
        estimated_flight_time_min: d.estimated_flight_time_min,
        hover_cmd: d.hover_cmd,
        can_hover: can_hover(d.thrust_to_weight_ratio),
        hover_required: d.hover_required,
        estimated_masses: p.estimated_masses(),
        applied_pids: pids,
        verified_params: verified,
    }
}

/// Whether this reports a failure.
pub open spec fn reports_failure(r: ConfigResult, message: Seq<char>) -> bool {
    &&& r.state is Error
    &&& !r.success
    &&& r.error matches Some(e) && e@ == message
    &&& r.config is None
    &&& r.stage is None
}

/// The report of a failure.
pub fn config_error(message: String) -> (r: ConfigResult)
    ensures
        reports_failure(r, message@),
{
    ConfigResult {
        state: ConfigState::Error,
        success: false,
        error: Some(message),
        config: None,
        stage: None,
    }
}

/// The announcement of a stage about to start. It keeps the state of a
/// configuration in progress.
pub fn stage_report(stage: ConfigStage) -> (r: ConfigResult)
    ensures
        r.state is Configuring,
        r.success,
        r.error is None,
        r.config is None,
        r.stage == Some(stage),
{
    ConfigResult {
        state: ConfigState::Configuring,
        success: true,
        error: None,
        config: None,
        stage: Some(stage),
    }
}

/// The degrees that a fault complains of, among the texts of both.
pub open spec fn faulty_degrees(
    fault: LocationFault,
    lat: Seq<char>,
    lon: Seq<char>,
) -> Seq<char> {
    match fault {
        LocationFault::LatNotFinite => lat,
        LocationFault::LatOutOfRange => lat,
        LocationFault::LonNotFinite => lon,
        LocationFault::LonOutOfRange => lon,
    }
}

/// The stage that a step belongs to.
pub open spec fn stage_of(step: ConfigureStep) -> Option<ConfigStage> {
    match step {
        ConfigureStep::Fetch(_) => Some(ConfigStage::FetchingSpecs),
        ConfigureStep::Compute => Some(ConfigStage::Computing),
        ConfigureStep::Push => Some(ConfigStage::PushingParams),
        ConfigureStep::Deliver => None,
        ConfigureStep::Restart => Some(ConfigStage::RestartingEkf),
        ConfigureStep::Finished => None,
    }
}

/// Where a request wants to fly, if that is a point on Earth.
pub open spec fn wanted_location(request: ConfigureBuild) -> Result<FlightLocation, LocationFault> {
    match request.flight_location {
        None => Ok(config::default_location()),
        Some(l) => match config::location_fault(l) {
            Some(f) => Err(f),
            None => Ok(l),
        },
    }
}

impl Configure {
    /// Start configuring a build for the location it asks for. A location that
    /// is no point on Earth fails the whole request: the caller must not be
    /// flown somewhere else instead. `lat` and `lon` render its degrees. The
    /// flight stays where it is until [`Configure::adopted_location`] says
    /// otherwise.
    pub fn start(request: ConfigureBuild, lat: &str, lon: &str) -> (r: Result<
        Configure,
        ConfigResult,
    >)
        ensures
            wanted_location(request) is Ok ==> (r matches Ok(started) && started@
                == configure_begun(request) && configure_invariant(started@)),
            wanted_location(request) matches Err(f) ==> (r matches Err(result) && reports_failure(
                result,
                f.message(faulty_degrees(f, lat@, lon@)),
            )),
    {
        match request.resolve_flight_location() {
            Err(f) => {
                let message: String = match f {
                    LocationFault::LatNotFinite => f.text(lat),
                    LocationFault::LatOutOfRange => f.text(lat),
                    LocationFault::LonNotFinite => f.text(lon),
                    LocationFault::LonOutOfRange => f.text(lon),
                };
                Err(config_error(message))
            },
            Ok(_) => Ok(
                Configure {
                    request,
                    step: ConfigureStep::Fetch(Component::Motor),
                    plan: None,
                    derived: None,
                    pids: None,
                    verified: 0,
                    error: None,
                },
            ),
        }
    }

    /// Where to fly from now on, while the physics are being delivered: the
    /// flight is moved there once the simulation has taken them. In any other
    /// step it stays where it is.
    pub fn adopted_location(&self) -> (r: Option<FlightLocation>)
        requires
            configure_invariant(self@),
        ensures
            r is Some <==> self@.step is Deliver,
            r matches Some(l) ==> wanted_location(self@.request) == Ok::<
                FlightLocation,
                LocationFault,
            >(l),
    {
        if let ConfigureStep::Deliver = self.step {
            match self.request.resolve_flight_location() {
                Ok(l) => Some(l),
                Err(_) => None,
            }
        } else {
            None
        }
    }

    /// What the configuration asks for next.
    pub fn step(&self) -> (r: ConfigureStep)
        ensures
            r == self@.step,
    {
        self.step
    }

    /// The stage that the next step belongs to, to be announced before it; the
    /// push is announced by [`Configure::configuring`].
    pub fn stage(&self) -> (r: Option<ConfigStage>)
        ensures
            r == stage_of(self@.step),
    {
        match self.step {
            ConfigureStep::Fetch(_) => Some(ConfigStage::FetchingSpecs),
            ConfigureStep::Compute => Some(ConfigStage::Computing),
            ConfigureStep::Push => Some(ConfigStage::PushingParams),
            ConfigureStep::Deliver => None,
            ConfigureStep::Restart => Some(ConfigStage::RestartingEkf),
            ConfigureStep::Finished => None,
        }
    }

    /// The request.
    pub fn request(&self) -> (r: &ConfigureBuild)
        ensures
            *r == self@.request,
    {
        &self.request
    }

    /// The build so far.
    pub fn plan(&self) -> (r: Option<BuildPlan>)
        ensures
            r == self@.plan,
    {
        self.plan
    }

    /// The parameters to push: gains that were computed for the build, its
    /// hover throttle, and a throttle floor brought into range.
    pub fn params(&self, pids: Px4PidsView, floor: Real32) -> (r: Option<PidParams>)
        ensures
            r == match self@.derived {
                Some(d) => Some(build_params(d, pids, floor)),
                None => None,
            },
    {
        match &self.derived {
            Some(d) => Some(
                PidParams {
                    pids,
                    hover_cmd: d.hover_cmd,
                    thr_min: throttle_floor(floor),
                    can_hover: can_hover(d.thrust_to_weight_ratio),
                },
            ),
            None => None,
        }
    }

    fn after(&self, done: Component) -> (r: ConfigureStep)
        ensures
            r == step_after(self@.request, done),
        decreases components_left(done),
    {
        let q: &ConfigureBuild = &self.request;
        let (next, named): (Component, bool) = match done {
            Component::Motor => (Component::Prop, q.prop_slug.is_some()),
            Component::Prop => (Component::Frame, q.frame_slug.is_some()),
            Component::Frame => (Component::Esc, q.esc_slug.is_some()),
            Component::Esc => (Component::Fc, q.fc_slug.is_some()),
            Component::Fc => (Component::Battery, q.battery_slug.is_some()),
            Component::Battery => (Component::Gps, q.gps_slug.is_some()),
            Component::Gps => return ConfigureStep::Compute,
        };
        if named {
            ConfigureStep::Fetch(next)
        } else {
            self.after(next)
        }
    }

    fn fail(&mut self, message: String)
        ensures
            final(self)@ == configure_failed(old(self)@, message@),
    {
        self.step = ConfigureStep::Finished;
        self.error = Some(message);
    }

    fn take_record(&mut self, c: Component, record: &SpecRecord)
        requires
            configure_invariant(old(self)@),
            old(self)@.step == ConfigureStep::Fetch(c),
        ensures
            final(self)@ == after_record(old(self)@, c, *record),
    {
        let next = self.after(c);
        if let Component::Motor = c {
            match BuildPlan::start(&self.request, record) {
                None => self.fail("Motor missing KV rating in specs".to_owned()),
                Some(plan) => {
                    self.plan = Some(plan);
                    self.step = next;
                },
            }
            return;
        }
        if let Some(p) = self.plan {
            let mut plan: BuildPlan = p;
            match c {
                Component::Motor => {},
                Component::Prop => plan.add_prop(record),
                Component::Frame => plan.add_frame(record),
                Component::Esc => plan.add_esc(record),
                Component::Fc => plan.add_fc(record),
                Component::Battery => plan.add_battery(record),
                Component::Gps => plan.add_gps(record),
            }
            self.plan = Some(plan);
        }
        self.step = next;
    }

    /// Take note of an event.
    pub fn on_event(&mut self, e: ConfigureEvent)
        requires
            configure_invariant(old(self)@),
        ensures
            final(self)@ == configure_advanced(old(self)@, e),
            configure_invariant(final(self)@),
    {
        proof {
            lemma_step_after(self@.request);
        }
        match (self.step, e) {
            (ConfigureStep::Fetch(c), ConfigureEvent::Fetched(record)) => {
                self.take_record(c, &record);
            },
            (ConfigureStep::Fetch(c), ConfigureEvent::FetchFailed(reason)) => {
                if let Component::Motor = c {
                    let mut message: String = "Failed to fetch motor: ".to_owned();
                    message.append(reason.as_str());
                    self.fail(message);
                } else {
                    self.step = self.after(c);
                }
            },
            (ConfigureStep::Compute, ConfigureEvent::Computed(d)) => {
                self.derived = Some(d);
                self.step = ConfigureStep::Push;
            },
            (ConfigureStep::Push, ConfigureEvent::Pushed { pids, verified }) => {
                self.pids = pids;
                self.verified = verified;
                self.step = ConfigureStep::Deliver;
            },
            (ConfigureStep::Push, ConfigureEvent::PushFailed(reason)) => {
                let mut message: String = "PID verification failed: ".to_owned();
                message.append(reason.as_str());
                self.fail(message);
            },
            (ConfigureStep::Deliver, ConfigureEvent::Delivered) => {
                self.step = ConfigureStep::Restart;
            },
            (ConfigureStep::Deliver, ConfigureEvent::NotDelivered) => {
                self.fail("Simulation thread unavailable".to_owned());
            },
            (ConfigureStep::Restart, ConfigureEvent::Restarted) => {
                self.step = ConfigureStep::Finished;
            },
            _ => {},
        }
    }

    /// The report that accompanies the push: what the build came to, with
    /// nothing confirmed yet.
    pub fn configuring(&self) -> (r: Option<ConfigResult>)
        requires
            configure_invariant(self@),
        ensures
            r is Some <==> self@.step is Push,
            r matches Some(result) ==> {
                &&& result.state is Configuring
                &&& result.success
                &&& result.error is None
                &&& result.stage == Some(ConfigStage::PushingParams)
                &&& result.config matches Some(c) && came_to(
                    c,
                    self@.request,
                    self@.plan->0,
                    self@.derived->0,
                    None,
                    0,
                )
            },
    {
        if let ConfigureStep::Push = self.step {
            if let (Some(p), Some(d)) = (&self.plan, &self.derived) {
                return Some(
                    ConfigResult {
                        state: ConfigState::Configuring,
                        success: true,
                        error: None,
                        config: Some(applied_config(&self.request, p, d, None, 0)),
                        stage: Some(ConfigStage::PushingParams),
                    },
                );
            }
        }
        None
    }

    /// The outcome, once it is over.
    pub fn result(&self) -> (r: Option<ConfigResult>)
        requires
            configure_invariant(self@),
        ensures
            r is Some <==> self@.step is Finished,
            r matches Some(result) ==> match self@.error {
                Some(e) => reports_failure(result, e),
                None => {
                    &&& result.state is Ready
                    &&& result.success
                    &&& result.error is None
                    &&& result.stage is None
                    &&& result.config matches Some(c) && came_to(
                        c,
                        self@.request,
                        self@.plan->0,
                        self@.derived->0,
                        self@.pids,
                        self@.verified,
                    )
                },
            },
    {
        if let ConfigureStep::Finished = self.step {
            if let Some(e) = &self.error {
                return Some(config_error(e.clone()));
            }
            if let (Some(p), Some(d)) = (&self.plan, &self.derived) {
                return Some(
                    ConfigResult {
                        state: ConfigState::Ready,
                        success: true,
                        error: None,
                        config: Some(applied_config(
                            &self.request,
                            p,
                            d,
                            self.pids,
                            self.verified,
                        )),
                        stage: None,
                    },
                );
            }
        }
        None
    }
}

proof fn lemma_step_after(request: ConfigureBuild)
    ensures
        forall|c: Component|
            (#[trigger] step_after(request, c)) is Compute || (step_after(
                request,
                c,
            ) matches ConfigureStep::Fetch(d) && !(d is Motor)),
{
    reveal_with_fuel(step_after, 7);
}

/// A build whose thrust does not exceed its weight is never told a hover
/// throttle, and its report says that it cannot hover.
pub proof fn law_a_build_too_heavy_to_hover_is_not_told_to(
    c: AppliedConfig,
    request: ConfigureBuild,
    p: BuildPlan,
    d: DerivedBuild,
    pids: Px4PidsView,
    floor: Real32,
    applied: Option<Px4PidsView>,
    verified: u32,
    i: int,
)
    requires
        !hovers(d.thrust_to_weight_ratio),
        came_to(c, request, p, d, applied, verified),
        0 <= i < push::gains(build_params(d, pids, floor)).len(),
    ensures
        !c.can_hover,
        push::gains(build_params(d, pids, floor))[i].name != "MPC_THR_HOVER"@,
{
    push::law_no_hover_throttle_for_a_build_that_cannot_hover(build_params(d, pids, floor), i);
}

/// A configuration after a run of events.
pub open spec fn configured(request: ConfigureBuild, events: Seq<ConfigureEvent>) -> ConfigureModel
    decreases events.len(),
{
    if events.len() == 0 {
        configure_begun(request)
    } else {
        configure_advanced(configured(request, events.drop_last()), events.last())
    }
}

/// Whether the simulation was given the new physics in a run of events.
pub open spec fn simulation_changed(request: ConfigureBuild, events: Seq<ConfigureEvent>) -> bool
    decreases events.len(),
{
    if events.len() == 0 {
        false
    } else {
        simulation_changed(request, events.drop_last()) || (configured(
            request,
            events.drop_last(),
        ).step is Deliver && events.last() is Delivered)
    }
}

/// Whether the push succeeded in a run of events.
pub open spec fn push_succeeded(request: ConfigureBuild, events: Seq<ConfigureEvent>) -> bool
    decreases events.len(),
{
    if events.len() == 0 {
        false
    } else {
        push_succeeded(request, events.drop_last()) || (configured(
            request,
            events.drop_last(),
        ).step is Push && events.last() is Pushed)
    }
}

/// The location that the flight was moved to in a run of events, if it was.
pub open spec fn location_adopted(
    request: ConfigureBuild,
    events: Seq<ConfigureEvent>,
) -> Option<FlightLocation>
    decreases events.len(),
{
    if events.len() == 0 {
        None
    } else if configured(request, events.drop_last()).step is Deliver
        && events.last() is Delivered {
        match wanted_location(request) {
            Ok(l) => Some(l),
            Err(_) => None,
        }
    } else {
        location_adopted(request, events.drop_last())
    }
}

/// A configuration that fails leaves the flight where it was: a build whose
/// motor cannot be looked up, say, does not move it.
pub proof fn law_a_failure_leaves_the_flight_where_it_was(
    request: ConfigureBuild,
    events: Seq<ConfigureEvent>,
)
    requires
        configured(request, events).error is Some,
    ensures
        location_adopted(request, events) is None,
{
    lemma_configured(request, events);
}

/// The flight is moved exactly when the simulation is given the new physics,
/// and to the location that was asked for; before the push was confirmed or
/// skipped it is not.
pub proof fn law_the_location_comes_with_the_physics(
    request: ConfigureBuild,
    events: Seq<ConfigureEvent>,
)
    requires
        wanted_location(request) is Ok,
    ensures
        location_adopted(request, events) == if simulation_changed(request, events) {
            Some(wanted_location(request)->Ok_0)
        } else {
            None
        },
        location_adopted(request, events) is Some ==> push_succeeded(request, events),
{
    lemma_configured(request, events);
}

/// The simulation is given the new physics only after every parameter was
/// confirmed or the push was skipped.
pub proof fn law_the_simulation_changes_only_after_the_push(
    request: ConfigureBuild,
    events: Seq<ConfigureEvent>,
)
    ensures
        simulation_changed(request, events) ==> push_succeeded(request, events),
{
    lemma_configured(request, events);
}

/// A configuration that fails leaves the running simulation as it was.
pub proof fn law_a_failure_leaves_the_simulation_untouched(
    request: ConfigureBuild,
    events: Seq<ConfigureEvent>,
)
    requires
        configured(request, events).error is Some,
    ensures
        !simulation_changed(request, events),
{
    lemma_configured(request, events);
}

/// A configuration reported ready has been delivered to the simulation.
pub proof fn law_ready_means_delivered(request: ConfigureBuild, events: Seq<ConfigureEvent>)
    requires
        configured(request, events).step is Finished,
        configured(request, events).error is None,
    ensures
        simulation_changed(request, events),
{
    lemma_configured(request, events);
}

proof fn lemma_configured(request: ConfigureBuild, events: Seq<ConfigureEvent>)
    ensures
        ({
            let m = configured(request, events);
            &&& m.request == request
            &&& simulation_changed(request, events) <==> (m.step is Restart || (m.step is Finished
                && m.error is None))
            &&& m.step is Deliver || m.step is Restart || (m.step is Finished && m.error is None)
                ==> push_succeeded(request, events)
            &&& !(m.step is Finished) ==> m.error is None
            &&& location_adopted(request, events) == if simulation_changed(request, events) {
                wanted_location(request).ok()
            } else {
                None
            }
        }),
    decreases events.len(),
{
    if events.len() > 0 {
        lemma_configured(request, events.drop_last());
        lemma_step_after(request);
    }
}

/// The part of a request that names a component, beyond the motor.
pub open spec fn is_named(request: ConfigureBuild, c: Component) -> bool {
    match c {
        Component::Motor => true,
        Component::Prop => request.prop_slug is Some,
        Component::Frame => request.frame_slug is Some,
        Component::Esc => request.esc_slug is Some,
        Component::Fc => request.fc_slug is Some,
        Component::Battery => request.battery_slug is Some,
        Component::Gps => request.gps_slug is Some,
    }
}

/// Place of a component in the order they are fetched in.
pub open spec fn place(c: Component) -> int {
    match c {
        Component::Motor => 0,
        Component::Prop => 1,
        Component::Frame => 2,
        Component::Esc => 3,
        Component::Fc => 4,
        Component::Battery => 5,
        Component::Gps => 6,
    }
}

/// After a component the next one in order that the request names is fetched;
/// none is passed over, and none is fetched twice. After the last the build is
/// computed.
pub proof fn law_every_named_component_is_fetched_in_order(
    request: ConfigureBuild,
    done: Component,
    other: Component,
)
    ensures
        step_after(request, done) matches ConfigureStep::Fetch(next) ==> {
            &&& place(done) < place(next)
            &&& is_named(request, next)
            &&& place(done) < place(other) < place(next) ==> !is_named(request, other)
        },
        step_after(request, done) is Compute ==> (place(done) < place(other) ==> !is_named(
            request,
            other,
        )),
        step_after(request, done) is Compute || step_after(request, done) is Fetch,
{
    reveal_with_fuel(step_after, 7);
}

/// Each record goes to the component it was fetched for, and only there.
pub proof fn law_a_record_goes_to_its_own_component(p: BuildPlan, record: SpecRecord)
    ensures
        with_component(p, Component::Prop, record) == specs::with_prop(p, record),
        with_component(p, Component::Frame, record) == specs::with_frame(p, record),
        with_component(p, Component::Esc, record) == specs::with_esc(p, record),
        with_component(p, Component::Fc, record) == specs::with_fc(p, record),
        with_component(p, Component::Battery, record) == specs::with_battery(p, record),
        with_component(p, Component::Gps, record) == specs::with_gps(p, record),
        with_component(p, Component::Motor, record) == p,
{
}

/// A configuration begins with the motor. Its record is taken into the build
/// and the next component follows; without the record, or without a speed
/// constant in it, the configuration fails.
pub proof fn law_the_motor_is_indispensable(
    request: ConfigureBuild,
    record: SpecRecord,
    reason: String,
)
    ensures
        ({
            let begun = configure_begun(request);
            let got = configure_advanced(begun, ConfigureEvent::Fetched(record));
            let missed = configure_advanced(begun, ConfigureEvent::FetchFailed(reason));
            &&& begun.step == ConfigureStep::Fetch(Component::Motor)
            &&& begun.request == request
            &&& begun.plan is None
            &&& begun.error is None
            &&& missed.step is Finished
            &&& missed.error == Some("Failed to fetch motor: "@ + reason@)
            &&& specs::planned(request, record) is Some ==> got.plan == specs::planned(
                request,
                record,
            ) && got.error is None && !(got.step is Finished)
            &&& specs::planned(request, record) is None ==> got.step is Finished && got.error
                == Some("Motor missing KV rating in specs"@)
        }),
{
    lemma_step_after(request);
}

/// Any other component can be missing: the build goes on without it, as it was.
/// One that arrives is added to the build.
pub proof fn law_other_components_can_be_missing(
    m: ConfigureModel,
    c: Component,
    record: SpecRecord,
    reason: String,
)
    requires
        m.step == ConfigureStep::Fetch(c),
        !(c is Motor),
        m.plan is Some,
        m.error is None,
    ensures
        ({
            let missed = configure_advanced(m, ConfigureEvent::FetchFailed(reason));
            let got = configure_advanced(m, ConfigureEvent::Fetched(record));
            &&& missed.error is None
            &&& missed.plan == m.plan
            &&& missed.step == step_after(m.request, c)
            &&& got.error is None
            &&& got.plan == Some(with_component(m.plan->0, c, record))
            &&& got.step == step_after(m.request, c)
        }),
{
}

/// From the computation on a configuration pushes, delivers and restarts, in
/// that order, and is then ready with what was computed and confirmed. A push
/// that failed and a simulation that is gone end it, each with its reason.
pub proof fn law_the_course_of_a_configuration(
    m: ConfigureModel,
    d: DerivedBuild,
    pids: Option<Px4PidsView>,
    verified: u32,
    reason: String,
)
    requires
        m.step is Compute,
        m.error is None,
    ensures
        ({
            let pushing = configure_advanced(m, ConfigureEvent::Computed(d));
            let refused = configure_advanced(pushing, ConfigureEvent::PushFailed(reason));
            let pushed = configure_advanced(pushing, ConfigureEvent::Pushed { pids, verified });
            let gone = configure_advanced(pushed, ConfigureEvent::NotDelivered);
            let delivered = configure_advanced(pushed, ConfigureEvent::Delivered);
            let ready = configure_advanced(delivered, ConfigureEvent::Restarted);
            &&& pushing.step is Push
            &&& pushing.derived == Some(d)
            &&& refused.step is Finished
            &&& refused.error == Some("PID verification failed: "@ + reason@)
            &&& pushed.step is Deliver
            &&& gone.step is Finished
            &&& gone.error == Some("Simulation thread unavailable"@)
            &&& delivered.step is Restart
            &&& ready.step is Finished
            &&& ready.error is None
            &&& ready.derived == Some(d)
            &&& ready.pids == pids
            &&& ready.verified == verified
            &&& ready.plan == m.plan
            &&& ready.request == m.request
        }),
{
}

/// An event that a configuration is not waiting for changes nothing; one that is
/// over waits for none.
pub proof fn law_a_configuration_that_is_over_stays_over(m: ConfigureModel, e: ConfigureEvent)
    requires
        m.step is Finished,
    ensures
        configure_advanced(m, e) == m,
{
}

/// What is reported of a build is what was computed of it, number by number,
/// with the pack voltage of the request.
pub proof fn law_a_report_gives_what_was_computed(
    c: AppliedConfig,
    request: ConfigureBuild,
    p: BuildPlan,
    d: DerivedBuild,
    pids: Option<Px4PidsView>,
    verified: u32,
)
    requires
        came_to(c, request, p, d, pids, verified),
    ensures
        c.mass_kg == d.mass_kg,
        c.kt == d.kt,
        c.kq == d.kq,
        c.arm_length_m == d.arm_length_m,
        c.max_thrust_per_motor_g == d.max_thrust_per_motor_g,
        c.thrust_to_weight_ratio == d.thrust_to_weight_ratio,
        c.motor_kv == d.motor_kv,
        c.max_motor_rpm == d.max_motor_rpm,
        c.estimated_flight_time_min == d.estimated_flight_time_min,
        c.hover_cmd == d.hover_cmd,
        c.hover_required == d.hover_required,
        c.battery_voltage == request.battery_voltage,
        c.can_hover <==> (Real64 { bits: 0x3ff0_0000_0000_0000 }).lt(d.thrust_to_weight_ratio),
        c.applied_pids == pids,
        c.verified_params == verified,
        c.estimated_masses@.len() == specs::masses_estimated(p).len(),
        forall|i: int|
            0 <= i < c.estimated_masses@.len() ==> (#[trigger] c.estimated_masses@[i])@
                == specs::masses_estimated(p)[i],
{
    let names = c.estimated_masses@.map_values(|s: String| s@);
    assert(names == specs::masses_estimated(p));
    assert forall|i: int| 0 <= i < c.estimated_masses@.len() implies (
    #[trigger] c.estimated_masses@[i])@ == specs::masses_estimated(p)[i] by {
        assert(names[i] == c.estimated_masses@[i]@);
    }
}

/// What is pushed of a build are the gains computed for it, its hover throttle,
/// and a floor between 0.05 and 0.2.
pub proof fn law_what_is_pushed_of_a_build(d: DerivedBuild, pids: Px4PidsView, floor: Real32)
    ensures
        build_params(d, pids, floor).pids == pids,
        build_params(d, pids, floor).hover_cmd == d.hover_cmd,
        build_params(d, pids, floor).can_hover <==> (Real64 { bits: 0x3ff0_0000_0000_0000 }).lt(
            d.thrust_to_weight_ratio,
        ),
        !floor.nan() ==> (Real32 { bits: 0x3d4c_cccd }).le(build_params(d, pids, floor).thr_min)
            && build_params(d, pids, floor).thr_min.le(Real32 { bits: 0x3e4c_cccd }),
        (Real32 { bits: 0x3d4c_cccd }).le(floor) && floor.le(Real32 { bits: 0x3e4c_cccd })
            ==> build_params(d, pids, floor).thr_min == floor,
{
}

/// A flight takes place where the request asks for it, if that is on Earth, and
/// at the default place only if it asks for none.
pub proof fn law_a_flight_takes_place_where_it_was_asked_for(request: ConfigureBuild)
    ensures
        request.flight_location is None ==> wanted_location(request) == Ok::<
            FlightLocation,
            LocationFault,
        >(config::default_location()),
        request.flight_location matches Some(l) ==> {
            &&& config::location_fault(l) is None ==> wanted_location(request) == Ok::<
                FlightLocation,
                LocationFault,
            >(l)
            &&& config::location_fault(l) matches Some(f) ==> wanted_location(request) == Err::<
                FlightLocation,
                LocationFault,
            >(f)
        },
{
}

/// A fault complains of the degrees that are at fault.
pub proof fn law_a_fault_complains_of_the_right_degrees(lat: Seq<char>, lon: Seq<char>)
    ensures
        faulty_degrees(LocationFault::LatNotFinite, lat, lon) == lat,
        faulty_degrees(LocationFault::LatOutOfRange, lat, lon) == lat,
        faulty_degrees(LocationFault::LonNotFinite, lat, lon) == lon,
        faulty_degrees(LocationFault::LonOutOfRange, lat, lon) == lon,
{
}

/// Each step is announced as the stage it belongs to; the delivery and the end
/// are announced as none.
pub proof fn law_each_step_is_announced_as_its_stage(c: Component)
    ensures
        stage_of(ConfigureStep::Fetch(c)) == Some(ConfigStage::FetchingSpecs),
        stage_of(ConfigureStep::Compute) == Some(ConfigStage::Computing),
        stage_of(ConfigureStep::Push) == Some(ConfigStage::PushingParams),
        stage_of(ConfigureStep::Restart) == Some(ConfigStage::RestartingEkf),
        stage_of(ConfigureStep::Deliver) is None,
        stage_of(ConfigureStep::Finished) is None,
{
}

} // verus!
