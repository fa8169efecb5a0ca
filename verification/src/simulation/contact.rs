//! Ground contact.
//!
//! Three concerns: the vehicle never sinks into the ground; a hard landing is
//! reported to the accelerometer as a short deceleration, so that the estimator
//! can reconcile the change of velocity; and through liftoff the accelerometer
//! keeps reporting rest until the vehicle is clearly airborne. Where the height
//! of the ground is not known, there is none to touch.
use crate::ieee::Real64;
use vstd::prelude::*;

verus! {

/// Length of the deceleration after an impact, in ticks.
pub const IMPACT_DURATION_TICKS: u32 = 40;

/// Least speed of descent that makes an impact: 0.5 m/s, as a bit pattern.
pub const IMPACT_VEL_THRESHOLD: u64 = 0x3fe0_0000_0000_0000;

/// Least time between warnings about missing terrain.
pub const TERRAIN_MISS_WARN_INTERVAL_MS: u64 = 5000;

/// Whether a vehicle is on the ground: at or below its height, which must be
/// known. Heights point down.
pub open spec fn on_ground(ground: Option<Real64>, down: Real64) -> bool {
    ground matches Some(g) && g.le(down)
}

/// Whether a vehicle is on the ground.
pub fn is_on_ground(ground: Option<Real64>, down: Real64) -> (r: bool)
    ensures
        r == on_ground(ground, down),
{
    match ground {
        Some(g) => g.at_most(down),
        None => false,
    }
}

/// Whether the equations of motion are integrated in this tick: always, except
/// at rest on the ground.
pub fn integrates(motors_active: bool, ground: Option<Real64>, down: Real64) -> (r: bool)
    ensures
        r == (motors_active || !on_ground(ground, down)),
{
    motors_active || !is_on_ground(ground, down)
}

/// What the accelerometer reports.
#[derive(Clone, Copy, Debug, PartialEq, Eq, Structural)]
pub enum AccelSource {
    /// The deceleration of an impact.
    Impact,
    /// Rest on the ground.
    Ground,
    /// The forces of flight.
    Flight,
}

/// Contact with the ground.
#[derive(Clone, Copy, Debug, PartialEq, Eq, Structural)]
pub struct GroundContact {
    /// Whether the accelerometer reports rest.
    pub active: bool,
    /// Ticks left of an impact.
    pub impact_ticks_remaining: u32,
}

/// What a tick did.
#[derive(Clone, Copy, Debug, PartialEq, Eq, Structural)]
pub struct ContactReport {
    /// The vehicle was put onto the ground, where it stands level.
    pub clamp: bool,
    /// An impact begins, whose deceleration is to be worked out.
    pub impact: bool,
}

/// What a tick does: `down` and `descent` are the position and the speed after
/// integration.
pub open spec fn contact_report(
    c: GroundContact,
    ground: Option<Real64>,
    down: Real64,
    descent: Real64,
) -> ContactReport {
    ContactReport {
        clamp: on_ground(ground, down),
        impact: on_ground(ground, down) && (Real64 { bits: IMPACT_VEL_THRESHOLD }).lt(descent)
            && c.impact_ticks_remaining == 0,
    }
}

/// Whether a vehicle is clearly airborne: above `release`, or over ground whose
/// height is not known.
pub open spec fn airborne(ground: Option<Real64>, down: Real64, release: Real64) -> bool {
    ground is None || down.lt(release)
}

/// Contact after a tick.
pub open spec fn contact_after(
    c: GroundContact,
    ground: Option<Real64>,
    down: Real64,
    descent: Real64,
    release: Real64,
) -> GroundContact {
    let ticks = if contact_report(c, ground, down, descent).impact {
        IMPACT_DURATION_TICKS
    } else {
        c.impact_ticks_remaining
    };
    GroundContact {
        active: on_ground(ground, down) || (c.active && !airborne(ground, down, release)),
        impact_ticks_remaining: if ticks > 0 {
            (ticks - 1) as u32
        } else {
            0
        },
    }
}

/// What the accelerometer reports of a contact.
pub open spec fn accel_reported(c: GroundContact) -> AccelSource {
    if c.impact_ticks_remaining > 0 {
        AccelSource::Impact
    } else if c.active {
        AccelSource::Ground
    } else {
        AccelSource::Flight
    }
}

impl GroundContact {
    /// At rest on the ground.
    pub fn new() -> (r: GroundContact)
        ensures
            r == (GroundContact { active: true, impact_ticks_remaining: 0 }),
    {
        GroundContact { active: true, impact_ticks_remaining: 0 }
    }

    /// Take note of where integration left the vehicle. `release` is the height
    /// above which it counts as airborne.
    pub fn step(&mut self, ground: Option<Real64>, down: Real64, descent: Real64, release: Real64)
        -> (r: ContactReport)
        ensures
            r == contact_report(*old(self), ground, down, descent),
            *final(self) == contact_after(*old(self), ground, down, descent, release),
    {
        let clamp: bool = is_on_ground(ground, down);
        let impact: bool = clamp && Real64::from_bits(IMPACT_VEL_THRESHOLD).less_than(descent)
            && self.impact_ticks_remaining == 0;
        if impact {
            self.impact_ticks_remaining = IMPACT_DURATION_TICKS;
        }
        if self.impact_ticks_remaining > 0 {
            self.impact_ticks_remaining = self.impact_ticks_remaining - 1;
        }
        if clamp {
            self.active = true;
        } else if ground.is_none() || down.less_than(release) {
            self.active = false;
        }
        ContactReport { clamp, impact }
    }

    /// What the accelerometer reports.
    pub fn accel_source(&self) -> (r: AccelSource)
        ensures
            r == accel_reported(*self),
    {
        if self.impact_ticks_remaining > 0 {
            AccelSource::Impact
        } else if self.active {
            AccelSource::Ground
        } else {
            AccelSource::Flight
        }
    }
}

/// A speed of descent on the ground: none. A climb goes on.
pub open spec fn descent_stopped(descent: Real64) -> Real64 {
    if (Real64 { bits: 0 }).lt(descent) {
        Real64 { bits: 0 }
    } else {
        descent
    }
}

/// A speed of descent on the ground: none. A climb goes on.
pub fn stopped_descent(descent: Real64) -> (r: Real64)
    ensures
        r == descent_stopped(descent),
{
    if Real64::from_bits(0).less_than(descent) {
        Real64::from_bits(0)
    } else {
        descent
    }
}

/// How a vehicle moves, as far as the ground has a say in it. Heights and
/// speeds of descent point down.
#[derive(Clone, Copy, Debug, PartialEq, Eq, Structural)]
pub struct BodyMotion {
    /// Position below the origin.
    pub down: Real64,
    /// Speed north.
    pub north_speed: Real64,
    /// Speed east.
    pub east_speed: Real64,
    /// Speed of descent.
    pub descent: Real64,
    /// Angular speed about the roll axis.
    pub roll_rate: Real64,
    /// Angular speed about the pitch axis.
    pub pitch_rate: Real64,
    /// Angular speed about the yaw axis.
    pub yaw_rate: Real64,
}

/// What friction leaves of the motion along the ground.
#[derive(Clone, Copy, Debug, PartialEq, Eq, Structural)]
pub struct Slide {
    /// Speed north.
    pub north_speed: Real64,
    /// Speed east.
    pub east_speed: Real64,
    /// Angular speed about the yaw axis.
    pub yaw_rate: Real64,
}

/// The motion of a vehicle after the ground had its say: on the ground it
/// stands at the height of the ground, no longer descends, rolls or pitches,
/// and slides as friction lets it; elsewhere it moves as before.
pub open spec fn touched_down(ground: Option<Real64>, m: BodyMotion, slide: Slide) -> BodyMotion {
    if on_ground(ground, m.down) {
        BodyMotion {
            down: ground->0,
            north_speed: slide.north_speed,
            east_speed: slide.east_speed,
            descent: descent_stopped(m.descent),
            roll_rate: Real64 { bits: 0 },
            pitch_rate: Real64 { bits: 0 },
            yaw_rate: slide.yaw_rate,
        }
    } else {
        m
    }
}

/// The motion of a vehicle after the ground had its say.
pub fn touch_down(ground: Option<Real64>, m: BodyMotion, slide: Slide) -> (r: BodyMotion)
    ensures
        r == touched_down(ground, m, slide),
{
    match ground {
        Some(g) => {
            if g.at_most(m.down) {
                BodyMotion {
                    down: g,
                    north_speed: slide.north_speed,
                    east_speed: slide.east_speed,
                    descent: stopped_descent(m.descent),
                    roll_rate: Real64::from_bits(0),
                    pitch_rate: Real64::from_bits(0),
                    yaw_rate: slide.yaw_rate,
                }
            } else {
                m
            }
        },
        None => m,
    }
}

/// Whether to warn about missing terrain: it is missing, and the last warning
/// was long enough ago.
pub fn warns_of_missing_terrain(ground_known: bool, last_warning_ms: u64, now_ms: u64) -> (r: bool)
    ensures
        r == warning_due(ground_known, last_warning_ms, now_ms),
{
    !ground_known && now_ms >= last_warning_ms && now_ms - last_warning_ms
        >= TERRAIN_MISS_WARN_INTERVAL_MS
}

/// Over ground whose height is not known the vehicle is never put onto it,
/// wherever it is.
pub proof fn law_unknown_ground_never_moves_the_vehicle(
    c: GroundContact,
    down: Real64,
    descent: Real64,
    release: Real64,
)
    ensures
        !contact_report(c, None, down, descent).clamp,
        !contact_report(c, None, down, descent).impact,
        !contact_after(c, None, down, descent, release).active,
        forall|m: BodyMotion, slide: Slide| #[trigger] touched_down(None, m, slide) == m,
{
}

/// A vehicle never sinks into ground whose height is known: after a tick it is
/// at that height or above it, and on the ground it no longer descends.
pub proof fn law_the_vehicle_never_sinks_into_the_ground(
    ground: Real64,
    m: BodyMotion,
    slide: Slide,
)
    requires
        !ground.nan(),
        !m.down.nan(),
    ensures
        touched_down(Some(ground), m, slide).down.le(ground),
        on_ground(Some(ground), m.down) ==> !(Real64 { bits: 0 }).lt(
            touched_down(Some(ground), m, slide).descent,
        ),
{
}

/// Contact, once made, holds until the vehicle is clearly airborne.
pub proof fn law_contact_holds_until_clearly_airborne(
    c: GroundContact,
    ground: Option<Real64>,
    down: Real64,
    descent: Real64,
    release: Real64,
)
    requires
        c.active,
        ground is Some,
        !down.lt(release),
    ensures
        contact_after(c, ground, down, descent, release).active,
{
}

/// An impact lasts a fixed time, and no second one begins within it.
pub proof fn law_impacts_do_not_overlap(
    c: GroundContact,
    ground: Option<Real64>,
    down: Real64,
    descent: Real64,
    release: Real64,
)
    requires
        c.impact_ticks_remaining > 0,
    ensures
        !contact_report(c, ground, down, descent).impact,
        contact_after(c, ground, down, descent, release).impact_ticks_remaining
            == c.impact_ticks_remaining - 1,
{
}

/// Touching the ground at more than half a metre a second is an impact, from
/// flight as from rest, unless one is still being felt: the accelerometer feels
/// it from this tick on, for forty ticks.
pub proof fn law_every_hard_touchdown_is_an_impact(
    c: GroundContact,
    ground: Real64,
    down: Real64,
    descent: Real64,
    release: Real64,
)
    requires
        ground.le(down),
        (Real64 { bits: 0x3fe0_0000_0000_0000 }).lt(descent),
        c.impact_ticks_remaining == 0,
    ensures
        contact_report(c, Some(ground), down, descent).clamp,
        contact_report(c, Some(ground), down, descent).impact,
        contact_after(c, Some(ground), down, descent, release).active,
        contact_after(c, Some(ground), down, descent, release).impact_ticks_remaining == 39,
        accel_reported(contact_after(c, Some(ground), down, descent, release)) is Impact,
{
}

/// A vehicle that was in the air in the last tick and now touches the ground
/// hard feels the impact, wherever it was before that and over whatever ground.
pub proof fn law_a_hard_landing_from_flight_is_felt(
    c: GroundContact,
    over: Option<Real64>,
    above: Real64,
    speed: Real64,
    ground: Real64,
    down: Real64,
    descent: Real64,
    release: Real64,
)
    requires
        c.impact_ticks_remaining <= 1,
        over matches Some(g) ==> above.lt(g) && above.lt(release),
        ground.le(down),
        (Real64 { bits: 0x3fe0_0000_0000_0000 }).lt(descent),
    ensures
        ({
            let flying = contact_after(c, over, above, speed, release);
            &&& accel_reported(flying) is Flight
            &&& contact_report(flying, Some(ground), down, descent).impact
            &&& accel_reported(
                contact_after(flying, Some(ground), down, descent, release),
            ) is Impact
        }),
{
}

/// Nothing else is an impact: there has to be ground, the vehicle has to be on
/// it, and it has to come down at more than half a metre a second.
pub proof fn law_only_a_hard_touchdown_is_an_impact(
    c: GroundContact,
    ground: Option<Real64>,
    down: Real64,
    descent: Real64,
)
    requires
        contact_report(c, ground, down, descent).impact,
    ensures
        contact_report(c, ground, down, descent).clamp,
        ground matches Some(g) && g.le(down),
        (Real64 { bits: 0x3fe0_0000_0000_0000 }).lt(descent),
        c.impact_ticks_remaining == 0,
{
}

/// A vehicle is put onto the ground exactly when it is not above it, whatever
/// it did before and however fast it moves.
pub proof fn law_a_vehicle_is_clamped_exactly_at_or_below_the_ground(
    c: GroundContact,
    ground: Real64,
    down: Real64,
    descent: Real64,
)
    requires
        !ground.nan(),
        !down.nan(),
    ensures
        contact_report(c, Some(ground), down, descent).clamp <==> !down.lt(ground),
        contact_report(c, None, down, descent).clamp == false,
{
}

/// The ticks of an impact run down by one a tick, whatever the vehicle does;
/// without an impact there are none.
pub proof fn law_the_ticks_of_an_impact_run_down(
    c: GroundContact,
    ground: Option<Real64>,
    down: Real64,
    descent: Real64,
    release: Real64,
)
    requires
        !contact_report(c, ground, down, descent).impact,
    ensures
        c.impact_ticks_remaining == 0 ==> contact_after(
            c,
            ground,
            down,
            descent,
            release,
        ).impact_ticks_remaining == 0,
        c.impact_ticks_remaining > 0 ==> contact_after(
            c,
            ground,
            down,
            descent,
            release,
        ).impact_ticks_remaining == c.impact_ticks_remaining - 1,
{
}

/// Where the vehicle ends up decides about contact: on the ground there is, in
/// clear air or over unknown ground there is none, and in between it stays as
/// it was.
pub proof fn law_contact_follows_the_vehicle(
    c: GroundContact,
    ground: Option<Real64>,
    down: Real64,
    descent: Real64,
    release: Real64,
)
    requires
        ground matches Some(g) ==> !g.nan(),
        !down.nan(),
        !release.nan(),
    ensures
        ({
            let after = contact_after(c, ground, down, descent, release).active;
            match ground {
                None => !after,
                Some(g) => {
                    &&& g.le(down) ==> after
                    &&& down.lt(g) && down.lt(release) ==> !after
                    &&& down.lt(g) && release.le(down) ==> after == c.active
                },
            }
        }),
{
}

/// The accelerometer reports the impact while there is one, rest for as long as
/// there is contact, and the forces of flight otherwise.
pub proof fn law_what_the_accelerometer_reports(c: GroundContact)
    ensures
        accel_reported(c) is Impact <==> c.impact_ticks_remaining != 0,
        c.impact_ticks_remaining == 0 ==> (accel_reported(c) is Ground <==> c.active),
        c.impact_ticks_remaining == 0 ==> (accel_reported(c) is Flight <==> !c.active),
{
}

/// On the ground a vehicle stands at the height of the ground, neither descends
/// nor rolls nor pitches, and keeps of its slide and its spin what friction
/// leaves; a climb away from the ground is left to it.
pub proof fn law_what_the_ground_does_to_a_vehicle(ground: Real64, m: BodyMotion, slide: Slide)
    requires
        ground.le(m.down),
    ensures
        ({
            let after = touched_down(Some(ground), m, slide);
            &&& after.down == ground
            &&& after.north_speed == slide.north_speed
            &&& after.east_speed == slide.east_speed
            &&& after.yaw_rate == slide.yaw_rate
            &&& after.roll_rate.bits == 0
            &&& after.pitch_rate.bits == 0
            &&& (Real64 { bits: 0 }).lt(m.descent) ==> after.descent.bits == 0
            &&& !(Real64 { bits: 0 }).lt(m.descent) ==> after.descent == m.descent
        }),
{
}

/// Above the ground it has no say.
pub proof fn law_the_ground_leaves_a_flying_vehicle_alone(
    ground: Real64,
    m: BodyMotion,
    slide: Slide,
)
    requires
        m.down.lt(ground),
    ensures
        touched_down(Some(ground), m, slide) == m,
{
}

/// Whether to warn about missing terrain.
pub open spec fn warning_due(ground_known: bool, last_warning_ms: u64, now_ms: u64) -> bool {
    !ground_known && now_ms - last_warning_ms >= TERRAIN_MISS_WARN_INTERVAL_MS
}

/// Missing terrain is warned about every five seconds, and terrain that is there
/// never is.
pub proof fn law_when_missing_terrain_is_warned_about(last_warning_ms: u64, now_ms: u64)
    ensures
        warning_due(false, last_warning_ms, now_ms) <==> now_ms >= last_warning_ms + 5000,
        !warning_due(true, last_warning_ms, now_ms),
{
}

} // verus!
