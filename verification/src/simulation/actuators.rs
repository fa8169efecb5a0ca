//! Applying actuator commands, and noticing when they stop.
use crate::daemon::LoopCounts;
use crate::flight::ActuatorOutputs;
use crate::ieee::Real32;
use crate::simulation::state;
use crate::simulation::state::{motors_off, SimulationState};
use vstd::prelude::*;

verus! {

/// Silence after which the flight controller counts as gone and the motors are
/// stopped.
pub const ACTUATOR_STALE_TIMEOUT_MS: u64 = 100;

/// Least time between warnings about it.
pub const STALE_WARN_INTERVAL_MS: u64 = 5000;

/// Bit pattern of 0.01: the least command that turns a motor.
pub const MOTOR_ACTIVE_THRESHOLD: u32 = 0x3c23_d70a;

/// Whether any motor turns.
pub open spec fn motors_active(commands: Seq<Real32>) -> bool {
    exists|i: int|
        0 <= i < commands.len() && (Real32 { bits: MOTOR_ACTIVE_THRESHOLD }).lt(
            #[trigger] commands[i],
        )
}

/// Whether any motor turns.
pub fn any_motor_active(commands: &[Real32; 4]) -> (r: bool)
    ensures
        r == motors_active(commands@),
{
    let least: Real32 = Real32::from_bits(MOTOR_ACTIVE_THRESHOLD);
    let a: bool = least.less_than(commands[0]);
    let b: bool = least.less_than(commands[1]);
    let c: bool = least.less_than(commands[2]);
    let d: bool = least.less_than(commands[3]);
    proof {
        let s = commands@;
        assert(s.len() == 4);
        if a {
            assert((Real32 { bits: MOTOR_ACTIVE_THRESHOLD }).lt(s[0]));
        }
        if b {
            assert((Real32 { bits: MOTOR_ACTIVE_THRESHOLD }).lt(s[1]));
        }
        if c {
            assert((Real32 { bits: MOTOR_ACTIVE_THRESHOLD }).lt(s[2]));
        }
        if d {
            assert((Real32 { bits: MOTOR_ACTIVE_THRESHOLD }).lt(s[3]));
        }
    }
    a || b || c || d
}

/// When commands last arrived, and when their absence was last complained of.
#[derive(Clone, Copy, Debug, PartialEq, Eq, Structural)]
pub struct ActuatorWatch {
    /// Last command.
    pub last_command_ms: u64,
    /// Last warning.
    pub last_warning_ms: u64,
}

/// Whether the commands have stopped: a motor turns, and nothing was heard for
/// too long.
pub open spec fn commands_stopped(w: ActuatorWatch, motors: Seq<Real32>, now_ms: u64) -> bool {
    motors_active(motors) && now_ms - w.last_command_ms > ACTUATOR_STALE_TIMEOUT_MS
}

/// Whether to warn that the commands have stopped.
pub open spec fn warns(w: ActuatorWatch, motors: Seq<Real32>, now_ms: u64) -> bool {
    commands_stopped(w, motors, now_ms) && now_ms - w.last_warning_ms >= STALE_WARN_INTERVAL_MS
}

/// What became of the commands of a tick.
pub ghost struct Actuated {
    pub watch: ActuatorWatch,
    pub sim: state::SimModel,
    pub warn: bool,
}

/// What becomes of the commands that arrived since the last tick: the latest is
/// applied, and without any the motors are stopped once the commands have.
pub open spec fn actuated(
    w: ActuatorWatch,
    sim: state::SimModel,
    arrived: Seq<ActuatorOutputs>,
    now_ms: u64,
) -> Actuated {
    if arrived.len() > 0 {
        Actuated {
            watch: ActuatorWatch { last_command_ms: now_ms, ..w },
            sim: state::SimModel {
                motor_commands: arrived.last().motors@,
                armed: !(arrived.last().mode is Disarmed),
                ..sim
            },
            warn: false,
        }
    } else {
        let warn = warns(w, sim.motor_commands, now_ms);
        Actuated {
            watch: if warn {
                ActuatorWatch { last_warning_ms: now_ms, ..w }
            } else {
                w
            },
            sim: if commands_stopped(w, sim.motor_commands, now_ms) {
                state::SimModel { motor_commands: state::idle_motors(), armed: false, ..sim }
            } else {
                sim
            },
            warn,
        }
    }
}

impl ActuatorWatch {
    /// Start watching.
    pub fn new(now_ms: u64) -> (r: ActuatorWatch)
        ensures
            r == (ActuatorWatch { last_command_ms: now_ms, last_warning_ms: now_ms }),
    {
        ActuatorWatch { last_command_ms: now_ms, last_warning_ms: now_ms }
    }

    /// Apply the commands that arrived since the last tick; only the latest
    /// counts. Without any, stop the motors if the flight controller is gone.
    /// True when that is worth a warning.
    pub fn process(
        &mut self,
        sim: &mut SimulationState,
        counts: &mut LoopCounts,
        arrived: &Vec<ActuatorOutputs>,
        now_ms: u64,
    ) -> (r: bool)
        requires
            old(counts).actuator_count + arrived@.len() <= u64::MAX,
        ensures
            *final(counts) == (LoopCounts {
                actuator_count: (old(counts).actuator_count + arrived@.len()) as u64,
                ..*old(counts)
            }),
            ({
                let after = actuated(*old(self), old(sim)@, arrived@, now_ms);
                &&& *final(self) == after.watch
                &&& final(sim)@ == after.sim
                &&& r == after.warn
            }),
    {
        counts.actuator_count = counts.actuator_count + arrived.len() as u64;
        if arrived.len() > 0 {
            let latest: &ActuatorOutputs = &arrived[arrived.len() - 1];
            self.last_command_ms = now_ms;
            sim.set_motor_commands(latest.motors);
            sim.set_armed(latest.is_armed());
            return false;
        }
        let commands: [Real32; 4] = sim.motor_commands();
        if any_motor_active(&commands) && now_ms > self.last_command_ms && now_ms
            - self.last_command_ms > ACTUATOR_STALE_TIMEOUT_MS {
            sim.set_motor_commands(motors_off());
            sim.set_armed(false);
            if now_ms >= self.last_warning_ms && now_ms - self.last_warning_ms
                >= STALE_WARN_INTERVAL_MS {
                self.last_warning_ms = now_ms;
                return true;
            }
        }
        false
    }
}

/// The latest command is the one that turns the motors, whatever came before it,
/// and arms or disarms the vehicle; nothing else of the flight changes.
pub proof fn law_the_latest_command_counts(
    w: ActuatorWatch,
    sim: state::SimModel,
    earlier: Seq<ActuatorOutputs>,
    latest: ActuatorOutputs,
    now_ms: u64,
)
    ensures
        ({
            let after = actuated(w, sim, earlier.push(latest), now_ms);
            &&& after.sim.motor_commands == latest.motors@
            &&& after.sim.armed <==> latest.mode is Armed || latest.mode is HilArmed
            &&& after.sim == (state::SimModel {
                motor_commands: latest.motors@,
                armed: after.sim.armed,
                ..sim
            })
            &&& after.watch.last_command_ms == now_ms
            &&& after.watch.last_warning_ms == w.last_warning_ms
            &&& !after.warn
        }),
{
}

/// Motors that turn without a command for more than a tenth of a second are
/// stopped and disarmed; up to then, and while none turns, nothing is changed.
pub proof fn law_motors_stop_when_commands_do(w: ActuatorWatch, sim: state::SimModel, now_ms: u64)
    ensures
        ({
            let after = actuated(w, sim, Seq::empty(), now_ms);
            let turning = exists|i: int|
                0 <= i < sim.motor_commands.len() && (Real32 { bits: 0x3c23_d70a }).lt(
                    #[trigger] sim.motor_commands[i],
                );
            let silent = now_ms - w.last_command_ms > 100;
            &&& turning && silent ==> after.sim.motor_commands.len() == 4 && (forall|i: int|
                0 <= i < 4 ==> (#[trigger] after.sim.motor_commands[i]).bits == 0)
                && !after.sim.armed
            &&& !(turning && silent) ==> after.sim == sim
            &&& after.sim.sim_time_us == sim.sim_time_us
            &&& after.sim.running == sim.running
            &&& after.sim.flight_mode == sim.flight_mode
            &&& after.sim.landed_state == sim.landed_state
            &&& after.sim.heartbeat_count == sim.heartbeat_count
            &&& after.watch.last_command_ms == w.last_command_ms
            &&& after.warn <==> turning && silent && now_ms - w.last_warning_ms >= 5000
            &&& after.warn ==> after.watch.last_warning_ms == now_ms
            &&& !after.warn ==> after.watch == w
        }),
{
}

/// A motor turns from one hundredth of full throttle on, and one is enough.
pub proof fn law_one_motor_is_enough(commands: Seq<Real32>, i: int)
    requires
        0 <= i < commands.len(),
    ensures
        (Real32 { bits: 0x3c23_d70a }).lt(commands[i]) ==> motors_active(commands),
        motors_active(commands) ==> exists|k: int|
            0 <= k < commands.len() && (Real32 { bits: 0x3c23_d70a }).lt(#[trigger] commands[k]),
        !motors_active(state::idle_motors()),
{
}

} // verus!
