//! Pushing a build's gains to the autopilot.
//!
//! Every parameter is confirmed before the next, and nothing is remembered as
//! pushed until all are. A push that would repeat the last one is skipped, to
//! spare the flash. A push that is begun forgets the last one, because the board
//! may come to hold a part of each; so does a reconnect, because the board's
//! memory is gone.
use crate::exchange;
use crate::exchange::{
    link_closed_message, unconfirmed_message, ParamPush, ParamWrite, PushStep, WriteEvent,
};
use crate::ieee::Real32;
use crate::param_io;
use crate::param_io::{make_param_save, CommandLong};
use crate::protocol::config::{ConfigResult, ConfigState, Px4PidsView};
use vstd::prelude::*;

verus! {

/// Bit pattern of 1.0: the thrust curve is inverted in full.
pub const THRUST_MODEL_FACTOR: u32 = 0x3f80_0000;

/// Gains and thrust parameters of a build.
#[derive(Clone, Copy, Debug, PartialEq, Eq, Structural)]
pub struct PidParams {
    /// Rate-controller gains.
    pub pids: Px4PidsView,
    /// Hover throttle.
    pub hover_cmd: Real32,
    /// Lowest throttle the altitude controller may command.
    pub thr_min: Real32,
    /// Whether the build can hover at all. Kept so that a push after a
    /// reconnect decides about the hover throttle as the first one did.
    pub can_hover: bool,
}

/// A write of a number.
pub open spec fn gain(name: Seq<char>, value: Real32) -> exchange::WriteModel {
    exchange::WriteModel { name, value: exchange::WriteValue::Number(value) }
}

/// The writes of a push, in order. A build that cannot hover has no hover
/// throttle to report, and none is pushed.
pub open spec fn gains(p: PidParams) -> Seq<exchange::WriteModel> {
    let zero = Real32 { bits: 0 };
    let always = seq![
        gain("MC_ROLLRATE_P"@, p.pids.roll_p),
        gain("MC_ROLLRATE_I"@, p.pids.roll_i),
        gain("MC_ROLLRATE_D"@, p.pids.roll_d),
        gain("MC_ROLLRATE_FF"@, p.pids.roll_ff),
        gain("MC_PITCHRATE_P"@, p.pids.pitch_p),
        gain("MC_PITCHRATE_I"@, p.pids.pitch_i),
        gain("MC_PITCHRATE_D"@, p.pids.pitch_d),
        gain("MC_PITCHRATE_FF"@, p.pids.pitch_ff),
        gain("MC_YAWRATE_P"@, p.pids.yaw_p),
        gain("MC_YAWRATE_I"@, p.pids.yaw_i),
        gain("MC_YAWRATE_D"@, p.pids.yaw_d),
        gain("MC_YAWRATE_FF"@, p.pids.yaw_ff),
        gain("THR_MDL_FAC"@, Real32 { bits: THRUST_MODEL_FACTOR }),
        gain("MPC_THR_MIN"@, p.thr_min),
        gain("CAL_ACC0_XOFF"@, zero),
        gain("CAL_ACC0_YOFF"@, zero),
        gain("CAL_ACC0_ZOFF"@, zero),
        gain("CAL_GYRO0_XOFF"@, zero),
        gain("CAL_GYRO0_YOFF"@, zero),
        gain("CAL_GYRO0_ZOFF"@, zero),
    ];
    if p.can_hover {
        always.push(gain("MPC_THR_HOVER"@, p.hover_cmd))
    } else {
        always
    }
}

/// Number of parameters of a push.
pub open spec fn gain_count(p: PidParams) -> nat {
    if p.can_hover {
        21
    } else {
        20
    }
}

/// The writes of a push.
pub fn gain_writes(p: &PidParams) -> (r: Vec<ParamWrite>)
    ensures
        exchange::write_models(r@) == gains(*p),
        r@.len() == gain_count(*p),
{
    let zero: Real32 = Real32::from_bits(0);
    let mut w: Vec<ParamWrite> = Vec::new();
    w.push(ParamWrite::number("MC_ROLLRATE_P", p.pids.roll_p));
    w.push(ParamWrite::number("MC_ROLLRATE_I", p.pids.roll_i));
    w.push(ParamWrite::number("MC_ROLLRATE_D", p.pids.roll_d));
    w.push(ParamWrite::number("MC_ROLLRATE_FF", p.pids.roll_ff));
    w.push(ParamWrite::number("MC_PITCHRATE_P", p.pids.pitch_p));
    w.push(ParamWrite::number("MC_PITCHRATE_I", p.pids.pitch_i));
    w.push(ParamWrite::number("MC_PITCHRATE_D", p.pids.pitch_d));
    w.push(ParamWrite::number("MC_PITCHRATE_FF", p.pids.pitch_ff));
    w.push(ParamWrite::number("MC_YAWRATE_P", p.pids.yaw_p));
    w.push(ParamWrite::number("MC_YAWRATE_I", p.pids.yaw_i));
    w.push(ParamWrite::number("MC_YAWRATE_D", p.pids.yaw_d));
    w.push(ParamWrite::number("MC_YAWRATE_FF", p.pids.yaw_ff));
    w.push(ParamWrite::number("THR_MDL_FAC", Real32::from_bits(THRUST_MODEL_FACTOR)));
    w.push(ParamWrite::number("MPC_THR_MIN", p.thr_min));
    w.push(ParamWrite::number("CAL_ACC0_XOFF", zero));
    w.push(ParamWrite::number("CAL_ACC0_YOFF", zero));
    w.push(ParamWrite::number("CAL_ACC0_ZOFF", zero));
    w.push(ParamWrite::number("CAL_GYRO0_XOFF", zero));
    w.push(ParamWrite::number("CAL_GYRO0_YOFF", zero));
    w.push(ParamWrite::number("CAL_GYRO0_ZOFF", zero));
    if p.can_hover {
        w.push(ParamWrite::number("MPC_THR_HOVER", p.hover_cmd));
    }
    assert(exchange::write_models(w@) =~= gains(*p));
    w
}

/// The fingerprint of a push: that of the gains, mixed with both throttles, so
/// that a change of thrust-to-weight ratio forces a push even when the gains
/// are the same.
pub open spec fn mixed_fingerprint(pid_fingerprint: u64, p: PidParams) -> u64 {
    pid_fingerprint ^ ((p.hover_cmd.bits as u64) << 32) ^ ((p.thr_min.bits as u64) << 16)
}

/// The fingerprint of a push, given that of its gains.
pub fn push_fingerprint(pid_fingerprint: u64, p: &PidParams) -> (r: u64)
    ensures
        r == mixed_fingerprint(pid_fingerprint, *p),
{
    pid_fingerprint ^ ((p.hover_cmd.bits as u64) << 32) ^ ((p.thr_min.bits as u64) << 16)
}

/// What was last pushed.
#[derive(Clone, Copy, Debug, PartialEq, Eq, Structural)]
pub struct PidCache {
    /// Whether there is an autopilot to push to.
    pub linked: bool,
    /// Fingerprint of the last push that was confirmed in full.
    pub last_fingerprint: Option<u64>,
    /// Its parameters, kept for a push after a reconnect.
    pub last_verified: Option<PidParams>,
}

/// What a push that was confirmed in full comes to.
#[derive(Clone, Copy, Debug)]
pub struct PushVerified {
    /// The gains that were applied.
    pub pids: Px4PidsView,
    /// Number of parameters confirmed.
    pub verified: u32,
    /// The command that saves them, to be sent next.
    pub save: CommandLong,
}

/// A push under way.
#[derive(Debug)]
pub struct PidPush {
    params: PidParams,
    fingerprint: u64,
    push: ParamPush,
}

/// A push under way.
pub ghost struct PidPushModel {
    pub params: PidParams,
    pub fingerprint: u64,
    pub push: exchange::PushModel,
}

impl View for PidPush {
    type V = PidPushModel;

    closed spec fn view(&self) -> PidPushModel {
        PidPushModel { params: self.params, fingerprint: self.fingerprint, push: self.push@ }
    }
}

/// What holds of every push: it pushes its own parameters.
pub open spec fn pid_push_invariant(m: PidPushModel) -> bool {
    &&& exchange::push_invariant(m.push)
    &&& m.push.writes == gains(m.params)
}

/// A cache that has forgotten the last push.
pub open spec fn forgotten(c: PidCache) -> PidCache {
    PidCache { last_fingerprint: None, ..c }
}

/// Whether these are the parameters to push again, and the cache after that was
/// found out.
pub open spec fn repushes(before: PidCache, after: PidCache, r: Option<PidParams>) -> bool {
    &&& r == before.last_verified
    &&& r is None ==> after == before
    &&& r is Some ==> after == forgotten(before)
}

impl PidCache {
    /// Nothing pushed yet.
    pub fn new(linked: bool) -> (r: PidCache)
        ensures
            r == (PidCache { linked, last_fingerprint: None, last_verified: None }),
    {
        PidCache { linked, last_fingerprint: None, last_verified: None }
    }

    /// Whether a push would be skipped: there is no autopilot, or it would
    /// repeat the last one.
    pub open spec fn skips(self, fingerprint: u64) -> bool {
        !self.linked || self.last_fingerprint == Some(fingerprint)
    }

    /// The cache once a push has begun: from its first write on, the board may
    /// hold a part of it, so nothing counts as pushed until it is confirmed in
    /// full.
    pub open spec fn begun(self) -> PidCache {
        PidCache { last_fingerprint: None, ..self }
    }

    /// The cache once a push was confirmed in full.
    pub open spec fn completed(self, m: PidPushModel) -> PidCache {
        PidCache {
            last_fingerprint: Some(m.fingerprint),
            last_verified: Some(m.params),
            ..self
        }
    }

    /// Start a push, unless it is skipped. The last push is forgotten with it:
    /// a push that fails half way has already overwritten some of it.
    pub fn begin_push(&mut self, params: PidParams, pid_fingerprint: u64) -> (r: Option<PidPush>)
        ensures
            r is None <==> old(self).skips(mixed_fingerprint(pid_fingerprint, params)),
            r is None ==> *final(self) == *old(self),
            r is Some ==> *final(self) == old(self).begun(),
            r is Some ==> final(self).last_fingerprint is None,
            r matches Some(push) ==> push@ == (PidPushModel {
                params,
                fingerprint: mixed_fingerprint(pid_fingerprint, params),
                push: exchange::push_begun(gains(params)),
            }) && pid_push_invariant(push@),
    {
        if !self.linked {
            return None;
        }
        let fingerprint: u64 = push_fingerprint(pid_fingerprint, &params);
        if let Some(last) = self.last_fingerprint {
            if last == fingerprint {
                return None;
            }
        }
        self.last_fingerprint = None;
        Some(PidPush { params, fingerprint, push: ParamPush::start(gain_writes(&params)) })
    }

    /// Remember a push that was confirmed in full, and have it saved: a write
    /// alone does not survive a reboot of the board.
    pub fn complete(&mut self, push: &PidPush) -> (r: PushVerified)
        requires
            pid_push_invariant(push@),
            exchange::push_step(push@.push) is Done,
        ensures
            *final(self) == old(self).completed(push@),
            r.pids == push@.params.pids,
            r.verified == gain_count(push@.params),
            param_io::saves_params(r.save),
    {
        self.last_fingerprint = Some(push.fingerprint);
        self.last_verified = Some(push.params);
        PushVerified {
            pids: push.params.pids,
            verified: if push.params.can_hover {
                21
            } else {
                20
            },
            save: make_param_save(),
        }
    }

    /// Forget the last push: the board's memory is gone, and a push that looks
    /// like the last one must not be skipped.
    pub fn invalidate_pid_fingerprint(&mut self)
        ensures
            *final(self) == forgotten(*old(self)),
    {
        self.last_fingerprint = None;
    }

    /// The parameters to push again after a reconnect, if any were ever pushed.
    /// The last push is forgotten first.
    pub fn begin_repush(&mut self) -> (r: Option<PidParams>)
        ensures
            repushes(*old(self), *final(self), r),
    {
        if self.last_verified.is_some() {
            self.invalidate_pid_fingerprint();
        }
        self.last_verified
    }
}

impl PidPush {
    /// What the push asks for next.
    pub fn step(&self) -> (r: PushStep)
        ensures
            r == exchange::push_step(self@.push),
    {
        self.push.step()
    }

    /// The write at an index of the list.
    pub fn write_at(&self, index: usize) -> (r: &ParamWrite)
        requires
            pid_push_invariant(self@),
            index < gain_count(self@.params),
        ensures
            r@ == gains(self@.params)[index as int],
    {
        self.push.write_at(index)
    }

    /// Take note of an event.
    pub fn on_event(&mut self, e: &WriteEvent)
        requires
            pid_push_invariant(old(self)@),
        ensures
            final(self)@ == (PidPushModel {
                push: exchange::push_advanced(old(self)@.push, *e),
                ..old(self)@
            }),
            pid_push_invariant(final(self)@),
    {
        self.push.on_event(e);
    }

    /// Why the push failed, if it did.
    pub fn failure(&self) -> (r: Option<String>)
        requires
            pid_push_invariant(self@),
        ensures
            (match r {
                Some(m) => Some(m@),
                None => None,
            }) == push_failure(self@),
    {
        match self.push.step() {
            PushStep::LinkClosed(i) => Some(
                link_closed_message(self.push.write_at(i).name.as_str()),
            ),
            PushStep::Unconfirmed(i) => Some(
                unconfirmed_message(self.push.write_at(i).name.as_str()),
            ),
            _ => None,
        }
    }
}

/// Why a push failed, if it did.
pub open spec fn push_failure(m: PidPushModel) -> Option<Seq<char>> {
    match exchange::push_step(m.push) {
        PushStep::LinkClosed(i) => Some(
            exchange::link_closed_text(m.push.writes[i as int].name),
        ),
        PushStep::Unconfirmed(i) => Some(
            exchange::unconfirmed_text(m.push.writes[i as int].name),
        ),
        _ => None,
    }
}

/// A report that the daemon makes of its own accord, without a build.
pub open spec fn plain_report(r: ConfigResult, state: ConfigState, error: Option<Seq<char>>) -> bool {
    &&& r.state == state
    &&& r.success == (error is None)
    &&& (match r.error {
        Some(e) => Some(e@),
        None => None,
    }) == error
    &&& r.config is None
    &&& r.stage is None
}

/// Whether this is the report of how a push after a reconnect ended.
pub open spec fn reports_repush(r: ConfigResult, failure: Option<Seq<char>>) -> bool {
    match failure {
        None => plain_report(r, ConfigState::Ready, None),
        Some(e) => plain_report(
            r,
            ConfigState::Error,
            Some("PID re-push after reconnect failed: "@ + e),
        ),
    }
}

/// The report that a push after a reconnect has begun.
pub fn repush_begun() -> (r: ConfigResult)
    ensures
        plain_report(r, ConfigState::Configuring, None),
{
    ConfigResult {
        state: ConfigState::Configuring,
        success: true,
        error: None,
        config: None,
        stage: None,
    }
}

/// The report of how a push after a reconnect ended. A failure must be visible:
/// the user would otherwise fly another tuning than the one on screen.
pub fn repush_ended(failure: Option<&str>) -> (r: ConfigResult)
    ensures
        reports_repush(
            r,
            match failure {
                Some(e) => Some(e@),
                None => None,
            },
        ),
{
    match failure {
        None => ConfigResult {
            state: ConfigState::Ready,
            success: true,
            error: None,
            config: None,
            stage: None,
        },
        Some(e) => {
            let mut out: String = "PID re-push after reconnect failed: ".to_owned();
            out.append(e);
            ConfigResult {
                state: ConfigState::Error,
                success: false,
                error: Some(out),
                config: None,
                stage: None,
            }
        },
    }
}

/// A build that cannot hover is never told a hover throttle.
pub proof fn law_no_hover_throttle_for_a_build_that_cannot_hover(p: PidParams, i: int)
    requires
        !p.can_hover,
        0 <= i < gains(p).len(),
    ensures
        gains(p)[i].name != "MPC_THR_HOVER"@,
{
    reveal_strlit("MPC_THR_HOVER");
    reveal_strlit("MC_ROLLRATE_P");
    reveal_strlit("MC_ROLLRATE_I");
    reveal_strlit("MC_ROLLRATE_D");
    reveal_strlit("MC_ROLLRATE_FF");
    reveal_strlit("MC_PITCHRATE_P");
    reveal_strlit("MC_PITCHRATE_I");
    reveal_strlit("MC_PITCHRATE_D");
    reveal_strlit("MC_PITCHRATE_FF");
    reveal_strlit("MC_YAWRATE_P");
    reveal_strlit("MC_YAWRATE_I");
    reveal_strlit("MC_YAWRATE_D");
    reveal_strlit("MC_YAWRATE_FF");
    reveal_strlit("THR_MDL_FAC");
    reveal_strlit("MPC_THR_MIN");
    reveal_strlit("CAL_ACC0_XOFF");
    reveal_strlit("CAL_ACC0_YOFF");
    reveal_strlit("CAL_ACC0_ZOFF");
    reveal_strlit("CAL_GYRO0_XOFF");
    reveal_strlit("CAL_GYRO0_YOFF");
    reveal_strlit("CAL_GYRO0_ZOFF");
    let name = gains(p)[i].name;
    assert("MPC_THR_HOVER"@[0] == 'M');
    assert("MPC_THR_HOVER"@[1] == 'P');
    assert("MPC_THR_HOVER"@[8] == 'H');
    assert(name[0] != 'M' || name[1] != 'P' || name[8] != 'H');
}

/// A change of the hover throttle alone changes the fingerprint, so the push is
/// not skipped.
pub proof fn law_a_change_of_hover_throttle_is_pushed(
    pid_fingerprint: u64,
    p: PidParams,
    hover_cmd: Real32,
)
    requires
        hover_cmd != p.hover_cmd,
    ensures
        mixed_fingerprint(pid_fingerprint, p) != mixed_fingerprint(
            pid_fingerprint,
            PidParams { hover_cmd, ..p },
        ),
{
    let a = p.hover_cmd.bits;
    let b = hover_cmd.bits;
    let t = p.thr_min.bits;
    assert(a != b ==> pid_fingerprint ^ ((a as u64) << 32) ^ ((t as u64) << 16) != pid_fingerprint
        ^ ((b as u64) << 32) ^ ((t as u64) << 16)) by (bit_vector);
}

/// After a reconnect the very next push goes out, whatever was pushed before.
pub proof fn law_nothing_is_skipped_after_a_reconnect(c: PidCache, fingerprint: u64)
    requires
        c.linked,
    ensures
        !(PidCache { last_fingerprint: None, ..c }).skips(fingerprint),
{
}

/// A push that was confirmed in full makes the same push unnecessary.
pub proof fn law_a_repeated_push_is_skipped(c: PidCache, m: PidPushModel)
    ensures
        c.completed(m).skips(m.fingerprint),
{
}

/// A push that was begun and not confirmed in full leaves the board with a part
/// of it. Whatever is pushed next goes out: the build that was confirmed before
/// it, and the one that failed, too.
pub proof fn law_nothing_is_skipped_after_an_unfinished_push(
    c: PidCache,
    confirmed: PidPushModel,
    unfinished: u64,
    next: u64,
)
    requires
        c.linked,
        !c.completed(confirmed).skips(unfinished),
    ensures
        !c.completed(confirmed).begun().skips(next),
        !c.completed(confirmed).begun().skips(confirmed.fingerprint),
        !c.completed(confirmed).begun().skips(unfinished),
{
}

proof fn lemma_names_differ()
    ensures
        "MC_ROLLRATE_P"@.len() == 13,
        "MC_ROLLRATE_P"@[3] == 'R',
        "MC_ROLLRATE_P"@[12] == 'P',
        "MC_ROLLRATE_I"@.len() == 13,
        "MC_ROLLRATE_I"@[3] == 'R',
        "MC_ROLLRATE_I"@[12] == 'I',
        "MC_ROLLRATE_D"@.len() == 13,
        "MC_ROLLRATE_D"@[3] == 'R',
        "MC_ROLLRATE_D"@[12] == 'D',
        "MC_ROLLRATE_FF"@.len() == 14,
        "MC_ROLLRATE_FF"@[3] == 'R',
        "MC_ROLLRATE_FF"@[13] == 'F',
        "MC_PITCHRATE_P"@.len() == 14,
        "MC_PITCHRATE_P"@[3] == 'P',
        "MC_PITCHRATE_P"@[13] == 'P',
        "MC_PITCHRATE_I"@.len() == 14,
        "MC_PITCHRATE_I"@[3] == 'P',
        "MC_PITCHRATE_I"@[13] == 'I',
        "MC_PITCHRATE_D"@.len() == 14,
        "MC_PITCHRATE_D"@[3] == 'P',
        "MC_PITCHRATE_D"@[13] == 'D',
        "MC_PITCHRATE_FF"@.len() == 15,
        "MC_PITCHRATE_FF"@[3] == 'P',
        "MC_PITCHRATE_FF"@[14] == 'F',
        "MC_YAWRATE_P"@.len() == 12,
        "MC_YAWRATE_P"@[3] == 'Y',
        "MC_YAWRATE_P"@[11] == 'P',
        "MC_YAWRATE_I"@.len() == 12,
        "MC_YAWRATE_I"@[3] == 'Y',
        "MC_YAWRATE_I"@[11] == 'I',
        "MC_YAWRATE_D"@.len() == 12,
        "MC_YAWRATE_D"@[3] == 'Y',
        "MC_YAWRATE_D"@[11] == 'D',
        "MC_YAWRATE_FF"@.len() == 13,
        "MC_YAWRATE_FF"@[3] == 'Y',
        "MC_YAWRATE_FF"@[12] == 'F',
        "THR_MDL_FAC"@.len() == 11,
        "THR_MDL_FAC"@[0] == 'T',
        "THR_MDL_FAC"@[3] == '_',
        "THR_MDL_FAC"@[4] == 'M',
        "THR_MDL_FAC"@[8] == 'F',
        "THR_MDL_FAC"@[9] == 'A',
        "THR_MDL_FAC"@[10] == 'C',
        "MPC_THR_MIN"@.len() == 11,
        "MPC_THR_MIN"@[0] == 'M',
        "MPC_THR_MIN"@[3] == '_',
        "MPC_THR_MIN"@[4] == 'T',
        "MPC_THR_MIN"@[8] == 'M',
        "MPC_THR_MIN"@[9] == 'I',
        "MPC_THR_MIN"@[10] == 'N',
        "CAL_ACC0_XOFF"@.len() == 13,
        "CAL_ACC0_XOFF"@[0] == 'C',
        "CAL_ACC0_XOFF"@[3] == '_',
        "CAL_ACC0_XOFF"@[4] == 'A',
        "CAL_ACC0_XOFF"@[8] == '_',
        "CAL_ACC0_XOFF"@[9] == 'X',
        "CAL_ACC0_XOFF"@[10] == 'O',
        "CAL_ACC0_YOFF"@.len() == 13,
        "CAL_ACC0_YOFF"@[0] == 'C',
        "CAL_ACC0_YOFF"@[3] == '_',
        "CAL_ACC0_YOFF"@[4] == 'A',
        "CAL_ACC0_YOFF"@[8] == '_',
        "CAL_ACC0_YOFF"@[9] == 'Y',
        "CAL_ACC0_YOFF"@[10] == 'O',
        "CAL_ACC0_ZOFF"@.len() == 13,
        "CAL_ACC0_ZOFF"@[0] == 'C',
        "CAL_ACC0_ZOFF"@[3] == '_',
        "CAL_ACC0_ZOFF"@[4] == 'A',
        "CAL_ACC0_ZOFF"@[8] == '_',
        "CAL_ACC0_ZOFF"@[9] == 'Z',
        "CAL_ACC0_ZOFF"@[10] == 'O',
        "CAL_GYRO0_XOFF"@.len() == 14,
        "CAL_GYRO0_XOFF"@[0] == 'C',
        "CAL_GYRO0_XOFF"@[3] == '_',
        "CAL_GYRO0_XOFF"@[4] == 'G',
        "CAL_GYRO0_XOFF"@[8] == '0',
        "CAL_GYRO0_XOFF"@[9] == '_',
        "CAL_GYRO0_XOFF"@[10] == 'X',
        "CAL_GYRO0_YOFF"@.len() == 14,
        "CAL_GYRO0_YOFF"@[0] == 'C',
        "CAL_GYRO0_YOFF"@[3] == '_',
        "CAL_GYRO0_YOFF"@[4] == 'G',
        "CAL_GYRO0_YOFF"@[8] == '0',
        "CAL_GYRO0_YOFF"@[9] == '_',
        "CAL_GYRO0_YOFF"@[10] == 'Y',
        "CAL_GYRO0_ZOFF"@.len() == 14,
        "CAL_GYRO0_ZOFF"@[0] == 'C',
        "CAL_GYRO0_ZOFF"@[3] == '_',
        "CAL_GYRO0_ZOFF"@[4] == 'G',
        "CAL_GYRO0_ZOFF"@[8] == '0',
        "CAL_GYRO0_ZOFF"@[9] == '_',
        "CAL_GYRO0_ZOFF"@[10] == 'Z',
        "MPC_THR_HOVER"@.len() == 13,
        "MPC_THR_HOVER"@[0] == 'M',
        "MPC_THR_HOVER"@[3] == '_',
        "MPC_THR_HOVER"@[4] == 'T',
        "MPC_THR_HOVER"@[8] == 'H',
        "MPC_THR_HOVER"@[9] == 'O',
        "MPC_THR_HOVER"@[10] == 'V',
{
    reveal_strlit("MC_ROLLRATE_P");
    reveal_strlit("MC_ROLLRATE_I");
    reveal_strlit("MC_ROLLRATE_D");
    reveal_strlit("MC_ROLLRATE_FF");
    reveal_strlit("MC_PITCHRATE_P");
    reveal_strlit("MC_PITCHRATE_I");
    reveal_strlit("MC_PITCHRATE_D");
    reveal_strlit("MC_PITCHRATE_FF");
    reveal_strlit("MC_YAWRATE_P");
    reveal_strlit("MC_YAWRATE_I");
    reveal_strlit("MC_YAWRATE_D");
    reveal_strlit("MC_YAWRATE_FF");
    reveal_strlit("THR_MDL_FAC");
    reveal_strlit("MPC_THR_MIN");
    reveal_strlit("CAL_ACC0_XOFF");
    reveal_strlit("CAL_ACC0_YOFF");
    reveal_strlit("CAL_ACC0_ZOFF");
    reveal_strlit("CAL_GYRO0_XOFF");
    reveal_strlit("CAL_GYRO0_YOFF");
    reveal_strlit("CAL_GYRO0_ZOFF");
    reveal_strlit("MPC_THR_HOVER");
}

/// Each term of the roll rate controller goes to the parameter of that axis and that
/// term, and to no other.
pub proof fn law_each_roll_gain_goes_to_its_own_parameter(p: PidParams, i: int)
    requires
        0 <= i < gains(p).len(),
    ensures
        gains(p)[i].name == "MC_ROLLRATE_P"@ ==> gains(p)[i].value == exchange::WriteValue::Number(
            p.pids.roll_p,
        ),
        gains(p)[i].name == "MC_ROLLRATE_I"@ ==> gains(p)[i].value == exchange::WriteValue::Number(
            p.pids.roll_i,
        ),
        gains(p)[i].name == "MC_ROLLRATE_D"@ ==> gains(p)[i].value == exchange::WriteValue::Number(
            p.pids.roll_d,
        ),
        gains(p)[i].name == "MC_ROLLRATE_FF"@ ==> gains(p)[i].value == exchange::WriteValue::Number(
            p.pids.roll_ff,
        ),
        gains(p).contains(
            exchange::WriteModel {
                name: "MC_ROLLRATE_P"@,
                value: exchange::WriteValue::Number(p.pids.roll_p),
            },
        ),
        gains(p).contains(
            exchange::WriteModel {
                name: "MC_ROLLRATE_I"@,
                value: exchange::WriteValue::Number(p.pids.roll_i),
            },
        ),
        gains(p).contains(
            exchange::WriteModel {
                name: "MC_ROLLRATE_D"@,
                value: exchange::WriteValue::Number(p.pids.roll_d),
            },
        ),
        gains(p).contains(
            exchange::WriteModel {
                name: "MC_ROLLRATE_FF"@,
                value: exchange::WriteValue::Number(p.pids.roll_ff),
            },
        ),
{
    lemma_names_differ();
    assert(gains(p)[0].name == "MC_ROLLRATE_P"@);
    assert(gains(p)[1].name == "MC_ROLLRATE_I"@);
    assert(gains(p)[2].name == "MC_ROLLRATE_D"@);
    assert(gains(p)[3].name == "MC_ROLLRATE_FF"@);
}

/// Each term of the pitch rate controller goes to the parameter of that axis and that
/// term, and to no other.
pub proof fn law_each_pitch_gain_goes_to_its_own_parameter(p: PidParams, i: int)
    requires
        0 <= i < gains(p).len(),
    ensures
        gains(p)[i].name == "MC_PITCHRATE_P"@ ==> gains(p)[i].value == exchange::WriteValue::Number(
            p.pids.pitch_p,
        ),
        gains(p)[i].name == "MC_PITCHRATE_I"@ ==> gains(p)[i].value == exchange::WriteValue::Number(
            p.pids.pitch_i,
        ),
        gains(p)[i].name == "MC_PITCHRATE_D"@ ==> gains(p)[i].value == exchange::WriteValue::Number(
            p.pids.pitch_d,
        ),
        gains(p)[i].name == "MC_PITCHRATE_FF"@ ==> gains(p)[i].value == exchange::WriteValue::Number(
            p.pids.pitch_ff,
        ),
        gains(p).contains(
            exchange::WriteModel {
                name: "MC_PITCHRATE_P"@,
                value: exchange::WriteValue::Number(p.pids.pitch_p),
            },
        ),
        gains(p).contains(
            exchange::WriteModel {
                name: "MC_PITCHRATE_I"@,
                value: exchange::WriteValue::Number(p.pids.pitch_i),
            },
        ),
        gains(p).contains(
            exchange::WriteModel {
                name: "MC_PITCHRATE_D"@,
                value: exchange::WriteValue::Number(p.pids.pitch_d),
            },
        ),
        gains(p).contains(
            exchange::WriteModel {
                name: "MC_PITCHRATE_FF"@,
                value: exchange::WriteValue::Number(p.pids.pitch_ff),
            },
        ),
{
    lemma_names_differ();
    assert(gains(p)[4].name == "MC_PITCHRATE_P"@);
    assert(gains(p)[5].name == "MC_PITCHRATE_I"@);
    assert(gains(p)[6].name == "MC_PITCHRATE_D"@);
    assert(gains(p)[7].name == "MC_PITCHRATE_FF"@);
}

/// Each term of the yaw rate controller goes to the parameter of that axis and that
/// term, and to no other.
pub proof fn law_each_yaw_gain_goes_to_its_own_parameter(p: PidParams, i: int)
    requires
        0 <= i < gains(p).len(),
    ensures
        gains(p)[i].name == "MC_YAWRATE_P"@ ==> gains(p)[i].value == exchange::WriteValue::Number(
            p.pids.yaw_p,
        ),
        gains(p)[i].name == "MC_YAWRATE_I"@ ==> gains(p)[i].value == exchange::WriteValue::Number(
            p.pids.yaw_i,
        ),
        gains(p)[i].name == "MC_YAWRATE_D"@ ==> gains(p)[i].value == exchange::WriteValue::Number(
            p.pids.yaw_d,
        ),
        gains(p)[i].name == "MC_YAWRATE_FF"@ ==> gains(p)[i].value == exchange::WriteValue::Number(
            p.pids.yaw_ff,
        ),
        gains(p).contains(
            exchange::WriteModel {
                name: "MC_YAWRATE_P"@,
                value: exchange::WriteValue::Number(p.pids.yaw_p),
            },
        ),
        gains(p).contains(
            exchange::WriteModel {
                name: "MC_YAWRATE_I"@,
                value: exchange::WriteValue::Number(p.pids.yaw_i),
            },
        ),
        gains(p).contains(
            exchange::WriteModel {
                name: "MC_YAWRATE_D"@,
                value: exchange::WriteValue::Number(p.pids.yaw_d),
            },
        ),
        gains(p).contains(
            exchange::WriteModel {
                name: "MC_YAWRATE_FF"@,
                value: exchange::WriteValue::Number(p.pids.yaw_ff),
            },
        ),
{
    lemma_names_differ();
    assert(gains(p)[8].name == "MC_YAWRATE_P"@);
    assert(gains(p)[9].name == "MC_YAWRATE_I"@);
    assert(gains(p)[10].name == "MC_YAWRATE_D"@);
    assert(gains(p)[11].name == "MC_YAWRATE_FF"@);
}

/// The thrust curve is inverted in full, the throttle floor goes to its own
/// parameter, and no offset of a calibration is left on the board.
pub proof fn law_throttles_and_offsets_go_to_their_own_parameters(p: PidParams, i: int)
    requires
        0 <= i < gains(p).len(),
    ensures
        gains(p)[i].name == "THR_MDL_FAC"@ ==> gains(p)[i].value == exchange::WriteValue::Number(
            Real32 { bits: 0x3f80_0000 },
        ),
        gains(p)[i].name == "MPC_THR_MIN"@ ==> gains(p)[i].value == exchange::WriteValue::Number(
            p.thr_min,
        ),
        gains(p)[i].name == "CAL_ACC0_XOFF"@ ==> gains(p)[i].value == exchange::WriteValue::Number(
            Real32 { bits: 0 },
        ),
        gains(p)[i].name == "CAL_ACC0_YOFF"@ ==> gains(p)[i].value == exchange::WriteValue::Number(
            Real32 { bits: 0 },
        ),
        gains(p)[i].name == "CAL_ACC0_ZOFF"@ ==> gains(p)[i].value == exchange::WriteValue::Number(
            Real32 { bits: 0 },
        ),
        gains(p)[i].name == "CAL_GYRO0_XOFF"@ ==> gains(p)[i].value == exchange::WriteValue::Number(
            Real32 { bits: 0 },
        ),
        gains(p)[i].name == "CAL_GYRO0_YOFF"@ ==> gains(p)[i].value == exchange::WriteValue::Number(
            Real32 { bits: 0 },
        ),
        gains(p)[i].name == "CAL_GYRO0_ZOFF"@ ==> gains(p)[i].value == exchange::WriteValue::Number(
            Real32 { bits: 0 },
        ),
        gains(p).contains(
            exchange::WriteModel {
                name: "THR_MDL_FAC"@,
                value: exchange::WriteValue::Number(Real32 { bits: 0x3f80_0000 }),
            },
        ),
        gains(p).contains(
            exchange::WriteModel {
                name: "MPC_THR_MIN"@,
                value: exchange::WriteValue::Number(p.thr_min),
            },
        ),
        gains(p).contains(
            exchange::WriteModel {
                name: "CAL_ACC0_XOFF"@,
                value: exchange::WriteValue::Number(Real32 { bits: 0 }),
            },
        ),
        gains(p).contains(
            exchange::WriteModel {
                name: "CAL_ACC0_YOFF"@,
                value: exchange::WriteValue::Number(Real32 { bits: 0 }),
            },
        ),
        gains(p).contains(
            exchange::WriteModel {
                name: "CAL_ACC0_ZOFF"@,
                value: exchange::WriteValue::Number(Real32 { bits: 0 }),
            },
        ),
        gains(p).contains(
            exchange::WriteModel {
                name: "CAL_GYRO0_XOFF"@,
                value: exchange::WriteValue::Number(Real32 { bits: 0 }),
            },
        ),
        gains(p).contains(
            exchange::WriteModel {
                name: "CAL_GYRO0_YOFF"@,
                value: exchange::WriteValue::Number(Real32 { bits: 0 }),
            },
        ),
        gains(p).contains(
            exchange::WriteModel {
                name: "CAL_GYRO0_ZOFF"@,
                value: exchange::WriteValue::Number(Real32 { bits: 0 }),
            },
        ),
{
    lemma_names_differ();
    assert(gains(p)[12].name == "THR_MDL_FAC"@);
    assert(gains(p)[13].name == "MPC_THR_MIN"@);
    assert(gains(p)[14].name == "CAL_ACC0_XOFF"@);
    assert(gains(p)[15].name == "CAL_ACC0_YOFF"@);
    assert(gains(p)[16].name == "CAL_ACC0_ZOFF"@);
    assert(gains(p)[17].name == "CAL_GYRO0_XOFF"@);
    assert(gains(p)[18].name == "CAL_GYRO0_YOFF"@);
    assert(gains(p)[19].name == "CAL_GYRO0_ZOFF"@);
}

/// A build that can hover is told its hover throttle, in its own parameter and
/// last of all.
pub proof fn law_the_hover_throttle_goes_to_its_own_parameter(p: PidParams, i: int)
    requires
        p.can_hover,
        0 <= i < gains(p).len(),
    ensures
        gains(p)[i].name == "MPC_THR_HOVER"@ <==> i == gains(p).len() - 1,
        gains(p).last().value == exchange::WriteValue::Number(p.hover_cmd),
{
    lemma_names_differ();
}

/// No parameter is written twice in a push.
pub proof fn law_no_parameter_is_written_twice(p: PidParams, i: int, j: int)
    requires
        0 <= i < j < gains(p).len(),
    ensures
        gains(p)[i].name != gains(p)[j].name,
{
    lemma_names_differ();
    let a = gains(p)[i].name;
    let b = gains(p)[j].name;
    if a == b {
        if i < 12 {
            assert(a[3] != '_');
            assert(j < 12);
            assert(a.len() == b.len() && a[3] == b[3] && a.last() == b.last());
        } else {
            assert(a[3] == '_');
            assert(a[0] == b[0] && a[4] == b[4] && a[8] == b[8] && a[9] == b[9]);
            assert(a.len() >= 13 ==> a[10] == b[10]);
        }
    }
}

/// Two builds that differ in one gain alone are pushed alike but for one write.
pub proof fn law_a_changed_gain_changes_one_write(p: PidParams, pitch_p: Real32, i: int)
    requires
        0 <= i < gains(p).len(),
        gains(p)[i].name != "MC_PITCHRATE_P"@,
    ensures
        gains(PidParams { pids: Px4PidsView { pitch_p, ..p.pids }, ..p })[i] == gains(p)[i],
{
}

/// Every parameter of a push is counted, and a build that cannot hover has one
/// less.
pub proof fn law_the_count_is_that_of_the_writes(p: PidParams)
    ensures
        gains(p).len() == gain_count(p),
        gains(PidParams { can_hover: true, ..p }).len() == gains(
            PidParams { can_hover: false, ..p },
        ).len() + 1,
        gain_count(PidParams { can_hover: true, ..p }) == 21,
{
}

/// A change of the throttle floor alone changes the fingerprint too.
pub proof fn law_a_change_of_throttle_floor_is_pushed(
    pid_fingerprint: u64,
    p: PidParams,
    thr_min: Real32,
)
    requires
        thr_min != p.thr_min,
    ensures
        mixed_fingerprint(pid_fingerprint, p) != mixed_fingerprint(
            pid_fingerprint,
            PidParams { thr_min, ..p },
        ),
{
    let a = p.thr_min.bits;
    let b = thr_min.bits;
    let h = p.hover_cmd.bits;
    assert(a != b ==> pid_fingerprint ^ ((h as u64) << 32) ^ ((a as u64) << 16) != pid_fingerprint
        ^ ((h as u64) << 32) ^ ((b as u64) << 16)) by (bit_vector);
}

/// A change of the gains, which changes their fingerprint, changes that of the
/// push.
pub proof fn law_a_change_of_gains_is_pushed(a: u64, b: u64, p: PidParams)
    requires
        a != b,
    ensures
        mixed_fingerprint(a, p) != mixed_fingerprint(b, p),
{
    let h = (p.hover_cmd.bits as u64) << 32;
    let t = (p.thr_min.bits as u64) << 16;
    assert(a != b ==> a ^ h ^ t != b ^ h ^ t) by (bit_vector);
}

/// Without an autopilot nothing is pushed; with one, only a repetition is
/// skipped.
pub proof fn law_what_is_skipped(c: PidCache, m: PidPushModel, fingerprint: u64)
    ensures
        !c.linked ==> c.skips(fingerprint),
        c.linked && fingerprint != m.fingerprint ==> !c.completed(m).skips(fingerprint),
        c.completed(m).last_verified == Some(m.params),
        c.completed(m).linked == c.linked,
        c.begun().last_verified == c.last_verified,
        c.begun().linked == c.linked,
        c.begun().last_fingerprint is None,
{
}

/// After a reconnect what was last confirmed is pushed again, and not taken for
/// done: the next push of it is not skipped.
pub proof fn law_what_is_pushed_after_a_reconnect(
    before: PidCache,
    after: PidCache,
    r: Option<PidParams>,
    fingerprint: u64,
)
    requires
        repushes(before, after, r),
    ensures
        r == before.last_verified,
        after.linked == before.linked,
        after.last_verified == before.last_verified,
        r is Some && after.linked ==> !after.skips(fingerprint),
        r is None ==> after == before,
{
}

/// A report of a push after a reconnect tells success from failure, and a
/// failure says why.
pub proof fn law_how_a_repush_is_reported(r: ConfigResult, failure: Option<Seq<char>>)
    requires
        reports_repush(r, failure),
    ensures
        r.success <==> failure is None,
        r.state is Ready <==> failure is None,
        r.state is Error <==> failure is Some,
        r.error is Some <==> failure is Some,
        failure matches Some(e) ==> r.error->0@ == "PID re-push after reconnect failed: "@ + e,
        r.config is None,
{
}

/// A push fails when the link closes or a write is never confirmed, and the
/// message names that write; otherwise it has not failed.
pub proof fn law_what_a_failed_push_says(m: PidPushModel)
    ensures
        ({
            let step = exchange::push_step(m.push);
            &&& push_failure(m) is Some <==> step is LinkClosed || step is Unconfirmed
            &&& step matches PushStep::LinkClosed(i) ==> push_failure(m) == Some(
                "MAVLink tx disconnected while sending "@ + m.push.writes[i as int].name,
            )
            &&& step matches PushStep::Unconfirmed(i) ==> push_failure(m) == Some(
                "Failed to verify "@ + m.push.writes[i as int].name + " after "@
                    + crate::text::decimal(3) + " retries"@,
            )
        }),
{
}

} // verus!
