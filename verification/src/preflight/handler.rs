//! The preflight handler: readiness, admission, and the bookkeeping around a cycle.
//!
//! One handler serves every connected browser, so the guard against two
//! concurrent cycles and the cooldown after one live here.
use crate::board_identity::BoardIdentity;
use crate::param_io::{ParamReadPolicy, ParamValue};
use crate::param_read;
use crate::preflight::apply;
use crate::preflight::apply::{apply_error, Provisioning, ProvisioningInput};
use crate::preflight::capture;
use crate::preflight::capture::{
    capture_target, sim_only_message, snapshot_params, CaptureEvent, CaptureStep,
    SNAPSHOT_ACK_TIMEOUT_MS,
};
use crate::preflight::restore;
use crate::preflight::restore::restore_error;
use crate::preflight::tables;
use crate::protocol::provisioning;
use crate::protocol::provisioning::{
    copy_params, PreflightApplyResult, PreflightReadiness, PreflightStatus, RestoreResult,
    RestoreSnapshot, SnapshotCaptured, SnapshotParam,
};
use crate::snapshot::{SessionSnapshot, StoredSnapshot};
use crate::text;
use crate::text::{push_decimal, same_text};
use vstd::prelude::*;

verus! {

/// How long the board is left alone after a write-and-reboot cycle: the flash
/// commit and the bootloader dwell, with a margin. A second cycle inside this
/// window can interrupt the commit and corrupt the parameter store.
pub const CYCLE_COOLDOWN_MS: u64 = 15_000;

/// The preflight check.
#[derive(Debug)]
pub struct PreflightHandler {
    linked: bool,
    applying: bool,
    identity: Option<BoardIdentity>,
    session: SessionSnapshot,
    read_policy: ParamReadPolicy,
    ack_timeout_ms: u64,
    last_cycle_finished_ms: Option<u64>,
    cooldown_ms: u64,
}

/// What the handler knows.
pub ghost struct PreflightModel {
    pub linked: bool,
    pub applying: bool,
    pub identity: Option<Seq<char>>,
    pub session: Option<StoredSnapshot>,
    pub read_policy: ParamReadPolicy,
    pub ack_timeout_ms: u64,
    pub last_cycle_finished_ms: Option<u64>,
    pub cooldown_ms: u64,
}

impl View for PreflightHandler {
    type V = PreflightModel;

    closed spec fn view(&self) -> PreflightModel {
        PreflightModel {
            linked: self.linked,
            applying: self.applying,
            identity: match self.identity {
                Some(id) => Some(id@),
                None => None,
            },
            session: self.session@,
            read_policy: self.read_policy,
            ack_timeout_ms: self.ack_timeout_ms,
            last_cycle_finished_ms: self.last_cycle_finished_ms,
            cooldown_ms: self.cooldown_ms,
        }
    }
}

/// How long the board must still be left alone, if at all.
pub open spec fn cooldown_left(g: PreflightModel, now_ms: u64) -> Option<int> {
    match g.last_cycle_finished_ms {
        None => None,
        Some(t) => {
            let elapsed = if now_ms > t {
                now_ms - t
            } else {
                0
            };
            if elapsed >= g.cooldown_ms {
                None
            } else {
                Some(g.cooldown_ms - elapsed)
            }
        },
    }
}

/// The message while the board must be left alone.
pub open spec fn cooldown_text(left_ms: int) -> Seq<char> {
    "The flight controller is still restarting from the previous change. Wait "@ + text::decimal(
        (left_ms / 1000 + 1) as nat,
    ) + "s and try again — writing now risks corrupting its settings."@
}

/// Why a provisioning is refused, if it is.
pub open spec fn apply_refusal(g: PreflightModel, now_ms: u64) -> Option<Seq<char>> {
    if let Some(left) = cooldown_left(g, now_ms) {
        Some(cooldown_text(left))
    } else if g.applying {
        Some("A preflight apply is already in progress"@)
    } else if !g.linked {
        Some(capture::sim_only_text())
    } else {
        None
    }
}

/// The message for a snapshot of another board.
pub open spec fn wrong_board_text(snapshot: Seq<char>, connected: Seq<char>) -> Seq<char> {
    "That snapshot was taken from a different flight controller ("@ + snapshot
        + "), not the one connected ("@ + connected + "). Nothing was changed."@
}

/// Why a restore is refused, if it is.
pub open spec fn restore_refusal(
    g: PreflightModel,
    request: RestoreSnapshot,
    now_ms: u64,
) -> Option<Seq<char>> {
    if let Some(left) = cooldown_left(g, now_ms) {
        Some(cooldown_text(left))
    } else if g.applying {
        Some("Another flight-controller operation is already in progress"@)
    } else if !g.linked {
        Some(capture::sim_only_text())
    } else if g.identity is None {
        Some(
            "The connected flight controller reports no identifying serial, so this snapshot cannot be confirmed to belong to it. Nothing was changed."@,
        )
    } else if g.identity->0 != request.board_identity@ {
        Some(wrong_board_text(request.board_identity@, g.identity->0))
    } else if request.params@.len() == 0 {
        Some("That snapshot contains no parameters to restore."@)
    } else {
        None
    }
}

/// The handler after a request: refused during the cooldown, it is as before;
/// refused later, the cooldown starts anew; admitted, a cycle is under way.
pub open spec fn after_request(g: PreflightModel, refused: bool, now_ms: u64) -> PreflightModel {
    if cooldown_left(g, now_ms) is Some {
        g
    } else if refused {
        PreflightModel { last_cycle_finished_ms: Some(now_ms), ..g }
    } else {
        PreflightModel { applying: true, ..g }
    }
}

/// The handler once a cycle has ended.
pub open spec fn cycle_over(g: PreflightModel, now_ms: u64) -> PreflightModel {
    PreflightModel { applying: false, last_cycle_finished_ms: Some(now_ms), ..g }
}

/// The verdict on a board: `linked` says whether the session has one, `count`
/// how many heartbeats were heard.
pub open spec fn readiness_of(
    linked: bool,
    count: u64,
    hitl_enabled: bool,
    is_quadrotor: bool,
) -> PreflightReadiness {
    if !linked {
        PreflightReadiness::NotApplicable
    } else if count == 0 {
        PreflightReadiness::Unknown
    } else if hitl_enabled && is_quadrotor {
        PreflightReadiness::Ready
    } else {
        PreflightReadiness::NotReady
    }
}

impl PreflightHandler {
    /// A handler for a session with or without a flight controller, whose identity
    /// is not known yet.
    pub fn new(linked: bool) -> (r: PreflightHandler)
        ensures
            r@ == preflight_begun(linked, None),
    {
        PreflightHandler::with_identity(linked, None)
    }

    /// A handler for a session whose board may be known already.
    pub fn with_identity(linked: bool, identity: Option<BoardIdentity>) -> (r: PreflightHandler)
        ensures
            r@ == preflight_begun(
                linked,
                match identity {
                    Some(id) => Some(id@),
                    None => None,
                },
            ),
    {
        PreflightHandler {
            linked,
            applying: false,
            identity,
            session: SessionSnapshot::new(),
            read_policy: ParamReadPolicy::default(),
            ack_timeout_ms: SNAPSHOT_ACK_TIMEOUT_MS,
            last_cycle_finished_ms: None,
            cooldown_ms: CYCLE_COOLDOWN_MS,
        }
    }

    /// Use another budget for reading parameters, and another patience with
    /// the browser.
    pub fn with_capture_budget(self, read_policy: ParamReadPolicy, ack_timeout_ms: u64) -> (r:
        PreflightHandler)
        ensures
            r@ == (PreflightModel { read_policy, ack_timeout_ms, ..self@ }),
    {
        PreflightHandler { read_policy, ack_timeout_ms, ..self }
    }

    /// Use another cooldown.
    pub fn with_cooldown(self, cooldown_ms: u64) -> (r: PreflightHandler)
        ensures
            r@ == (PreflightModel { cooldown_ms, ..self@ }),
    {
        PreflightHandler { cooldown_ms, ..self }
    }

    /// The board reported its identity, or stopped having one.
    pub fn set_identity(&mut self, identity: Option<BoardIdentity>)
        ensures
            final(self)@ == (PreflightModel {
                identity: match identity {
                    Some(id) => Some(id@),
                    None => None,
                },
                ..old(self)@
            }),
    {
        self.identity = identity;
    }

    /// The session's copy of the snapshot.
    pub fn session_snapshot(&self) -> (r: &SessionSnapshot)
        ensures
            r@ == self@.session,
    {
        &self.session
    }

    /// The budget for reading parameters.
    pub fn read_policy(&self) -> (r: ParamReadPolicy)
        ensures
            r == self@.read_policy,
    {
        self.read_policy
    }

    /// How long to wait for the browser.
    pub fn ack_timeout_ms(&self) -> (r: u64)
        ensures
            r == self@.ack_timeout_ms,
    {
        self.ack_timeout_ms
    }

    /// The last known state of the board. `connected` goes by the heartbeat
    /// counter, which is never reset, so a check in the middle of another
    /// client's reboot still sees a board.
    pub fn check(&self, count: u64, hitl_enabled: bool, is_quadrotor: bool) -> (r: PreflightStatus)
        ensures
            r.connected == (count > 0),
            r.hitl_enabled == hitl_enabled,
            r.is_quadrotor == is_quadrotor,
            r.readiness == readiness_of(self@.linked, count, hitl_enabled, is_quadrotor),
            (match r.board_identity {
                Some(id) => Some(id@),
                None => None,
            }) == self@.identity,
    {
        let readiness = if !self.linked {
            PreflightReadiness::NotApplicable
        } else if count == 0 {
            PreflightReadiness::Unknown
        } else if hitl_enabled && is_quadrotor {
            PreflightReadiness::Ready
        } else {
            PreflightReadiness::NotReady
        };
        PreflightStatus {
            connected: count > 0,
            hitl_enabled,
            is_quadrotor,
            readiness,
            board_identity: match &self.identity {
                Some(id) => Some(id.as_str().to_owned()),
                None => None,
            },
        }
    }

    /// How long the board must still be left alone, if at all.
    pub fn cooldown_remaining(&self, now_ms: u64) -> (r: Option<u64>)
        ensures
            (match r {
                Some(left) => Some(left as int),
                None => None,
            }) == cooldown_left(self@, now_ms),
    {
        match self.last_cycle_finished_ms {
            None => None,
            Some(t) => {
                let elapsed: u64 = if now_ms > t {
                    now_ms - t
                } else {
                    0
                };
                if elapsed >= self.cooldown_ms {
                    None
                } else {
                    Some(self.cooldown_ms - elapsed)
                }
            },
        }
    }

    fn cooldown_message(left_ms: u64) -> (r: String)
        ensures
            r@ == cooldown_text(left_ms as int),
    {
        let mut out: String =
            "The flight controller is still restarting from the previous change. Wait ".to_owned();
        push_decimal(&mut out, left_ms / 1000 + 1);
        out.append("s and try again — writing now risks corrupting its settings.");
        assert(out@ =~= cooldown_text(left_ms as int));
        out
    }

    /// Ask to provision the board. A result is a refusal; without one, a cycle
    /// is under way, to be ended by [`PreflightHandler::end_cycle`].
    pub fn begin_apply(&mut self, now_ms: u64) -> (r: Option<PreflightApplyResult>)
        ensures
            r is Some <==> apply_refusal(old(self)@, now_ms) is Some,
            r matches Some(result) ==> apply::report(result) == apply::failed_report(
                apply_refusal(old(self)@, now_ms)->0,
            ),
            final(self)@ == after_request(old(self)@, r is Some, now_ms),
    {
        if let Some(left) = self.cooldown_remaining(now_ms) {
            return Some(apply_error(Self::cooldown_message(left)));
        }
        if self.applying {
            self.last_cycle_finished_ms = Some(now_ms);
            return Some(apply_error("A preflight apply is already in progress".to_owned()));
        }
        if !self.linked {
            self.last_cycle_finished_ms = Some(now_ms);
            return Some(apply_error(sim_only_message()));
        }
        self.applying = true;
        None
    }

    /// Ask to restore a snapshot. A result is a refusal; without one, a cycle
    /// is under way, to be ended by [`PreflightHandler::end_cycle`]. A snapshot
    /// of another board is refused: one aircraft's tuning on another looks
    /// configured and flies wrong.
    pub fn begin_restore(&mut self, request: &RestoreSnapshot, now_ms: u64) -> (r: Option<
        RestoreResult,
    >)
        ensures
            r is Some <==> restore_refusal(old(self)@, *request, now_ms) is Some,
            r matches Some(result) ==> restore::restore_report(result) == restore::restore_failed(
                restore_refusal(old(self)@, *request, now_ms)->0,
            ),
            final(self)@ == after_request(old(self)@, r is Some, now_ms),
    {
        if let Some(left) = self.cooldown_remaining(now_ms) {
            return Some(restore_error(Self::cooldown_message(left)));
        }
        let refusal = self.restore_refused(request);
        if let Some(message) = refusal {
            self.last_cycle_finished_ms = Some(now_ms);
            return Some(restore_error(message));
        }
        self.applying = true;
        None
    }

    fn restore_refused(&self, request: &RestoreSnapshot) -> (r: Option<String>)
        ensures
            forall|now_ms: u64| #[trigger]
                cooldown_left(self@, now_ms) is None ==> (match r {
                    Some(m) => Some(m@),
                    None => None,
                }) == restore_refusal(self@, *request, now_ms),
    {
        if self.applying {
            return Some("Another flight-controller operation is already in progress".to_owned());
        }
        if !self.linked {
            return Some(sim_only_message());
        }
        match &self.identity {
            None => Some(
                "The connected flight controller reports no identifying serial, so this snapshot cannot be confirmed to belong to it. Nothing was changed.".to_owned(),
            ),
            Some(connected) => {
                if !same_text(connected.as_str(), request.board_identity.as_str()) {
                    let mut out: String =
                        "That snapshot was taken from a different flight controller (".to_owned();
                    out.append(request.board_identity.as_str());
                    out.append("), not the one connected (");
                    out.append(connected.as_str());
                    out.append("). Nothing was changed.");
                    return Some(out);
                }
                if request.params.len() == 0 {
                    Some("That snapshot contains no parameters to restore.".to_owned())
                } else {
                    None
                }
            },
        }
    }

    /// A cycle ended, however it ended: the guard is released and the cooldown
    /// begins.
    pub fn end_cycle(&mut self, now_ms: u64)
        ensures
            final(self)@ == cycle_over(old(self)@, now_ms),
    {
        self.applying = false;
        self.last_cycle_finished_ms = Some(now_ms);
    }

    /// The board to capture a restore point from, or why there can be none.
    pub fn capture_board(&self) -> (r: Result<String, String>)
        ensures
            !self@.linked ==> (r matches Err(e) && e@ == capture::sim_only_text()),
            self@.linked && self@.identity is None ==> (r matches Err(e) && e@
                == capture::no_identity_text()),
            self@.linked && self@.identity is Some ==> (r matches Ok(id) && id@
                == self@.identity->0),
    {
        match &self.identity {
            Some(id) => capture_target(self.linked, Some(id)),
            None => capture_target(self.linked, None),
        }
    }

    /// Keep what a provisioning has read as the session's restore point, and
    /// make the message that hands it to the browser. There is nothing to keep
    /// unless every parameter was read.
    pub fn keep_restore_point(&mut self, p: &mut Provisioning) -> (r: Option<SnapshotCaptured>)
        requires
            apply::provisioning_invariant(old(p)@),
        ensures
            apply::provisioning_invariant(final(p)@),
            match old(p)@.stage {
                apply::StageModel::Capturing(
                    capture::CaptureModel { board, step: capture::CaptureStepModel::Keep(values) },
                ) => {
                    &&& r matches Some(message)
                    &&& message.board_identity@ == board
                    &&& message.params@.len() == values.len()
                    &&& forall|i: int|
                        0 <= i < values.len() ==> capture::records(
                            #[trigger] message.params@[i],
                            values[i],
                        )
                    &&& final(self)@.session matches Some(held) && held.board_identity@ == board
                        && provisioning::snapshot_models(held.params@)
                        == provisioning::snapshot_models(message.params@)
                    &&& final(self)@ == (PreflightModel {
                        session: final(self)@.session,
                        ..old(self)@
                    })
                    &&& final(p)@ == apply::provisioning_advanced(
                        old(p)@,
                        ProvisioningInput::Capture(CaptureEvent::Kept),
                    )
                },
                _ => r is None && final(self)@ == old(self)@ && final(p)@ == old(p)@,
            },
    {
        let (board, params): (String, Vec<SnapshotParam>) = match p.capture() {
            Some(c) => match c.step() {
                CaptureStep::Keep(values) => (c.board().to_owned(), snapshot_params(values)),
                _ => return None,
            },
            None => return None,
        };
        self.session.store(
            StoredSnapshot { board_identity: board.clone(), params: copy_params(&params) },
        );
        p.on_input(ProvisioningInput::Capture(CaptureEvent::Kept));
        Some(SnapshotCaptured { board_identity: board, params })
    }
}

/// A handler before anything happened.
pub open spec fn preflight_begun(linked: bool, identity: Option<Seq<char>>) -> PreflightModel {
    PreflightModel {
        linked,
        applying: false,
        identity,
        session: None,
        read_policy: ParamReadPolicy {
            timeout_ms: crate::param_io::PARAM_READ_TIMEOUT_MS,
            retries: crate::param_io::PARAM_READ_RETRY_COUNT,
        },
        ack_timeout_ms: SNAPSHOT_ACK_TIMEOUT_MS,
        last_cycle_finished_ms: None,
        cooldown_ms: CYCLE_COOLDOWN_MS,
    }
}

/// A cycle under way keeps everyone else out: no provisioning and no restore
/// is admitted until it ends.
pub proof fn law_one_cycle_at_a_time(g: PreflightModel, request: RestoreSnapshot, now_ms: u64)
    requires
        g.applying,
    ensures
        apply_refusal(g, now_ms) is Some,
        restore_refusal(g, request, now_ms) is Some,
{
}

/// After a cycle ends, provisioning and restore alike are refused until the
/// cooldown has passed.
pub proof fn law_the_board_is_left_alone_after_a_cycle(
    g: PreflightModel,
    request: RestoreSnapshot,
    now_ms: u64,
)
    requires
        g.last_cycle_finished_ms is Some,
        g.last_cycle_finished_ms->0 <= now_ms < g.last_cycle_finished_ms->0 + g.cooldown_ms,
    ensures
        apply_refusal(g, now_ms) is Some,
        restore_refusal(g, request, now_ms) is Some,
        after_request(g, true, now_ms) == g,
{
}

/// A restore is admitted only for a snapshot of the connected board.
pub proof fn law_a_snapshot_is_only_restored_onto_its_own_board(
    g: PreflightModel,
    request: RestoreSnapshot,
    now_ms: u64,
)
    requires
        restore_refusal(g, request, now_ms) is None,
    ensures
        g.identity == Some(request.board_identity@),
        request.params@.len() > 0,
{
}

/// A board that was never heard of is not waved through: only a session
/// without a board skips the check.
pub proof fn law_a_silent_board_is_not_ready(
    linked: bool,
    hitl_enabled: bool,
    is_quadrotor: bool,
)
    ensures
        linked ==> readiness_of(linked, 0, hitl_enabled, is_quadrotor) is Unknown,
        !linked ==> readiness_of(linked, 0, hitl_enabled, is_quadrotor) is NotApplicable,
{
}

/// The restore point covers every write: whatever provisioning writes is among
/// the names that are captured.
pub proof fn law_the_restore_point_covers_every_write(i: int)
    requires
        0 <= i < tables::provisioning().len(),
    ensures
        tables::write_names(tables::provisioning()).contains(tables::provisioning()[i].name),
{
    assert(tables::write_names(tables::provisioning())[i] == tables::provisioning()[i].name);
}

/// Reading the captured names without a failure reads whatever provisioning
/// writes: the restore point then holds a value of every parameter that is
/// about to be overwritten.
pub proof fn law_a_full_read_covers_every_write(outcomes: Seq<Option<ParamValue>>, i: int)
    requires
        param_read::answered_in_order(tables::write_names(tables::provisioning()), outcomes),
        param_read::names_unread(
            tables::write_names(tables::provisioning()),
            outcomes,
        ).len() == 0,
        0 <= i < tables::provisioning().len(),
    ensures
        param_read::values_read(outcomes)[i].name@ == tables::provisioning()[i].name,
{
    let names = tables::write_names(tables::provisioning());
    param_read::law_every_name_is_accounted_for(names, outcomes);
    assert(names[i] == tables::provisioning()[i].name);
}

/// A provisioning is admitted exactly when the board was left alone for long
/// enough, nothing is under way and there is a board; an admitted one keeps
/// everyone else out until it ends, and its end starts the cooldown.
pub proof fn law_when_a_provisioning_is_admitted(g: PreflightModel, now_ms: u64, end_ms: u64)
    ensures
        apply_refusal(g, now_ms) is None <==> cooldown_left(g, now_ms) is None && !g.applying
            && g.linked,
        apply_refusal(g, now_ms) is None ==> after_request(g, false, now_ms).applying,
        apply_refusal(g, now_ms) is None ==> after_request(
            g,
            false,
            now_ms,
        ).last_cycle_finished_ms == g.last_cycle_finished_ms,
        !cycle_over(g, end_ms).applying,
        cycle_over(g, end_ms).last_cycle_finished_ms == Some(end_ms),
        cycle_over(g, end_ms).identity == g.identity,
        cycle_over(g, end_ms).session == g.session,
        cycle_over(g, end_ms).linked == g.linked,
        cycle_over(g, end_ms).cooldown_ms == g.cooldown_ms,
{
}

/// A restore is admitted exactly when a provisioning would be and the snapshot is
/// one of the connected board that holds something.
pub proof fn law_when_a_restore_is_admitted(
    g: PreflightModel,
    request: RestoreSnapshot,
    now_ms: u64,
)
    ensures
        restore_refusal(g, request, now_ms) is None <==> apply_refusal(g, now_ms) is None
            && g.identity == Some(request.board_identity@) && request.params@.len() > 0,
{
}

/// The cooldown runs from the end of a cycle; what is left of it shrinks with the
/// time that passed, and a clock that was set back does not lengthen it.
pub proof fn law_how_long_a_board_is_left_alone(g: PreflightModel, now_ms: u64)
    ensures
        g.last_cycle_finished_ms is None ==> cooldown_left(g, now_ms) is None,
        g.last_cycle_finished_ms matches Some(t) ==> {
            &&& now_ms >= t + g.cooldown_ms ==> cooldown_left(g, now_ms) is None
            &&& t <= now_ms < t + g.cooldown_ms ==> cooldown_left(g, now_ms) == Some(
                t + g.cooldown_ms - now_ms,
            )
            &&& now_ms < t && g.cooldown_ms > 0 ==> cooldown_left(g, now_ms) == Some(
                g.cooldown_ms as int,
            )
        },
        cooldown_left(g, now_ms) matches Some(left) ==> 0 < left <= g.cooldown_ms,
{
}

/// A handler starts with nothing under way, nothing kept and no cooldown, which
/// is fifteen seconds long.
pub proof fn law_how_a_handler_begins(linked: bool, identity: Option<Seq<char>>)
    ensures
        preflight_begun(linked, identity).linked == linked,
        preflight_begun(linked, identity).identity == identity,
        !preflight_begun(linked, identity).applying,
        preflight_begun(linked, identity).session is None,
        preflight_begun(linked, identity).last_cycle_finished_ms is None,
        preflight_begun(linked, identity).cooldown_ms == 15_000,
        preflight_begun(linked, identity).ack_timeout_ms == 20_000,
        preflight_begun(linked, identity).read_policy.timeout_ms == 800,
        preflight_begun(linked, identity).read_policy.retries == 3,
{
}

/// A board is ready exactly when it was heard of and reports both simulation
/// mode and a quadrotor.
pub proof fn law_when_a_board_is_ready(
    linked: bool,
    count: u64,
    hitl_enabled: bool,
    is_quadrotor: bool,
)
    ensures
        readiness_of(linked, count, hitl_enabled, is_quadrotor) is Ready <==> linked && count > 0
            && hitl_enabled && is_quadrotor,
        readiness_of(linked, count, hitl_enabled, is_quadrotor) is NotApplicable <==> !linked,
        readiness_of(linked, count, hitl_enabled, is_quadrotor) is Unknown <==> linked && count
            == 0,
        readiness_of(linked, count, hitl_enabled, is_quadrotor) is NotReady <==> linked && count
            > 0 && !(hitl_enabled && is_quadrotor),
{
}

/// A request that comes during the cooldown is told how many seconds to wait,
/// rounded up past what is left, and changes nothing.
pub proof fn law_an_early_request_is_told_to_wait(
    g: PreflightModel,
    request: RestoreSnapshot,
    now_ms: u64,
    left: int,
)
    requires
        cooldown_left(g, now_ms) == Some(left),
    ensures
        apply_refusal(g, now_ms) matches Some(m) && text::occurs(
            m,
            text::decimal((left / 1000 + 1) as nat),
        ),
        restore_refusal(g, request, now_ms) == apply_refusal(g, now_ms),
        after_request(g, true, now_ms) == g,
        left < (left / 1000 + 1) * 1000,
{
    let n = text::decimal((left / 1000 + 1) as nat);
    text::law_a_part_occurs_in_the_whole(
        "The flight controller is still restarting from the previous change. Wait "@,
        n,
        "s and try again — writing now risks corrupting its settings."@,
    );
}

/// Who has to wait is told how long in whole seconds, and never too few.
pub proof fn law_how_long_to_wait_is_said(left_ms: int)
    requires
        left_ms >= 0,
    ensures
        exists|s: nat|
            #![trigger text::decimal(s)]
            cooldown_text(left_ms)
                == "The flight controller is still restarting from the previous change. Wait "@
                + text::decimal(s)
                + "s and try again — writing now risks corrupting its settings."@ && left_ms < s
                * 1000 <= left_ms + 1000,
{
    let s = (left_ms / 1000 + 1) as nat;
    assert(cooldown_text(left_ms)
        == "The flight controller is still restarting from the previous change. Wait "@
        + text::decimal(s) + "s and try again — writing now risks corrupting its settings."@);
}

/// A snapshot of another board is refused with both boards named: first the one
/// it was taken from, then the one that is connected.
pub proof fn law_a_wrong_board_is_named(snapshot: Seq<char>, connected: Seq<char>)
    ensures
        wrong_board_text(snapshot, connected)
            == "That snapshot was taken from a different flight controller ("@ + snapshot
            + "), not the one connected ("@ + connected + "). Nothing was changed."@,
{
}

/// What a refused provisioning or restore is told, in the order in which the
/// reasons count.
pub proof fn law_what_a_refused_operation_is_told(
    g: PreflightModel,
    request: RestoreSnapshot,
    now_ms: u64,
)
    requires
        cooldown_left(g, now_ms) is None,
    ensures
        g.applying ==> apply_refusal(g, now_ms) == Some(
            "A preflight apply is already in progress"@,
        ),
        g.applying ==> restore_refusal(g, request, now_ms) == Some(
            "Another flight-controller operation is already in progress"@,
        ),
        !g.applying && !g.linked ==> apply_refusal(g, now_ms) == Some(
            "No flight controller connected (sim-only mode)"@,
        ) && restore_refusal(g, request, now_ms) == apply_refusal(g, now_ms),
        !g.applying && g.linked && g.identity is None ==> restore_refusal(g, request, now_ms)
            == Some(
            "The connected flight controller reports no identifying serial, so this snapshot cannot be confirmed to belong to it. Nothing was changed."@,
        ),
        !g.applying && g.linked && g.identity == Some(request.board_identity@)
            && request.params@.len() == 0 ==> restore_refusal(g, request, now_ms) == Some(
            "That snapshot contains no parameters to restore."@,
        ),
{
}

} // verus!
