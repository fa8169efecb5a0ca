//! Provisioning, snapshot, restore and capability messages.
use crate::ieee::Real32;
use crate::protocol::config;
use crate::protocol::config::json_body;
use crate::protocol::tags::{ProtocolError, MSG_TYPE_RESTORE_SNAPSHOT, MSG_TYPE_SNAPSHOT_STORED};
use vstd::prelude::*;

verus! {

/// Current wire-protocol revision. Bumped when an existing message's layout or
/// meaning changes, not when a message type is added.
pub const PROTOCOL_REVISION: u16 = 2;

/// Whether the connected flight controller is ready.
#[derive(Clone, Copy, Debug, PartialEq, Eq, Structural)]
pub enum PreflightReadiness {
    /// A board is expected but has not reported yet. A wait, never a pass.
    Unknown,
    /// Simulation mode and a quadrotor airframe both confirmed.
    Ready,
    /// The board reported, and one or both signals are wrong.
    NotReady,
    /// No flight controller is part of this session; nothing to gate on.
    NotApplicable,
}

/// Last known state of the board.
#[derive(Clone, Debug)]
pub struct PreflightStatus {
    /// Whether any heartbeat has ever been received.
    pub connected: bool,
    /// Whether the board reports simulation mode.
    pub hitl_enabled: bool,
    /// Whether the board reports a quadrotor airframe.
    pub is_quadrotor: bool,
    /// The verdict.
    pub readiness: PreflightReadiness,
    /// Which board this is, once it has reported enough to say.
    pub board_identity: Option<String>,
}

/// One parameter as it stood before provisioning.
///
/// The type travels along because PX4 silently drops a write whose type does
/// not match the parameter's.
#[derive(Clone, Debug)]
pub struct SnapshotParam {
    /// Name.
    pub name: String,
    /// Value.
    pub value: Real32,
    /// "int32" or "real32".
    pub param_type: String,
}

/// One parameter as it stood before provisioning.
pub ghost struct SnapshotModel {
    pub name: Seq<char>,
    pub value: Real32,
    pub param_type: Seq<char>,
}

impl View for SnapshotParam {
    type V = SnapshotModel;

    open spec fn view(&self) -> SnapshotModel {
        SnapshotModel { name: self.name@, value: self.value, param_type: self.param_type@ }
    }
}

/// The contents of a list of parameters.
pub open spec fn snapshot_models(params: Seq<SnapshotParam>) -> Seq<SnapshotModel> {
    params.map_values(|p: SnapshotParam| p@)
}

/// A copy of a list of parameters.
pub fn copy_params(params: &Vec<SnapshotParam>) -> (r: Vec<SnapshotParam>)
    ensures
        snapshot_models(r@) == snapshot_models(params@),
{
    let mut copy: Vec<SnapshotParam> = Vec::new();
    let mut i: usize = 0;
    while i < params.len()
        invariant
            i <= params@.len(),
            copy@.len() == i,
            forall|j: int| 0 <= j < i ==> (#[trigger] copy@[j])@ == params@[j]@,
        decreases params@.len() - i,
    {
        let p: &SnapshotParam = &params[i];
        copy.push(
            SnapshotParam {
                name: p.name.clone(),
                value: p.value,
                param_type: p.param_type.clone(),
            },
        );
        i = i + 1;
    }
    assert(snapshot_models(copy@) =~= snapshot_models(params@));
    copy
}

/// Parameters read off the board before any write, for durable storage.
#[derive(Clone, Debug)]
pub struct SnapshotCaptured {
    /// The board they came from.
    pub board_identity: String,
    /// The parameters.
    pub params: Vec<SnapshotParam>,
}

/// The browser's confirmation that a captured snapshot is durably stored.
/// Provisioning blocks on it.
#[derive(Clone, Debug)]
pub struct SnapshotStored {
    /// The board the snapshot came from.
    pub board_identity: String,
    /// False when the browser could not persist it.
    pub stored: bool,
    /// Why it could not.
    pub error: Option<String>,
}

impl SnapshotStored {
    /// The JSON body of a confirmation frame.
    pub fn body(data: &[u8]) -> (r: Result<Vec<u8>, ProtocolError>)
        ensures
            stored_reading(data@, r),
    {
        json_body(data, MSG_TYPE_SNAPSHOT_STORED)
    }
}

/// A request to write a stored snapshot back to the board.
#[derive(Clone, Debug)]
pub struct RestoreSnapshot {
    /// The board the snapshot was captured from.
    pub board_identity: String,
    /// The parameters.
    pub params: Vec<SnapshotParam>,
}

impl RestoreSnapshot {
    /// The JSON body of a restore frame.
    pub fn body(data: &[u8]) -> (r: Result<Vec<u8>, ProtocolError>)
        ensures
            restore_reading(data@, r),
    {
        json_body(data, MSG_TYPE_RESTORE_SNAPSHOT)
    }
}

/// Lifecycle stage of a restore.
#[derive(Clone, Copy, Debug, PartialEq, Eq, Structural)]
pub enum RestoreState {
    /// Writing the parameters.
    Writing,
    /// Rebooting the board.
    Rebooting,
    /// Waiting for it to come back.
    Reconnecting,
    /// Reading the parameters back.
    Verifying,
    /// Every value took.
    Done,
    /// Something failed.
    Error,
}

/// One parameter that did not read back as its snapshotted value.
#[derive(Clone, Debug)]
pub struct RestoreMismatch {
    /// Name.
    pub name: String,
    /// Value written.
    pub expected: Real32,
    /// Value read.
    pub actual: Real32,
}

/// Progress or outcome of a restore.
#[derive(Clone, Debug)]
pub struct RestoreResult {
    /// Lifecycle stage.
    pub state: RestoreState,
    /// False only on failure.
    pub success: bool,
    /// Why it failed.
    pub error: Option<String>,
    /// Values that did not take; the board is then not reported as restored.
    pub mismatches: Vec<RestoreMismatch>,
}

/// Lifecycle stage of provisioning.
#[derive(Clone, Copy, Debug, PartialEq, Eq, Structural)]
pub enum PreflightApplyState {
    /// Reading the current parameters and waiting for the browser to persist
    /// them. Nothing has been written yet.
    Capturing,
    /// Writing the parameters.
    Applying,
    /// Rebooting the board.
    Rebooting,
    /// Waiting for it to come back.
    Reconnecting,
    /// Checking that the settings took effect.
    Verifying,
    /// They did.
    Done,
    /// Something failed.
    Error,
}

/// Progress or outcome of provisioning.
#[derive(Clone, Debug)]
pub struct PreflightApplyResult {
    /// Lifecycle stage.
    pub state: PreflightApplyState,
    /// False only on failure.
    pub success: bool,
    /// Why it failed.
    pub error: Option<String>,
}

/// What this daemon is and what it can do, sent unprompted on connect.
#[derive(Clone, Debug)]
pub struct Capabilities {
    /// Daemon version.
    pub daemon_version: String,
    /// Wire-protocol revision.
    pub protocol_revision: u16,
    /// Named features, so that a mixed fleet degrades per feature.
    pub features: Vec<String>,
}

/// Number of features this daemon supports.
pub const DAEMON_FEATURE_COUNT: usize = 6;

/// Name of a feature this daemon supports.
pub open spec fn feature_text(i: int) -> Seq<char> {
    if i == 0 {
        "param_snapshot"@
    } else if i == 1 {
        "param_restore"@
    } else if i == 2 {
        "board_identity"@
    } else if i == 3 {
        "heartbeat_probe"@
    } else if i == 4 {
        "provisioning_broadcast"@
    } else {
        "link_state"@
    }
}

/// Feature names this daemon supports.
pub fn daemon_features() -> (r: Vec<String>)
    ensures
        r@.len() == DAEMON_FEATURE_COUNT,
        forall|i: int| 0 <= i < DAEMON_FEATURE_COUNT ==> (#[trigger] r@[i])@ == feature_text(i),
{
    let mut names: Vec<String> = Vec::new();
    names.push("param_snapshot".to_owned());
    names.push("param_restore".to_owned());
    names.push("board_identity".to_owned());
    names.push("heartbeat_probe".to_owned());
    names.push("provisioning_broadcast".to_owned());
    names.push("link_state".to_owned());
    names
}

impl Capabilities {
    /// The capabilities of this daemon, at the given version.
    pub fn current(daemon_version: String) -> (r: Capabilities)
        ensures
            r.daemon_version@ == daemon_version@,
            r.protocol_revision == PROTOCOL_REVISION,
            r.features@.len() == DAEMON_FEATURE_COUNT,
            forall|i: int|
                0 <= i < DAEMON_FEATURE_COUNT ==> (#[trigger] r.features@[i])@ == feature_text(i),
    {
        Capabilities {
            daemon_version,
            protocol_revision: PROTOCOL_REVISION,
            features: daemon_features(),
        }
    }
}

/// The features that the daemon announces.
pub proof fn law_which_features_are_announced(i: int)
    ensures
        i == 0 ==> feature_text(i) == "param_snapshot"@,
        i == 1 ==> feature_text(i) == "param_restore"@,
        i == 2 ==> feature_text(i) == "board_identity"@,
        i == 3 ==> feature_text(i) == "heartbeat_probe"@,
        i == 4 ==> feature_text(i) == "provisioning_broadcast"@,
        i == 5 ==> feature_text(i) == "link_state"@,
{
}

/// What a confirmation frame reads as.
pub open spec fn stored_reading(d: Seq<u8>, r: Result<Vec<u8>, ProtocolError>) -> bool {
    config::body_reading(d, MSG_TYPE_SNAPSHOT_STORED, r)
}

/// What a restore frame reads as.
pub open spec fn restore_reading(d: Seq<u8>, r: Result<Vec<u8>, ProtocolError>) -> bool {
    config::body_reading(d, MSG_TYPE_RESTORE_SNAPSHOT, r)
}

/// A confirmation and a restore request are each read under their own tag and
/// under no other.
pub proof fn law_which_frames_are_read(
    d: Seq<u8>,
    stored: Result<Vec<u8>, ProtocolError>,
    restore: Result<Vec<u8>, ProtocolError>,
)
    requires
        d.len() >= 2,
        stored_reading(d, stored),
        restore_reading(d, restore),
    ensures
        stored is Ok <==> d[0] == 0x16,
        restore is Ok <==> d[0] == 0x17,
        stored matches Ok(body) ==> body@ == d.skip(1),
        restore matches Ok(body) ==> body@ == d.skip(1),
{
}

} // verus!
