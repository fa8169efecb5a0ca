//! Capturing the parameters that provisioning will overwrite.
//!
//! Read, keep, hand to the browser, have it stored, and only then write. Writing
//! first would open a window in which the board is changed and nothing can put
//! it back. Every failure here comes before a single write.
use crate::board_identity::BoardIdentity;
use crate::param_io;
use crate::param_io::ParamValue;
use crate::param_read;
use crate::preflight::tables::PROVISIONED_PARAM_COUNT;
use crate::protocol::provisioning::{SnapshotParam, SnapshotStored};
use crate::text;
use crate::text::{push_decimal, push_joined, same_text};
use vstd::prelude::*;

verus! {

/// How long to wait for the browser to confirm that the snapshot is stored.
pub const SNAPSHOT_ACK_TIMEOUT_MS: u64 = 20_000;

/// The message when there is no flight controller in this session.
pub open spec fn sim_only_text() -> Seq<char> {
    "No flight controller connected (sim-only mode)"@
}

/// The message when there is no flight controller in this session.
pub fn sim_only_message() -> (r: String)
    ensures
        r@ == sim_only_text(),
{
    "No flight controller connected (sim-only mode)".to_owned()
}

/// The message when the board cannot be told from another.
pub open spec fn no_identity_text() -> Seq<char> {
    "This flight controller reports no identifying serial, so a restore point cannot be tied to it. Provisioning was not started."@
}

/// The board to capture from: there must be one, and it must be identifiable.
pub fn capture_target(linked: bool, identity: Option<&BoardIdentity>) -> (r: Result<String, String>)
    ensures
        !linked ==> (r matches Err(e) && e@ == sim_only_text()),
        linked && identity is None ==> (r matches Err(e) && e@ == no_identity_text()),
        linked && identity is Some ==> (r matches Ok(id) && id@ == identity->0@),
{
    if !linked {
        return Err(sim_only_message());
    }
    match identity {
        Some(id) => Ok(id.as_str().to_owned()),
        None => Err(
            "This flight controller reports no identifying serial, so a restore point cannot be tied to it. Provisioning was not started.".to_owned(),
        ),
    }
}

/// The message when parameters could not be read.
pub open spec fn unread_text(failed: Seq<Seq<char>>, total: nat) -> Seq<char> {
    "Could not read "@ + text::decimal(failed.len()) + " of "@ + text::decimal(total)
        + " parameters from the flight controller ("@ + text::joined(failed)
        + "). Nothing was changed."@
}

/// The message when parameters could not be read.
pub fn unread_message(failed: &Vec<String>, total: usize) -> (r: String)
    ensures
        r@ == unread_text(param_read::texts(failed@), total as nat),
{
    let mut out: String = "Could not read ".to_owned();
    push_decimal(&mut out, failed.len() as u64);
    out.append(" of ");
    push_decimal(&mut out, total as u64);
    out.append(" parameters from the flight controller (");
    push_joined(&mut out, failed);
    out.append("). Nothing was changed.");
    assert(out@ =~= unread_text(param_read::texts(failed@), total as nat));
    out
}

/// The name of a type in a snapshot.
pub open spec fn snapshot_type(v: ParamValue) -> Seq<char> {
    if v.param_type.integer() {
        "int32"@
    } else {
        "real32"@
    }
}

/// Whether a snapshot entry records a parameter: its name, its type, and the
/// number it stands for.
pub open spec fn records(p: SnapshotParam, v: ParamValue) -> bool {
    &&& p.name@ == v.name@
    &&& p.param_type@ == snapshot_type(v)
    &&& param_io::is_decoded(v, p.value)
}

/// The snapshot of a list of parameters.
pub fn snapshot_params(values: &Vec<ParamValue>) -> (r: Vec<SnapshotParam>)
    ensures
        r@.len() == values@.len(),
        forall|i: int| 0 <= i < values@.len() ==> records(#[trigger] r@[i], values@[i]),
{
    let mut params: Vec<SnapshotParam> = Vec::new();
    let mut i: usize = 0;
    while i < values.len()
        invariant
            i <= values@.len(),
            params@.len() == i,
            forall|j: int| 0 <= j < i ==> records(#[trigger] params@[j], values@[j]),
        decreases values@.len() - i,
    {
        let v: &ParamValue = &values[i];
        params.push(
            SnapshotParam {
                name: v.name.clone(),
                value: v.decoded_value(),
                param_type: if v.is_integer() {
                    "int32".to_owned()
                } else {
                    "real32".to_owned()
                },
            },
        );
        i = i + 1;
    }
    params
}

/// What came of waiting for the browser's confirmation.
#[derive(Clone, Debug)]
pub enum AckEvent {
    /// A confirmation, of this board or another.
    Acked(SnapshotStored),
    /// Some confirmations were missed.
    Lagged,
    /// The browser is gone.
    Closed,
    /// Time is up.
    TimedOut,
}

/// The message when the browser did not confirm.
pub open spec fn unconfirmed_text() -> Seq<char> {
    "The browser did not confirm the restore point was saved. Nothing was changed."@
}

/// The message when the browser could not store the snapshot.
pub open spec fn not_stored_text(reason: Seq<char>) -> Seq<char> {
    "The browser could not save the restore point ("@ + reason + "). Nothing was changed."@
}

/// The message when the browser is gone.
pub open spec fn browser_lost_text() -> Seq<char> {
    "Lost the browser connection before the restore point was confirmed. Nothing was changed."@
}

/// The reason given in a confirmation.
pub open spec fn given_reason(ack: SnapshotStored) -> Seq<char> {
    match ack.error {
        Some(e) => e@,
        None => "no reason given"@,
    }
}

/// What an event means for the wait: nothing yet, stored, or a failure. A
/// confirmation for another board belongs to another session.
pub open spec fn ack_meaning(board: Seq<char>, e: AckEvent) -> Option<Result<(), Seq<char>>> {
    match e {
        AckEvent::Acked(ack) => if ack.board_identity@ != board {
            None
        } else if ack.stored {
            Some(Ok(()))
        } else {
            Some(Err(not_stored_text(given_reason(ack))))
        },
        AckEvent::Lagged => None,
        AckEvent::Closed => Some(Err(browser_lost_text())),
        AckEvent::TimedOut => Some(Err(unconfirmed_text())),
    }
}

/// An outcome, with the text of its message.
pub open spec fn outcome_text(r: Result<(), String>) -> Result<(), Seq<char>> {
    match r {
        Ok(_) => Ok(()),
        Err(e) => Err(e@),
    }
}

/// What an event means for the wait for `board`'s confirmation; nothing means
/// that the wait goes on.
pub fn ack_verdict(board: &str, e: &AckEvent) -> (r: Option<Result<(), String>>)
    ensures
        (match r {
            Some(o) => Some(outcome_text(o)),
            None => None::<Result<(), Seq<char>>>,
        }) == ack_meaning(board@, *e),
{
    match e {
        AckEvent::Acked(ack) => {
            if !same_text(ack.board_identity.as_str(), board) {
                None
            } else if ack.stored {
                Some(Ok(()))
            } else {
                let mut out: String = "The browser could not save the restore point (".to_owned();
                match &ack.error {
                    Some(reason) => out.append(reason.as_str()),
                    None => out.append("no reason given"),
                }
                out.append("). Nothing was changed.");
                assert(out@ =~= not_stored_text(given_reason(*ack)));
                Some(Err(out))
            }
        },
        AckEvent::Lagged => None,
        AckEvent::Closed => Some(
            Err(
                "Lost the browser connection before the restore point was confirmed. Nothing was changed.".to_owned(),
            ),
        ),
        AckEvent::TimedOut => Some(
            Err(
                "The browser did not confirm the restore point was saved. Nothing was changed.".to_owned(),
            ),
        ),
    }
}

/// The message when there is no browser to store the snapshot.
pub open spec fn no_browser_text() -> Seq<char> {
    "No browser is connected to save the restore point. Nothing was changed."@
}

/// The message when there is no browser to store the snapshot.
pub fn no_browser_message() -> (r: String)
    ensures
        r@ == no_browser_text(),
{
    "No browser is connected to save the restore point. Nothing was changed.".to_owned()
}

/// What happened to a capture.
#[derive(Clone, Debug)]
pub enum CaptureEvent {
    /// The reading is over: what was read, and the names that could not be.
    Read { values: Vec<ParamValue>, failed: Vec<String> },
    /// What was read was kept as the session's restore point.
    Kept,
    /// The snapshot was handed to the browsers: to one or more, or to none.
    HandedOver { received: bool },
    /// Something came of waiting for the browser's confirmation.
    Ack(AckEvent),
}

/// What a capture asks for next, or how it ended.
#[derive(Debug)]
pub enum CaptureStep {
    /// Read the parameters.
    Read,
    /// Keep what was read.
    Keep(Vec<ParamValue>),
    /// Hand the snapshot to a browser.
    HandOver,
    /// Wait for the browser's confirmation.
    AwaitAck,
    /// The browser stored it.
    Stored,
    /// There is no restore point, for this reason.
    Failed(String),
}

/// The capture of a restore point.
#[derive(Debug)]
pub struct Capture {
    board: String,
    step: CaptureStep,
}

/// What a capture asks for next, or how it ended.
pub ghost enum CaptureStepModel {
    Read,
    Keep(Seq<ParamValue>),
    HandOver,
    AwaitAck,
    Stored,
    Failed(Seq<char>),
}

/// Where the capture of a board's parameters stands.
pub ghost struct CaptureModel {
    pub board: Seq<char>,
    pub step: CaptureStepModel,
}

impl View for CaptureStep {
    type V = CaptureStepModel;

    open spec fn view(&self) -> CaptureStepModel {
        match self {
            CaptureStep::Read => CaptureStepModel::Read,
            CaptureStep::Keep(values) => CaptureStepModel::Keep(values@),
            CaptureStep::HandOver => CaptureStepModel::HandOver,
            CaptureStep::AwaitAck => CaptureStepModel::AwaitAck,
            CaptureStep::Stored => CaptureStepModel::Stored,
            CaptureStep::Failed(e) => CaptureStepModel::Failed(e@),
        }
    }
}

impl View for Capture {
    type V = CaptureModel;

    closed spec fn view(&self) -> CaptureModel {
        CaptureModel { board: self.board@, step: self.step@ }
    }
}

/// A capture that has not begun.
pub open spec fn capture_begun(board: Seq<char>) -> CaptureModel {
    CaptureModel { board, step: CaptureStepModel::Read }
}

/// The step that the browser's answer leads to.
pub open spec fn step_after_ack(board: Seq<char>, e: AckEvent) -> CaptureStepModel {
    match ack_meaning(board, e) {
        None => CaptureStepModel::AwaitAck,
        Some(Ok(_)) => CaptureStepModel::Stored,
        Some(Err(message)) => CaptureStepModel::Failed(message),
    }
}

/// A capture after an event. One parameter that could not be read fails it: a
/// restore point with a hole is none.
pub open spec fn capture_advanced(c: CaptureModel, e: CaptureEvent) -> CaptureModel {
    match (c.step, e) {
        (CaptureStepModel::Read, CaptureEvent::Read { values, failed }) => CaptureModel {
            step: if failed@.len() == 0 {
                CaptureStepModel::Keep(values@)
            } else {
                CaptureStepModel::Failed(
                    unread_text(param_read::texts(failed@), PROVISIONED_PARAM_COUNT as nat),
                )
            },
            ..c
        },
        (CaptureStepModel::Keep(_), CaptureEvent::Kept) => CaptureModel {
            step: CaptureStepModel::HandOver,
            ..c
        },
        (CaptureStepModel::HandOver, CaptureEvent::HandedOver { received }) => CaptureModel {
            step: if received {
                CaptureStepModel::AwaitAck
            } else {
                CaptureStepModel::Failed(no_browser_text())
            },
            ..c
        },
        (CaptureStepModel::AwaitAck, CaptureEvent::Ack(ack)) => CaptureModel {
            step: step_after_ack(c.board, ack),
            ..c
        },
        _ => c,
    }
}

impl Capture {
    /// Start capturing the parameters of a board.
    pub fn start(board: String) -> (r: Capture)
        ensures
            r@ == capture_begun(board@),
    {
        Capture { board, step: CaptureStep::Read }
    }

    /// The board.
    pub fn board(&self) -> (r: &str)
        ensures
            r@ == self@.board,
    {
        self.board.as_str()
    }

    /// What the capture asks for next.
    pub fn step(&self) -> (r: &CaptureStep)
        ensures
            r@ == self@.step,
    {
        &self.step
    }

    /// Take note of an event.
    pub fn on_event(&mut self, e: CaptureEvent)
        ensures
            final(self)@ == capture_advanced(old(self)@, e),
    {
        match (&self.step, e) {
            (CaptureStep::Read, CaptureEvent::Read { values, failed }) => {
                self.step = if failed.len() == 0 {
                    CaptureStep::Keep(values)
                } else {
                    CaptureStep::Failed(unread_message(&failed, PROVISIONED_PARAM_COUNT))
                };
            },
            (CaptureStep::Keep(_), CaptureEvent::Kept) => {
                self.step = CaptureStep::HandOver;
            },
            (CaptureStep::HandOver, CaptureEvent::HandedOver { received }) => {
                self.step = if received {
                    CaptureStep::AwaitAck
                } else {
                    CaptureStep::Failed(no_browser_message())
                };
            },
            (CaptureStep::AwaitAck, CaptureEvent::Ack(ack)) => {
                match ack_verdict(self.board.as_str(), &ack) {
                    None => {},
                    Some(Ok(_)) => {
                        self.step = CaptureStep::Stored;
                    },
                    Some(Err(message)) => {
                        self.step = CaptureStep::Failed(message);
                    },
                }
            },
            _ => {},
        }
    }
}

/// An answer for another board, or answers that were missed, leave the capture
/// waiting: they neither store nor fail it.
pub proof fn law_an_answer_for_another_board_is_ignored(c: CaptureModel, e: AckEvent)
    requires
        c.step is AwaitAck,
        e is Lagged || (e matches AckEvent::Acked(ack) && ack.board_identity@ != c.board),
    ensures
        capture_advanced(c, CaptureEvent::Ack(e)) == c,
{
}

/// A capture reads everything, keeps it, hands it over and waits for the answer,
/// in that order; only the answer that it is stored completes it.
pub proof fn law_the_course_of_a_capture(
    board: Seq<char>,
    values: Vec<ParamValue>,
    failed: Vec<String>,
    ack: SnapshotStored,
)
    requires
        failed@.len() == 0,
        ack.board_identity@ == board,
        ack.stored,
    ensures
        ({
            let begun = capture_begun(board);
            let read = capture_advanced(begun, CaptureEvent::Read { values, failed });
            let kept = capture_advanced(read, CaptureEvent::Kept);
            let handed = capture_advanced(kept, CaptureEvent::HandedOver { received: true });
            let stored = capture_advanced(handed, CaptureEvent::Ack(AckEvent::Acked(ack)));
            &&& begun.step is Read
            &&& read.step == CaptureStepModel::Keep(values@)
            &&& kept.step is HandOver
            &&& handed.step is AwaitAck
            &&& stored.step is Stored
            &&& stored.board == board
        }),
{
}

/// Nothing but the browser's answer that this board's snapshot is stored
/// completes a capture, and only while that answer is being waited for.
pub proof fn law_only_a_stored_answer_completes_a_capture(c: CaptureModel, e: CaptureEvent)
    requires
        !(c.step is Stored),
    ensures
        capture_advanced(c, e).step is Stored <==> c.step is AwaitAck && (
        e matches CaptureEvent::Ack(AckEvent::Acked(ack)) && ack.board_identity@ == c.board
            && ack.stored),
        capture_advanced(c, e).board == c.board,
{
}

/// A capture fails when a parameter could not be read, when no browser takes the
/// snapshot, and when the browser answers that it could not store it, is gone,
/// or does not answer in time.
pub proof fn law_what_fails_a_capture(c: CaptureModel, e: CaptureEvent)
    requires
        !(c.step is Failed),
    ensures
        capture_advanced(c, e).step is Failed <==> {
            ||| c.step is Read && (e matches CaptureEvent::Read { failed, .. } && failed@.len() > 0)
            ||| c.step is HandOver && (e matches CaptureEvent::HandedOver { received } && !received)
            ||| c.step is AwaitAck && (e matches CaptureEvent::Ack(a) && (a is Closed
                || a is TimedOut || (a matches AckEvent::Acked(ack) && ack.board_identity@
                == c.board && !ack.stored)))
        },
{
}

/// An entry of a snapshot has the name of its parameter, and says of its type
/// whether it is an integer.
pub proof fn law_an_entry_names_the_type(p: SnapshotParam, v: ParamValue)
    requires
        records(p, v),
    ensures
        p.name@ == v.name@,
        p.param_type@ == "int32"@ <==> v.param_type.integer(),
        p.param_type@ == "real32"@ <==> v.param_type is Real32 || v.param_type is Real64,
        !v.param_type.integer() ==> p.value == v.value,
{
    reveal_strlit("int32");
    reveal_strlit("real32");
    assert("real32"@.len() == 6);
    assert("int32"@.len() == 5);
}

/// The failure of a capture says why: how many and which parameters could not be
/// read, or what the browser gave as its reason.
pub proof fn law_a_failed_capture_says_why(
    c: CaptureModel,
    values: Vec<ParamValue>,
    failed: Vec<String>,
    ack: SnapshotStored,
    reason: String,
)
    requires
        failed@.len() > 0,
        ack.board_identity@ == c.board,
        !ack.stored,
        ack.error == Some(reason),
    ensures
        c.step is Read ==> (capture_advanced(c, CaptureEvent::Read { values, failed }).step
            matches CaptureStepModel::Failed(m) && text::occurs(
            m,
            text::joined(param_read::texts(failed@)),
        ) && text::occurs(m, text::decimal(failed@.len()))),
        c.step is AwaitAck ==> (capture_advanced(
            c,
            CaptureEvent::Ack(AckEvent::Acked(ack)),
        ).step matches CaptureStepModel::Failed(m) && text::occurs(m, reason@)),
{
    let names = text::joined(param_read::texts(failed@));
    let m = unread_text(param_read::texts(failed@), PROVISIONED_PARAM_COUNT as nat);
    let n = text::decimal(failed@.len());
    assert(param_read::texts(failed@).len() == failed@.len());
    let head = "Could not read "@ + n + " of "@ + text::decimal(PROVISIONED_PARAM_COUNT as nat)
        + " parameters from the flight controller ("@;
    text::law_a_part_occurs_in_the_whole(head, names, "). Nothing was changed."@);
    assert(m =~= head + names + "). Nothing was changed."@);
    let tail = " of "@ + text::decimal(PROVISIONED_PARAM_COUNT as nat)
        + " parameters from the flight controller ("@ + names + "). Nothing was changed."@;
    text::law_a_part_occurs_in_the_whole("Could not read "@, n, tail);
    assert(m =~= "Could not read "@ + n + tail);
    text::law_a_part_occurs_in_the_whole(
        "The browser could not save the restore point ("@,
        reason@,
        "). Nothing was changed."@,
    );
}

/// What could not be read is counted and named, out of how many.
pub proof fn law_what_could_not_be_read_is_named(failed: Seq<Seq<char>>, total: nat)
    ensures
        unread_text(failed, total) == "Could not read "@ + text::decimal(failed.len()) + " of "@
            + text::decimal(total) + " parameters from the flight controller ("@ + text::joined(
            failed,
        ) + "). Nothing was changed."@,
{
}

/// A browser that could not store the restore point is quoted, if it gave a
/// reason.
pub proof fn law_a_reason_given_is_passed_on(ack: SnapshotStored)
    ensures
        ack.error matches Some(e) ==> given_reason(ack) == e@,
        ack.error is None ==> given_reason(ack) == "no reason given"@,
{
}

/// An outcome keeps its side: success has nothing to say, and a failure says
/// what its message says.
pub proof fn law_an_outcome_keeps_its_side(r: Result<(), String>)
    ensures
        r is Ok <==> outcome_text(r) is Ok,
        r matches Err(e) ==> outcome_text(r) == Err::<(), Seq<char>>(e@),
{
}

} // verus!
