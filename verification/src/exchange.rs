//! Requests to the flight controller that are repeated until confirmed.
//!
//! The link is lossy and its send queue can be full, so every write and every
//! read is an exchange of several attempts: queue the request, wait for the
//! confirmation, start over when it does not come. The machines here hold the
//! bookkeeping; the caller queues, sleeps and waits as they ask.
use crate::ieee::Real32;
use crate::param_io;
use crate::param_io::{i32_bits, make_param_set, make_param_set_i32, ParamSet, ParamValue};
use crate::text;
use crate::text::{push_decimal, same_text};
use vstd::prelude::*;

verus! {

/// Wait after a full send queue before the next attempt.
pub const FULL_QUEUE_PAUSE_MS: u64 = 50;

/// Largest difference between a written and an echoed number that still
/// confirms the write: 0.0001, as a bit pattern.
pub const PARAM_ACK_EPSILON: u32 = 0x38d1_b717;

/// How long to wait for one write to be echoed.
pub const PARAM_ACK_TIMEOUT_MS: u64 = 800;

/// Attempts per written parameter.
pub const PARAM_RETRY_COUNT: u8 = 3;

/// What became of a request handed to the send queue.
#[derive(Clone, Copy, Debug, PartialEq, Eq, Structural)]
pub enum SendOutcome {
    /// It is on its way.
    Queued,
    /// The queue is full.
    Full,
    /// The writer is gone.
    Disconnected,
}

/// What happened to an exchange.
#[derive(Clone, Copy, Debug, PartialEq, Eq, Structural)]
pub enum ExchangeEvent {
    /// The request was handed to the send queue.
    Sent(SendOutcome),
    /// The pause after a full queue is over.
    PauseOver,
    /// The confirmation arrived. Which report is one, the write or the read
    /// that makes the exchange decides.
    Confirmed,
    /// It did not arrive in time.
    TimedOut,
}

/// What an exchange asks for next, or how it ended.
#[derive(Clone, Copy, Debug, PartialEq, Eq, Structural)]
pub enum ExchangeStep {
    /// Hand the request to the send queue.
    Send,
    /// Sleep, then report that the pause is over.
    Pause,
    /// Wait for the confirmation.
    Await,
    /// Confirmed.
    Confirmed,
    /// Every attempt used up.
    Unconfirmed,
    /// The writer is gone.
    LinkClosed,
}

/// One request with its attempts.
#[derive(Clone, Copy, Debug, PartialEq, Eq, Structural)]
pub struct Exchange {
    /// Number of the attempt under way, from 1.
    pub attempt: u8,
    /// Attempts allowed.
    pub budget: u8,
    /// What comes next.
    pub step: ExchangeStep,
}

/// A fresh exchange.
pub open spec fn fresh(budget: u8) -> Exchange {
    Exchange {
        attempt: 1,
        budget,
        step: if budget == 0 {
            ExchangeStep::Unconfirmed
        } else {
            ExchangeStep::Send
        },
    }
}

/// The attempt after this one, if the budget allows one.
pub open spec fn next_attempt(x: Exchange) -> Exchange {
    if x.attempt < x.budget {
        Exchange { attempt: (x.attempt + 1) as u8, step: ExchangeStep::Send, ..x }
    } else {
        Exchange { step: ExchangeStep::Unconfirmed, ..x }
    }
}

/// An exchange after an event. An event the exchange does not wait for changes
/// nothing.
pub open spec fn advanced(x: Exchange, e: ExchangeEvent) -> Exchange {
    match (x.step, e) {
        (ExchangeStep::Send, ExchangeEvent::Sent(SendOutcome::Queued)) => Exchange {
            step: ExchangeStep::Await,
            ..x
        },
        (ExchangeStep::Send, ExchangeEvent::Sent(SendOutcome::Full)) => Exchange {
            step: ExchangeStep::Pause,
            ..x
        },
        (ExchangeStep::Send, ExchangeEvent::Sent(SendOutcome::Disconnected)) => Exchange {
            step: ExchangeStep::LinkClosed,
            ..x
        },
        (ExchangeStep::Pause, ExchangeEvent::PauseOver) => next_attempt(x),
        (ExchangeStep::Await, ExchangeEvent::Confirmed) => Exchange {
            step: ExchangeStep::Confirmed,
            ..x
        },
        (ExchangeStep::Await, ExchangeEvent::TimedOut) => next_attempt(x),
        _ => x,
    }
}

/// Whether an exchange has ended.
pub open spec fn ended(x: Exchange) -> bool {
    x.step is Confirmed || x.step is Unconfirmed || x.step is LinkClosed
}

impl Exchange {
    /// Start an exchange of at most `budget` attempts.
    pub fn start(budget: u8) -> (r: Exchange)
        ensures
            r == fresh(budget),
    {
        Exchange {
            attempt: 1,
            budget,
            step: if budget == 0 {
                ExchangeStep::Unconfirmed
            } else {
                ExchangeStep::Send
            },
        }
    }

    fn try_again(&mut self)
        ensures
            *final(self) == next_attempt(*old(self)),
    {
        if self.attempt < self.budget {
            self.attempt = self.attempt + 1;
            self.step = ExchangeStep::Send;
        } else {
            self.step = ExchangeStep::Unconfirmed;
        }
    }

    /// Take note of an event.
    pub fn on_event(&mut self, e: ExchangeEvent)
        ensures
            *final(self) == advanced(*old(self), e),
    {
        match (self.step, e) {
            (ExchangeStep::Send, ExchangeEvent::Sent(SendOutcome::Queued)) => {
                self.step = ExchangeStep::Await;
            },
            (ExchangeStep::Send, ExchangeEvent::Sent(SendOutcome::Full)) => {
                self.step = ExchangeStep::Pause;
            },
            (ExchangeStep::Send, ExchangeEvent::Sent(SendOutcome::Disconnected)) => {
                self.step = ExchangeStep::LinkClosed;
            },
            (ExchangeStep::Pause, ExchangeEvent::PauseOver) => {
                self.try_again();
            },
            (ExchangeStep::Await, ExchangeEvent::Confirmed) => {
                self.step = ExchangeStep::Confirmed;
            },
            (ExchangeStep::Await, ExchangeEvent::TimedOut) => {
                self.try_again();
            },
            _ => {},
        }
    }
}

/// An exchange after a run of events.
pub open spec fn exchanged(budget: u8, events: Seq<ExchangeEvent>) -> Exchange
    decreases events.len(),
{
    if events.len() == 0 {
        fresh(budget)
    } else {
        advanced(exchanged(budget, events.drop_last()), events.last())
    }
}

/// How often the request was handed to the send queue in a run of events.
pub open spec fn times_sent(budget: u8, events: Seq<ExchangeEvent>) -> nat
    decreases events.len(),
{
    if events.len() == 0 {
        0
    } else {
        let before = exchanged(budget, events.drop_last());
        let sent = times_sent(budget, events.drop_last());
        if before.step is Send && events.last() is Sent {
            sent + 1
        } else {
            sent
        }
    }
}

/// Whatever happens, the request goes out at most as often as the budget
/// allows.
pub proof fn law_attempts_stay_within_the_budget(budget: u8, events: Seq<ExchangeEvent>)
    ensures
        times_sent(budget, events) <= budget,
{
    lemma_attempts(budget, events);
}

proof fn lemma_attempts(budget: u8, events: Seq<ExchangeEvent>)
    ensures
        ({
            let x = exchanged(budget, events);
            let n = times_sent(budget, events);
            &&& x.budget == budget
            &&& budget == 0 ==> n == 0 && x.step is Unconfirmed
            &&& budget > 0 ==> 1 <= x.attempt <= budget && n == if x.step is Send {
                x.attempt - 1
            } else {
                x.attempt as int
            }
        }),
    decreases events.len(),
{
    if events.len() > 0 {
        lemma_attempts(budget, events.drop_last());
    }
}

/// The value of a parameter write.
#[derive(Clone, Copy, Debug, PartialEq, Eq, Structural)]
pub enum WriteValue {
    /// An integer parameter.
    Int(i32),
    /// A floating-point parameter.
    Number(Real32),
}

/// A parameter to write.
#[derive(Clone, Debug)]
pub struct ParamWrite {
    /// Name.
    pub name: String,
    /// Value, with the type the autopilot declares.
    pub value: WriteValue,
}

/// A parameter to write.
pub ghost struct WriteModel {
    pub name: Seq<char>,
    pub value: WriteValue,
}

impl View for ParamWrite {
    type V = WriteModel;

    open spec fn view(&self) -> WriteModel {
        WriteModel { name: self.name@, value: self.value }
    }
}

/// The parameters of a list of writes.
pub open spec fn write_models(writes: Seq<ParamWrite>) -> Seq<WriteModel> {
    writes.map_values(|w: ParamWrite| w@)
}

/// Whether an echoed parameter confirms a write. An integer comes back as its
/// bits and is compared as such; a number is `distance` away from the one
/// written, and a small distance confirms it.
pub open spec fn confirms(w: WriteModel, echo: ParamValue, distance: Real32) -> bool {
    &&& echo.name@ == w.name
    &&& match w.value {
        WriteValue::Int(n) => param_io::signed_bits(echo.value.bits) == n,
        WriteValue::Number(_) => distance.le(Real32 { bits: PARAM_ACK_EPSILON }),
    }
}

impl ParamWrite {
    /// A write of an integer parameter.
    pub fn integer(name: &str, value: i32) -> (r: ParamWrite)
        ensures
            r@ == (WriteModel { name: name@, value: WriteValue::Int(value) }),
    {
        ParamWrite { name: name.to_owned(), value: WriteValue::Int(value) }
    }

    /// A write of a floating-point parameter.
    pub fn number(name: &str, value: Real32) -> (r: ParamWrite)
        ensures
            r@ == (WriteModel { name: name@, value: WriteValue::Number(value) }),
    {
        ParamWrite { name: name.to_owned(), value: WriteValue::Number(value) }
    }

    /// The message of this write.
    pub fn message(&self) -> (r: ParamSet)
        ensures
            r.target_system == param_io::PX4_TARGET_SYSTEM,
            r.target_component == param_io::PX4_TARGET_COMPONENT,
            r.param_id@ == param_io::padded_id(vstd::utf8::encode_utf8(self.name@)),
            match self.value {
                WriteValue::Int(n) => r.param_type == param_io::ParamType::Int32
                    && param_io::signed_bits(r.param_value.bits) == n,
                WriteValue::Number(v) => r.param_type == param_io::ParamType::Real32
                    && r.param_value == v,
            },
    {
        match self.value {
            WriteValue::Int(n) => make_param_set_i32(self.name.as_str(), n),
            WriteValue::Number(v) => make_param_set(self.name.as_str(), v),
        }
    }

    /// What an event means for the exchange of this write.
    pub fn meaning(&self, e: &WriteEvent) -> (r: Option<ExchangeEvent>)
        ensures
            r == write_meaning(self@, *e),
    {
        match e {
            WriteEvent::Sent(outcome) => Some(ExchangeEvent::Sent(*outcome)),
            WriteEvent::PauseOver => Some(ExchangeEvent::PauseOver),
            WriteEvent::Echo { report, distance } => {
                if self.confirmed_by(report, *distance) {
                    Some(ExchangeEvent::Confirmed)
                } else {
                    None
                }
            },
            WriteEvent::Lagged => Some(ExchangeEvent::TimedOut),
            WriteEvent::Closed => Some(ExchangeEvent::TimedOut),
            WriteEvent::TimedOut => Some(ExchangeEvent::TimedOut),
        }
    }

    /// Whether an echoed parameter, `distance` away from the number written,
    /// confirms this write.
    pub fn confirmed_by(&self, echo: &ParamValue, distance: Real32) -> (r: bool)
        ensures
            r == confirms(self@, *echo, distance),
    {
        if !same_text(echo.name.as_str(), self.name.as_str()) {
            return false;
        }
        match self.value {
            WriteValue::Int(n) => {
                let bits: u32 = i32_bits(n);
                echo.value.bits == bits
            },
            WriteValue::Number(_) => distance.at_most(Real32::from_bits(PARAM_ACK_EPSILON)),
        }
    }
}

/// What happened to a push.
#[derive(Clone, Debug)]
pub enum WriteEvent {
    /// The write was handed to the send queue.
    Sent(SendOutcome),
    /// The pause after a full queue is over.
    PauseOver,
    /// The board reported a parameter: any one, and for a number how far it
    /// lies from the number written.
    Echo { report: ParamValue, distance: Real32 },
    /// Some reports were missed. The echo may have been among them, so it
    /// counts as not having come.
    Lagged,
    /// There will be no more reports.
    Closed,
    /// No echo came in time.
    TimedOut,
}

/// Whether an event is the echo that confirms a write.
pub open spec fn echoes_write(w: WriteModel, e: WriteEvent) -> bool {
    e matches WriteEvent::Echo { report, distance } && confirms(w, report, distance)
}

/// What an event means for the exchange of a write; a report that does not
/// confirm it means nothing.
pub open spec fn write_meaning(w: WriteModel, e: WriteEvent) -> Option<ExchangeEvent> {
    match e {
        WriteEvent::Sent(outcome) => Some(ExchangeEvent::Sent(outcome)),
        WriteEvent::PauseOver => Some(ExchangeEvent::PauseOver),
        WriteEvent::Echo { report, distance } => if confirms(w, report, distance) {
            Some(ExchangeEvent::Confirmed)
        } else {
            None
        },
        WriteEvent::Lagged => Some(ExchangeEvent::TimedOut),
        WriteEvent::Closed => Some(ExchangeEvent::TimedOut),
        WriteEvent::TimedOut => Some(ExchangeEvent::TimedOut),
    }
}

/// A list of parameters written one after another, each confirmed before the
/// next.
#[derive(Debug)]
pub struct ParamPush {
    writes: Vec<ParamWrite>,
    index: usize,
    exchange: Exchange,
}

/// What a push asks for next, or how it ended. Indices are into the list.
#[derive(Clone, Copy, Debug, PartialEq, Eq, Structural)]
pub enum PushStep {
    /// Hand this write to the send queue.
    Send(usize),
    /// Sleep, then report that the pause is over.
    Pause,
    /// Wait for this write to be echoed.
    Await(usize),
    /// Every write was confirmed.
    Done,
    /// This write was never confirmed.
    Unconfirmed(usize),
    /// The writer was gone when this write was due.
    LinkClosed(usize),
}

/// Where a push stands.
pub ghost struct PushModel {
    pub writes: Seq<WriteModel>,
    pub index: int,
    pub exchange: Exchange,
}

impl View for ParamPush {
    type V = PushModel;

    closed spec fn view(&self) -> PushModel {
        PushModel {
            writes: write_models(self.writes@),
            index: self.index as int,
            exchange: self.exchange,
        }
    }
}

/// A push that has not begun.
pub open spec fn push_begun(writes: Seq<WriteModel>) -> PushModel {
    PushModel { writes, index: 0, exchange: fresh(PARAM_RETRY_COUNT) }
}

/// A push after an event. A write that is confirmed makes way for the next one;
/// a report that does not confirm the write under way changes nothing.
pub open spec fn push_advanced(p: PushModel, e: WriteEvent) -> PushModel {
    if p.index >= p.writes.len() {
        p
    } else {
        match write_meaning(p.writes[p.index], e) {
            None => p,
            Some(x) => {
                let next = advanced(p.exchange, x);
                if next.step is Confirmed {
                    PushModel { index: p.index + 1, exchange: fresh(PARAM_RETRY_COUNT), ..p }
                } else {
                    PushModel { exchange: next, ..p }
                }
            },
        }
    }
}

/// What a push asks for next.
pub open spec fn push_step(p: PushModel) -> PushStep {
    let i = p.index as usize;
    if p.index >= p.writes.len() {
        PushStep::Done
    } else {
        match p.exchange.step {
            ExchangeStep::Send => PushStep::Send(i),
            ExchangeStep::Pause => PushStep::Pause,
            ExchangeStep::Await => PushStep::Await(i),
            ExchangeStep::Confirmed => PushStep::Done,
            ExchangeStep::Unconfirmed => PushStep::Unconfirmed(i),
            ExchangeStep::LinkClosed => PushStep::LinkClosed(i),
        }
    }
}

/// What holds of every push: it stands within its list, and a confirmed
/// exchange is never kept.
pub open spec fn push_invariant(p: PushModel) -> bool {
    &&& 0 <= p.index <= p.writes.len() <= usize::MAX
    &&& p.exchange.budget == PARAM_RETRY_COUNT
    &&& !(p.exchange.step is Confirmed)
}

impl ParamPush {
    /// Start pushing a list of writes.
    pub fn start(writes: Vec<ParamWrite>) -> (r: ParamPush)
        ensures
            r@ == push_begun(write_models(writes@)),
            push_invariant(r@),
    {
        let n: usize = writes.len();
        let r = ParamPush { writes, index: 0, exchange: Exchange::start(PARAM_RETRY_COUNT) };
        assert(r@.writes.len() == n);
        r
    }

    /// Take note of an event.
    pub fn on_event(&mut self, e: &WriteEvent)
        requires
            push_invariant(old(self)@),
        ensures
            final(self)@ == push_advanced(old(self)@, *e),
            push_invariant(final(self)@),
    {
        if self.index >= self.writes.len() {
            return;
        }
        if let Some(x) = self.writes[self.index].meaning(e) {
            self.exchange.on_event(x);
            if self.exchange.step == ExchangeStep::Confirmed {
                self.index = self.index + 1;
                self.exchange = Exchange::start(PARAM_RETRY_COUNT);
            }
        }
    }

    /// What the push asks for next.
    pub fn step(&self) -> (r: PushStep)
        ensures
            r == push_step(self@),
    {
        if self.index >= self.writes.len() {
            return PushStep::Done;
        }
        match self.exchange.step {
            ExchangeStep::Send => PushStep::Send(self.index),
            ExchangeStep::Pause => PushStep::Pause,
            ExchangeStep::Await => PushStep::Await(self.index),
            ExchangeStep::Confirmed => PushStep::Done,
            ExchangeStep::Unconfirmed => PushStep::Unconfirmed(self.index),
            ExchangeStep::LinkClosed => PushStep::LinkClosed(self.index),
        }
    }

    /// The write at an index of the list.
    pub fn write_at(&self, index: usize) -> (r: &ParamWrite)
        requires
            index < self@.writes.len(),
        ensures
            r@ == self@.writes[index as int],
    {
        &self.writes[index]
    }
}

/// The message for a write whose link closed.
pub open spec fn link_closed_text(name: Seq<char>) -> Seq<char> {
    "MAVLink tx disconnected while sending "@ + name
}

/// The message for a write whose link closed.
pub fn link_closed_message(name: &str) -> (r: String)
    ensures
        r@ == link_closed_text(name@),
{
    let mut out: String = "MAVLink tx disconnected while sending ".to_owned();
    out.append(name);
    out
}

/// The message for a write that was never confirmed.
pub open spec fn unconfirmed_text(name: Seq<char>) -> Seq<char> {
    "Failed to verify "@ + name + " after "@ + text::decimal(PARAM_RETRY_COUNT as nat)
        + " retries"@
}

/// The message for a write that was never confirmed.
pub fn unconfirmed_message(name: &str) -> (r: String)
    ensures
        r@ == unconfirmed_text(name@),
{
    let mut out: String = "Failed to verify ".to_owned();
    out.append(name);
    out.append(" after ");
    push_decimal(&mut out, PARAM_RETRY_COUNT as u64);
    out.append(" retries");
    out
}

/// A push after a run of events.
pub open spec fn pushed(writes: Seq<WriteModel>, events: Seq<WriteEvent>) -> PushModel
    decreases events.len(),
{
    if events.len() == 0 {
        push_begun(writes)
    } else {
        push_advanced(pushed(writes, events.drop_last()), events.last())
    }
}

/// Whether the first `n` writes were each confirmed by an echo of their own, in
/// the order of the list.
pub open spec fn confirmed_in_order(
    writes: Seq<WriteModel>,
    n: int,
    events: Seq<WriteEvent>,
) -> bool
    decreases n,
{
    n <= 0 || exists|k: int|
        0 <= k < events.len() && #[trigger] echoes_write(writes[n - 1], events[k])
            && confirmed_in_order(writes, n - 1, events.take(k))
}

/// A write is due only when every write before it was confirmed, each by an
/// echo of its own.
pub proof fn law_a_write_waits_for_those_before_it(
    writes: Seq<WriteModel>,
    events: Seq<WriteEvent>,
)
    requires
        writes.len() <= usize::MAX,
    ensures
        confirmed_in_order(writes, pushed(writes, events).index, events),
{
    lemma_pushed(writes, events);
}

/// A push is done only when every write was confirmed, each by an echo of its
/// own.
pub proof fn law_a_push_is_done_only_when_every_write_was_confirmed(
    writes: Seq<WriteModel>,
    events: Seq<WriteEvent>,
)
    requires
        writes.len() <= usize::MAX,
        push_step(pushed(writes, events)) is Done,
    ensures
        confirmed_in_order(writes, writes.len() as int, events),
{
    lemma_pushed(writes, events);
}

/// A report of another parameter, or of a value that is not the one written,
/// changes nothing.
pub proof fn law_only_its_echo_confirms_a_write(p: PushModel, report: ParamValue, distance: Real32)
    requires
        push_invariant(p),
        p.index < p.writes.len(),
        !confirms(p.writes[p.index], report, distance),
    ensures
        push_advanced(p, WriteEvent::Echo { report, distance }) == p,
{
}

proof fn lemma_pushed(writes: Seq<WriteModel>, events: Seq<WriteEvent>)
    requires
        writes.len() <= usize::MAX,
    ensures
        push_invariant(pushed(writes, events)),
        pushed(writes, events).writes == writes,
        confirmed_in_order(writes, pushed(writes, events).index, events),
    decreases events.len(),
{
    if events.len() > 0 {
        let before = events.drop_last();
        lemma_pushed(writes, before);
        let p = pushed(writes, before);
        let n = pushed(writes, events).index;
        if n == p.index {
            if n > 0 {
                let k = choose|k: int|
                    0 <= k < before.len() && #[trigger] echoes_write(writes[n - 1], before[k])
                        && confirmed_in_order(writes, n - 1, before.take(k));
                assert(events[k] == before[k]);
                assert(events.take(k) =~= before.take(k));
                assert(echoes_write(writes[n - 1], events[k]));
            }
        } else {
            let k = events.len() - 1;
            assert(events.take(k) =~= before);
            assert(echoes_write(writes[n - 1], events[k]));
        }
    }
}

/// Nothing but a confirmation that is being waited for confirms a request, and
/// it is being waited for only once the request was queued.
pub proof fn law_only_an_awaited_confirmation_confirms(x: Exchange, e: ExchangeEvent)
    requires
        !(x.step is Confirmed),
    ensures
        advanced(x, e).step is Confirmed <==> x.step is Await && e is Confirmed,
        advanced(x, e).step is Await ==> x.step is Await || (x.step is Send && e
            == ExchangeEvent::Sent(SendOutcome::Queued)),
{
}

/// A request that was not confirmed in time, or found the queue full, goes out
/// again until its attempts are used up, and only then is it given up.
pub proof fn law_a_request_is_repeated_until_its_attempts_are_used_up(x: Exchange)
    requires
        1 <= x.attempt,
    ensures
        x.step is Await && x.attempt < x.budget ==> advanced(x, ExchangeEvent::TimedOut).step
            is Send && advanced(x, ExchangeEvent::TimedOut).attempt == x.attempt + 1,
        x.step is Await && x.attempt >= x.budget ==> advanced(x, ExchangeEvent::TimedOut).step
            is Unconfirmed,
        x.step is Send ==> advanced(x, ExchangeEvent::Sent(SendOutcome::Full)).step is Pause,
        x.step is Pause && x.attempt < x.budget ==> advanced(x, ExchangeEvent::PauseOver).step
            is Send && advanced(x, ExchangeEvent::PauseOver).attempt == x.attempt + 1,
        x.step is Pause && x.attempt >= x.budget ==> advanced(x, ExchangeEvent::PauseOver).step
            is Unconfirmed,
        x.step is Send ==> advanced(x, ExchangeEvent::Sent(SendOutcome::Disconnected)).step
            is LinkClosed,
        x.step is Send ==> advanced(x, ExchangeEvent::Sent(SendOutcome::Queued)).step is Await,
{
}

/// An exchange that has ended stays as it ended, and its budget never changes.
pub proof fn law_an_exchange_that_has_ended_stays_so(x: Exchange, e: ExchangeEvent)
    ensures
        x.step is Confirmed || x.step is Unconfirmed || x.step is LinkClosed ==> advanced(x, e)
            == x,
        advanced(x, e).budget == x.budget,
        advanced(x, e).attempt == x.attempt || advanced(x, e).attempt == x.attempt + 1,
{
}

/// A request that always times out is sent exactly as often as its budget
/// allows, and is then given up.
pub proof fn law_an_unanswered_request_uses_its_whole_budget(budget: u8, n: nat)
    requires
        n < budget,
    ensures
        exchanged(budget, unanswered(n)).step is Send,
        exchanged(budget, unanswered(n)).attempt == n + 1,
        times_sent(budget, unanswered(n)) == n,
        exchanged(budget, unanswered(budget as nat)).step is Unconfirmed,
        times_sent(budget, unanswered(budget as nat)) == budget,
    decreases budget - n,
{
    lemma_unanswered(budget, n);
    lemma_unanswered(budget, (budget - 1) as nat);
    lemma_unanswered_step(budget, (budget - 1) as nat);
}

/// The events of a request that is queued and times out, `n` times.
pub open spec fn unanswered(n: nat) -> Seq<ExchangeEvent>
    decreases n,
{
    if n == 0 {
        Seq::empty()
    } else {
        unanswered((n - 1) as nat).push(ExchangeEvent::Sent(SendOutcome::Queued)).push(
            ExchangeEvent::TimedOut,
        )
    }
}

proof fn lemma_unanswered_step(budget: u8, n: nat)
    ensures
        exchanged(budget, unanswered(n + 1)) == advanced(
            advanced(
                exchanged(budget, unanswered(n)),
                ExchangeEvent::Sent(SendOutcome::Queued),
            ),
            ExchangeEvent::TimedOut,
        ),
        times_sent(budget, unanswered(n + 1)) == times_sent(budget, unanswered(n)) + if exchanged(
            budget,
            unanswered(n),
        ).step is Send {
            1nat
        } else {
            0nat
        },
{
    let before = unanswered(n);
    let sent = before.push(ExchangeEvent::Sent(SendOutcome::Queued));
    let all = sent.push(ExchangeEvent::TimedOut);
    assert(unanswered(n + 1) =~= all);
    assert(all.drop_last() =~= sent);
    assert(sent.drop_last() =~= before);
    reveal_with_fuel(times_sent, 3);
    reveal_with_fuel(exchanged, 3);
}

proof fn lemma_unanswered(budget: u8, n: nat)
    requires
        n < budget,
    ensures
        exchanged(budget, unanswered(n)).step is Send,
        exchanged(budget, unanswered(n)).attempt == n + 1,
        exchanged(budget, unanswered(n)).budget == budget,
        times_sent(budget, unanswered(n)) == n,
    decreases n,
{
    if n > 0 {
        lemma_unanswered(budget, (n - 1) as nat);
        lemma_unanswered_step(budget, (n - 1) as nat);
    }
}

/// An echo confirms a write only under the same name: an integer by the same
/// bits, a number by lying no further than 0.0001 from the one written.
pub proof fn law_what_confirms_a_write(w: WriteModel, echo: ParamValue, distance: Real32)
    ensures
        echo.name@ != w.name ==> !confirms(w, echo, distance),
        w.value matches WriteValue::Int(n) ==> (echo.name@ == w.name ==> (confirms(
            w,
            echo,
            distance,
        ) <==> echo.value.bits == n || echo.value.bits == n + 0x1_0000_0000)),
        w.value is Number && echo.name@ == w.name ==> (confirms(w, echo, distance)
            <==> distance.le(Real32 { bits: 0x38d1_b717 })),
{
}

/// Reports that were missed, and the end of reports, count as an echo that did
/// not come.
pub proof fn law_missed_reports_count_as_no_echo(w: WriteModel, o: SendOutcome)
    ensures
        write_meaning(w, WriteEvent::Lagged) == Some(ExchangeEvent::TimedOut),
        write_meaning(w, WriteEvent::Closed) == Some(ExchangeEvent::TimedOut),
        write_meaning(w, WriteEvent::TimedOut) == Some(ExchangeEvent::TimedOut),
        write_meaning(w, WriteEvent::PauseOver) == Some(ExchangeEvent::PauseOver),
        write_meaning(w, WriteEvent::Sent(o)) == Some(ExchangeEvent::Sent(o)),
{
}

/// An awaited echo moves a push on to the next write, which gets three attempts
/// of its own; the push is done with the last.
pub proof fn law_an_echo_moves_a_push_on(p: PushModel, report: ParamValue, distance: Real32)
    requires
        push_invariant(p),
        p.index < p.writes.len(),
        p.exchange.step is Await,
        confirms(p.writes[p.index], report, distance),
    ensures
        ({
            let next = push_advanced(p, WriteEvent::Echo { report, distance });
            &&& next.writes == p.writes
            &&& next.index == p.index + 1
            &&& next.exchange.budget == 3
            &&& next.exchange.attempt == 1
            &&& next.exchange.step is Send
            &&& p.index + 1 < p.writes.len() ==> push_step(next) == PushStep::Send(
                (p.index + 1) as usize,
            )
            &&& p.index + 1 == p.writes.len() ==> push_step(next) is Done
        }),
{
}

/// A push starts with the first write, three attempts before it, and names the
/// write that it stands at however it ends.
pub proof fn law_a_push_names_the_write_it_stands_at(
    writes: Seq<WriteModel>,
    p: PushModel,
)
    requires
        0 < writes.len() <= usize::MAX,
        push_invariant(p),
        p.index < p.writes.len(),
    ensures
        push_step(push_begun(writes)) == PushStep::Send(0),
        push_begun(writes).writes == writes,
        push_begun(writes).exchange.budget == 3,
        push_begun(Seq::empty()).writes.len() == 0,
        push_step(push_begun(Seq::empty())) is Done,
        push_step(p) is Send <==> p.exchange.step is Send,
        push_step(p) is Await <==> p.exchange.step is Await,
        push_step(p) is Pause <==> p.exchange.step is Pause,
        push_step(p) is Unconfirmed <==> p.exchange.step is Unconfirmed,
        push_step(p) is LinkClosed <==> p.exchange.step is LinkClosed,
        !(push_step(p) is Done),
        push_step(p) matches PushStep::Send(i) ==> i == p.index,
        push_step(p) matches PushStep::Await(i) ==> i == p.index,
        push_step(p) matches PushStep::Unconfirmed(i) ==> i == p.index,
        push_step(p) matches PushStep::LinkClosed(i) ==> i == p.index,
{
}

/// An exchange begins by sending, on its first attempt; without any attempt to
/// make it has failed at once.
pub proof fn law_how_an_exchange_begins(budget: u8)
    ensures
        fresh(budget).attempt == 1,
        fresh(budget).budget == budget,
        budget > 0 ==> fresh(budget).step is Send,
        budget == 0 ==> fresh(budget).step is Unconfirmed,
{
}

} // verus!
