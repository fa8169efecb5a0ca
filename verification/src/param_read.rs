//! Reading parameters off the flight controller.
//!
//! A read is an exchange: the request may find the queue full, the reply may
//! not come. Reading a list keeps going after a miss, because the caller needs
//! every failure to tell the user what could not be captured.
use crate::exchange;
use crate::exchange::{Exchange, ExchangeEvent, ExchangeStep, SendOutcome};
use crate::param_io::{
    answers_read, make_param_request_read, ParamReadError, ParamReadPolicy, ParamRequestRead,
    ParamValue,
};
use vstd::prelude::*;

verus! {

/// What happened to a read.
#[derive(Clone, Debug)]
pub enum ReadEvent {
    /// The request was handed to the send queue.
    Sent(SendOutcome),
    /// The pause after a full queue is over.
    PauseOver,
    /// A parameter report arrived, of this parameter or another.
    Report(ParamValue),
    /// No more reports in time.
    TimedOut,
}

/// The read of one parameter.
#[derive(Debug)]
pub struct ParamRead {
    name: String,
    exchange: Exchange,
    value: Option<ParamValue>,
}

/// Where a read stands.
pub ghost struct ReadModel {
    pub name: Seq<char>,
    pub exchange: Exchange,
    pub value: Option<ParamValue>,
}

impl View for ParamRead {
    type V = ReadModel;

    closed spec fn view(&self) -> ReadModel {
        ReadModel { name: self.name@, exchange: self.exchange, value: self.value }
    }
}

/// What an event of a read of `name` means for its exchange. A report of
/// another parameter means nothing.
pub open spec fn read_meaning(name: Seq<char>, e: ReadEvent) -> Option<ExchangeEvent> {
    match e {
        ReadEvent::Sent(outcome) => Some(ExchangeEvent::Sent(outcome)),
        ReadEvent::PauseOver => Some(ExchangeEvent::PauseOver),
        ReadEvent::Report(v) => if v.name@ == name {
            Some(ExchangeEvent::Confirmed)
        } else {
            None
        },
        ReadEvent::TimedOut => Some(ExchangeEvent::TimedOut),
    }
}

/// A read after an event.
pub open spec fn read_advanced(r: ReadModel, e: ReadEvent) -> ReadModel {
    match read_meaning(r.name, e) {
        None => r,
        Some(x) => ReadModel {
            exchange: exchange::advanced(r.exchange, x),
            value: if r.exchange.step is Await && e is Report {
                Some(e->Report_0)
            } else {
                r.value
            },
            ..r
        },
    }
}

/// What holds of every read: it has a value exactly when it was confirmed, and
/// the value is of the parameter asked for.
pub open spec fn read_invariant(r: ReadModel) -> bool {
    &&& r.exchange.step is Confirmed <==> r.value is Some
    &&& r.value matches Some(v) ==> v.name@ == r.name
}

/// How a read ended.
pub open spec fn read_outcome(r: ReadModel) -> Result<ParamValue, ParamReadError> {
    match r.value {
        Some(v) => Ok(v),
        None => Err(
            if r.exchange.step is LinkClosed {
                ParamReadError::LinkClosed
            } else {
                ParamReadError::NoReply
            },
        ),
    }
}

impl ParamRead {
    /// Start reading a parameter.
    pub fn start(name: &str, policy: ParamReadPolicy) -> (r: ParamRead)
        ensures
            r@ == (ReadModel {
                name: name@,
                exchange: exchange::fresh(policy.retries),
                value: None,
            }),
            read_invariant(r@),
    {
        ParamRead { name: name.to_owned(), exchange: Exchange::start(policy.retries), value: None }
    }

    /// The request to send.
    pub fn request(&self) -> (r: ParamRequestRead)
        ensures
            r.param_index == -1,
            r.target_system == crate::param_io::PX4_TARGET_SYSTEM,
            r.target_component == crate::param_io::PX4_TARGET_COMPONENT,
            r.param_id@ == crate::param_io::padded_id(vstd::utf8::encode_utf8(self@.name)),
    {
        make_param_request_read(self.name.as_str())
    }

    /// What the read asks for next.
    pub fn step(&self) -> (r: ExchangeStep)
        ensures
            r == self@.exchange.step,
    {
        self.exchange.step
    }

    /// Take note of an event.
    pub fn on_event(&mut self, e: ReadEvent)
        requires
            read_invariant(old(self)@),
        ensures
            final(self)@ == read_advanced(old(self)@, e),
            read_invariant(final(self)@),
    {
        match e {
            ReadEvent::Sent(outcome) => self.exchange.on_event(ExchangeEvent::Sent(outcome)),
            ReadEvent::PauseOver => self.exchange.on_event(ExchangeEvent::PauseOver),
            ReadEvent::Report(v) => {
                if answers_read(&v, self.name.as_str()) {
                    if self.exchange.step == ExchangeStep::Await {
                        self.value = Some(v);
                    }
                    self.exchange.on_event(ExchangeEvent::Confirmed);
                }
            },
            ReadEvent::TimedOut => self.exchange.on_event(ExchangeEvent::TimedOut),
        }
    }

    /// The outcome of a read that has ended.
    pub fn outcome(self) -> (r: Result<ParamValue, ParamReadError>)
        requires
            exchange::ended(self@.exchange),
        ensures
            r == read_outcome(self@),
    {
        match self.value {
            Some(v) => Ok(v),
            None => {
                if self.exchange.step == ExchangeStep::LinkClosed {
                    Err(ParamReadError::LinkClosed)
                } else {
                    Err(ParamReadError::NoReply)
                }
            },
        }
    }
}

/// Reads of a list of parameters, one after another.
pub struct ParamReads {
    names: Vec<String>,
    values: Vec<ParamValue>,
    failed: Vec<String>,
    done: usize,
    outcomes: Ghost<Seq<Option<ParamValue>>>,
}

/// The texts of a list.
pub open spec fn texts(list: Seq<String>) -> Seq<Seq<char>> {
    list.map_values(|s: String| s@)
}

/// The values among the first outcomes.
pub open spec fn values_read(outcomes: Seq<Option<ParamValue>>) -> Seq<ParamValue>
    decreases outcomes.len(),
{
    if outcomes.len() == 0 {
        Seq::empty()
    } else {
        match outcomes.last() {
            Some(v) => values_read(outcomes.drop_last()).push(v),
            None => values_read(outcomes.drop_last()),
        }
    }
}

/// The names whose read produced nothing.
pub open spec fn names_unread(
    names: Seq<Seq<char>>,
    outcomes: Seq<Option<ParamValue>>,
) -> Seq<Seq<char>>
    decreases outcomes.len(),
{
    if outcomes.len() == 0 {
        Seq::empty()
    } else {
        let before = names_unread(names, outcomes.drop_last());
        match outcomes.last() {
            Some(_) => before,
            None => before.push(names[outcomes.len() - 1]),
        }
    }
}

impl ParamReads {
    /// The names to read.
    pub closed spec fn names(&self) -> Seq<Seq<char>> {
        texts(self.names@)
    }

    /// What the reads so far produced, in order.
    pub closed spec fn outcomes(&self) -> Seq<Option<ParamValue>> {
        self.outcomes@
    }

    /// What holds of every list of reads: what was read and what was not are
    /// kept apart, in order.
    pub closed spec fn wf(&self) -> bool {
        &&& self.done == self.outcomes@.len()
        &&& self.done <= self.names@.len()
        &&& self.values@ == values_read(self.outcomes@)
        &&& texts(self.failed@) == names_unread(texts(self.names@), self.outcomes@)
    }

    /// Start reading a list.
    pub fn start(names: Vec<String>) -> (r: ParamReads)
        ensures
            r.wf(),
            r.names() == texts(names@),
            r.outcomes() == Seq::<Option<ParamValue>>::empty(),
    {
        let r = ParamReads {
            names,
            values: Vec::new(),
            failed: Vec::new(),
            done: 0,
            outcomes: Ghost(Seq::empty()),
        };
        assert(texts(r.failed@) =~= names_unread(texts(names@), r.outcomes@));
        r
    }

    /// The next name to read, if any is left.
    pub fn next_name(&self) -> (r: Option<&str>)
        requires
            self.wf(),
        ensures
            r is Some <==> self.outcomes().len() < self.names().len(),
            r matches Some(name) ==> name@ == self.names()[self.outcomes().len() as int],
    {
        if self.done < self.names.len() {
            Some(self.names[self.done].as_str())
        } else {
            None
        }
    }

    /// Take note of how the next read ended.
    pub fn record(&mut self, outcome: Result<ParamValue, ParamReadError>)
        requires
            old(self).wf(),
            old(self).outcomes().len() < old(self).names().len(),
        ensures
            final(self).wf(),
            final(self).names() == old(self).names(),
            final(self).outcomes() == old(self).outcomes().push(
                match outcome {
                    Ok(v) => Some(v),
                    Err(_) => None,
                },
            ),
    {
        let ghost before = self.outcomes@;
        let ghost failed = self.failed@;
        let ghost names = texts(self.names@);
        match outcome {
            Ok(v) => {
                self.values.push(v);
                proof {
                    self.outcomes@ = before.push(Some(v));
                }
            },
            Err(_) => {
                self.failed.push(self.names[self.done].clone());
                proof {
                    self.outcomes@ = before.push(None);
                    assert(texts(self.failed@) =~= texts(failed).push(names[self.done as int]));
                }
            },
        }
        assert(self.outcomes@.drop_last() =~= before);
        assert(self.done < self.names.len());
        self.done = self.done + 1;
    }

    /// The values read and the names that produced nothing, each in the order
    /// of the list.
    pub fn finish(self) -> (r: (Vec<ParamValue>, Vec<String>))
        requires
            self.wf(),
        ensures
            r.0@ == values_read(self.outcomes()),
            texts(r.1@) == names_unread(self.names(), self.outcomes()),
    {
        (self.values, self.failed)
    }
}

/// Whether the outcomes of a list of reads belong to its names: each value is
/// of the parameter asked for.
pub open spec fn answered_in_order(
    names: Seq<Seq<char>>,
    outcomes: Seq<Option<ParamValue>>,
) -> bool {
    &&& outcomes.len() == names.len()
    &&& forall|i: int| #![trigger outcomes[i]]
        0 <= i < outcomes.len() ==> (outcomes[i] matches Some(v) ==> v.name@ == names[i])
}

/// Nothing is lost: every name of the list either has a value among those
/// read, or stands among the failures. With no failure the values are those of
/// the whole list, in its order.
pub proof fn law_every_name_is_accounted_for(
    names: Seq<Seq<char>>,
    outcomes: Seq<Option<ParamValue>>,
)
    requires
        answered_in_order(names, outcomes),
    ensures
        values_read(outcomes).len() + names_unread(names, outcomes).len() == names.len(),
        names_unread(names, outcomes).len() == 0 ==> forall|i: int| #![trigger names[i]]
            0 <= i < names.len() ==> values_read(outcomes)[i].name@ == names[i],
    decreases names.len(),
{
    if names.len() > 0 {
        let n = names.drop_last();
        let o = outcomes.drop_last();
        assert forall|i: int| #![trigger o[i]] 0 <= i < o.len() implies (o[i] matches Some(v)
            ==> v.name@ == n[i]) by {
            assert(o[i] == outcomes[i]);
        }
        law_every_name_is_accounted_for(n, o);
        lemma_unread_prefix(names, o);
        assert(names_unread(names, o) == names_unread(n, o));
        if names_unread(names, outcomes).len() == 0 {
            assert(outcomes[outcomes.len() - 1] == outcomes.last());
            assert forall|i: int| #![trigger names[i]] 0 <= i < names.len() implies values_read(
                outcomes,
            )[i].name@ == names[i] by {
                if i < n.len() {
                    assert(n[i] == names[i]);
                }
            }
        }
    }
}

proof fn lemma_unread_prefix(names: Seq<Seq<char>>, outcomes: Seq<Option<ParamValue>>)
    requires
        outcomes.len() < names.len(),
    ensures
        names_unread(names, outcomes) == names_unread(names.drop_last(), outcomes),
    decreases outcomes.len(),
{
    if outcomes.len() > 0 {
        lemma_unread_prefix(names, outcomes.drop_last());
    }
}

/// The answer to a read is the first report of its own parameter that comes
/// while it waits, and it ends the read.
pub proof fn law_a_read_is_answered_by_its_own_parameter(r: ReadModel, v: ParamValue)
    requires
        r.exchange.step is Await,
    ensures
        v.name@ == r.name ==> {
            let after = read_advanced(r, ReadEvent::Report(v));
            &&& after.value == Some(v)
            &&& after.exchange.step is Confirmed
            &&& read_outcome(after) == Ok::<ParamValue, ParamReadError>(v)
        },
        v.name@ != r.name ==> read_advanced(r, ReadEvent::Report(v)) == r,
{
}

/// Only a report brings a value, and no event changes what is asked for.
pub proof fn law_only_a_report_brings_a_value(r: ReadModel, e: ReadEvent)
    ensures
        read_advanced(r, e).name == r.name,
        !(e is Report) ==> read_advanced(r, e).value == r.value,
        !(r.exchange.step is Await) ==> read_advanced(r, e).value == r.value,
{
}

/// A read without a value failed for want of a link if the link is closed, and
/// for want of a reply otherwise.
pub proof fn law_why_a_read_failed(r: ReadModel)
    ensures
        r.value is Some <==> read_outcome(r) is Ok,
        r.value is None && r.exchange.step is LinkClosed ==> read_outcome(r) == Err::<
            ParamValue,
            ParamReadError,
        >(ParamReadError::LinkClosed),
        r.value is None && !(r.exchange.step is LinkClosed) ==> read_outcome(r) == Err::<
            ParamValue,
            ParamReadError,
        >(ParamReadError::NoReply),
{
}

/// A read that worked adds its value to the values, and one that failed adds
/// its name to the failures; each leaves the other list alone.
pub proof fn law_how_a_read_is_booked(
    names: Seq<Seq<char>>,
    outcomes: Seq<Option<ParamValue>>,
    v: ParamValue,
)
    requires
        outcomes.len() < names.len(),
    ensures
        values_read(outcomes.push(Some(v))) == values_read(outcomes).push(v),
        names_unread(names, outcomes.push(Some(v))) == names_unread(names, outcomes),
        values_read(outcomes.push(None)) == values_read(outcomes),
        names_unread(names, outcomes.push(None)) == names_unread(names, outcomes).push(
            names[outcomes.len() as int],
        ),
        values_read(Seq::empty()).len() == 0,
        names_unread(names, Seq::empty()).len() == 0,
{
    assert(outcomes.push(Some(v)).drop_last() =~= outcomes);
    assert(outcomes.push(None).drop_last() =~= outcomes);
}

} // verus!
