//! A limit on the commands of each client.
use crate::text;
use crate::text::push_decimal;
use std::collections::HashMap;
use vstd::prelude::*;

verus! {

/// Length of the window in which commands are counted.
pub const RATE_LIMIT_WINDOW_MS: u64 = 1000;

/// Commands a client may send in a window.
pub const MAX_COMMANDS_PER_WINDOW: usize = 10;

/// The commands of a client in its current window.
#[derive(Clone, Copy, Debug, PartialEq, Eq, Structural)]
pub struct RateWindow {
    /// When the window began.
    pub start_ms: u64,
    /// Commands taken in it.
    pub count: usize,
}

/// Counts the commands of every client.
#[derive(Debug)]
pub struct RateLimiter {
    windows: HashMap<u64, RateWindow>,
}

impl View for RateLimiter {
    type V = Map<u64, RateWindow>;

    closed spec fn view(&self) -> Map<u64, RateWindow> {
        self.windows@
    }
}

/// The window that a command at `now_ms` falls into: the client's current one,
/// or a new one when there is none or it has expired.
pub open spec fn window_at(m: Map<u64, RateWindow>, client: u64, now_ms: u64) -> RateWindow {
    if m.dom().contains(client) && now_ms - m[client].start_ms <= RATE_LIMIT_WINDOW_MS {
        m[client]
    } else {
        RateWindow { start_ms: now_ms, count: 0 }
    }
}

/// Whether a command at `now_ms` is taken.
pub open spec fn within_limit(m: Map<u64, RateWindow>, client: u64, now_ms: u64) -> bool {
    window_at(m, client, now_ms).count < MAX_COMMANDS_PER_WINDOW
}

/// The windows after a command that was taken.
pub open spec fn counted(m: Map<u64, RateWindow>, client: u64, now_ms: u64) -> Map<
    u64,
    RateWindow,
> {
    let w = window_at(m, client, now_ms);
    m.insert(client, RateWindow { count: (w.count + 1) as usize, ..w })
}

/// What a client over the limit is told.
pub open spec fn rate_limit_text() -> Seq<char> {
    "Rate limit exceeded: max "@ + text::decimal(MAX_COMMANDS_PER_WINDOW as nat)
        + " commands per 1s"@
}

/// What holds of the windows at all times: none counts more than the limit.
pub open spec fn limited(m: Map<u64, RateWindow>) -> bool {
    forall|c: u64| #[trigger]
        m.dom().contains(c) ==> m[c].count <= MAX_COMMANDS_PER_WINDOW
}

impl RateLimiter {
    /// No client has sent anything.
    pub fn new() -> (r: RateLimiter)
        ensures
            r@ == Map::<u64, RateWindow>::empty(),
            limited(r@),
    {
        broadcast use vstd::std_specs::hash::group_hash_axioms;

        RateLimiter { windows: HashMap::new() }
    }

    /// Count a command, unless the client is over its limit.
    pub fn check_rate_limit(&mut self, client: u64, now_ms: u64) -> (r: Result<(), String>)
        ensures
            r is Ok <==> within_limit(old(self)@, client, now_ms),
            r matches Err(e) ==> e@ == rate_limit_text() && final(self)@ == old(self)@,
            r is Ok ==> final(self)@ == counted(old(self)@, client, now_ms),
            limited(old(self)@) ==> limited(final(self)@),
    {
        broadcast use vstd::std_specs::hash::group_hash_axioms;

        let window: RateWindow = match self.windows.get(&client) {
            Some(w) => if now_ms <= w.start_ms || now_ms - w.start_ms <= RATE_LIMIT_WINDOW_MS {
                *w
            } else {
                RateWindow { start_ms: now_ms, count: 0 }
            },
            None => RateWindow { start_ms: now_ms, count: 0 },
        };
        if window.count >= MAX_COMMANDS_PER_WINDOW {
            let mut out: String = "Rate limit exceeded: max ".to_owned();
            push_decimal(&mut out, MAX_COMMANDS_PER_WINDOW as u64);
            out.append(" commands per 1s");
            return Err(out);
        }
        self.windows.insert(
            client,
            RateWindow { start_ms: window.start_ms, count: window.count + 1 },
        );
        Ok(())
    }

    /// Forget a client that is gone.
    pub fn cleanup_client(&mut self, client: u64)
        ensures
            final(self)@ == old(self)@.remove(client),
            limited(old(self)@) ==> limited(final(self)@),
    {
        broadcast use vstd::std_specs::hash::group_hash_axioms;

        self.windows.remove(&client);
    }
}

/// The windows after a client's commands at the given times, those over the
/// limit left out.
pub open spec fn windows_after(m: Map<u64, RateWindow>, client: u64, times: Seq<u64>) -> Map<
    u64,
    RateWindow,
>
    decreases times.len(),
{
    if times.len() == 0 {
        m
    } else {
        let before = windows_after(m, client, times.drop_last());
        if within_limit(before, client, times.last()) {
            counted(before, client, times.last())
        } else {
            before
        }
    }
}

/// How many of a client's commands at the given times were taken.
pub open spec fn taken(m: Map<u64, RateWindow>, client: u64, times: Seq<u64>) -> nat
    decreases times.len(),
{
    if times.len() == 0 {
        0
    } else {
        let before = windows_after(m, client, times.drop_last());
        taken(m, client, times.drop_last()) + if within_limit(before, client, times.last()) {
            1nat
        } else {
            0nat
        }
    }
}

/// Within one window of its first command, a client gets at most the limit
/// through, however many it sends.
pub proof fn law_a_window_takes_at_most_the_limit(
    m: Map<u64, RateWindow>,
    client: u64,
    start_ms: u64,
    times: Seq<u64>,
)
    requires
        !m.dom().contains(client),
        times.len() > 0,
        times[0] == start_ms,
        forall|i: int|
            0 <= i < times.len() ==> start_ms <= #[trigger] times[i] <= start_ms
                + RATE_LIMIT_WINDOW_MS,
    ensures
        taken(m, client, times) <= MAX_COMMANDS_PER_WINDOW,
        taken(m, client, times) == if times.len() < MAX_COMMANDS_PER_WINDOW {
            times.len() as int
        } else {
            MAX_COMMANDS_PER_WINDOW as int
        },
{
    lemma_taken(m, client, start_ms, times);
}

proof fn lemma_taken(m: Map<u64, RateWindow>, client: u64, start_ms: u64, times: Seq<u64>)
    requires
        !m.dom().contains(client),
        times.len() > 0,
        times[0] == start_ms,
        forall|i: int|
            0 <= i < times.len() ==> start_ms <= #[trigger] times[i] <= start_ms
                + RATE_LIMIT_WINDOW_MS,
    ensures
        ({
            let after = windows_after(m, client, times);
            let n = taken(m, client, times);
            &&& after.dom().contains(client)
            &&& after[client].start_ms == start_ms
            &&& after[client].count == n
            &&& n == if times.len() < MAX_COMMANDS_PER_WINDOW {
                times.len() as int
            } else {
                MAX_COMMANDS_PER_WINDOW as int
            }
        }),
    decreases times.len(),
{
    let before = times.drop_last();
    let w = windows_after(m, client, before);
    if before.len() == 0 {
        assert(w == m);
        assert(taken(m, client, before) == 0);
        assert(times.last() == start_ms);
        assert(within_limit(w, client, times.last()));
    } else {
        assert forall|i: int| 0 <= i < before.len() implies start_ms <= #[trigger] before[i]
            <= start_ms + RATE_LIMIT_WINDOW_MS by {
            assert(before[i] == times[i]);
        }
        lemma_taken(m, client, start_ms, before);
        assert(times[times.len() - 1] == times.last());
        assert(window_at(w, client, times.last()) == w[client]);
    }
}

/// A client that has not sent anything, or nothing for more than a second, may
/// send; one that sent ten within the second may not. Other clients make no
/// difference.
pub proof fn law_ten_commands_a_second(m: Map<u64, RateWindow>, client: u64, now_ms: u64)
    ensures
        !m.dom().contains(client) ==> within_limit(m, client, now_ms),
        m.dom().contains(client) && now_ms > m[client].start_ms + 1000 ==> within_limit(
            m,
            client,
            now_ms,
        ),
        m.dom().contains(client) && now_ms <= m[client].start_ms + 1000 ==> (within_limit(
            m,
            client,
            now_ms,
        ) <==> m[client].count < 10),
{
}

/// A command that is taken counts for its own client alone: in the window it
/// falls into, or as the first of a new one.
pub proof fn law_a_command_counts_for_its_own_client(
    m: Map<u64, RateWindow>,
    client: u64,
    other: u64,
    now_ms: u64,
)
    requires
        within_limit(m, client, now_ms),
    ensures
        ({
            let after = counted(m, client, now_ms);
            &&& after.dom().contains(client)
            &&& m.dom().contains(client) && now_ms <= m[client].start_ms + 1000
                ==> after[client].start_ms == m[client].start_ms && after[client].count
                == m[client].count + 1
            &&& !m.dom().contains(client) || now_ms > m[client].start_ms + 1000
                ==> after[client].start_ms == now_ms && after[client].count == 1
            &&& other != client ==> (after.dom().contains(other) <==> m.dom().contains(other))
            &&& other != client ==> after[other] == m[other]
        }),
{
}

} // verus!
