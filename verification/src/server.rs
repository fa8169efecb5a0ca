//! The server's side of a browser connection.
//!
//! A session is driven by events: ticks, frames of the browser, messages of
//! the rest of the daemon. Each is answered by what to do on the socket.
use crate::protocol::envelope;
use crate::protocol::envelope::OutgoingMessage;
use crate::protocol::frames::TerrainOrigin;
use crate::protocol::provisioning;
use crate::protocol::provisioning::Capabilities;
use crate::protocol::tags;
use crate::protocol::terrain_tiles::{TerrainNeed, WireTileCoord, MAX_FRAME_BYTES};
use crate::terrain::TileCoord;
use crate::text;
use crate::text::push_decimal;
use vstd::prelude::*;

verus! {

/// Largest message a browser may send. It is the protocol's own bound: a
/// smaller one would drop frames the parser would accept.
pub const MAX_INCOMING_MESSAGE_SIZE: usize = MAX_FRAME_BYTES;

/// How often each client is pinged, in milliseconds.
pub const PING_INTERVAL_MS: u64 = 5000;

/// Silence after which a connection is taken for dead, in seconds: three missed
/// pings.
pub const PONG_TIMEOUT_S: u64 = 15;

/// How often the missing terrain is stated, in milliseconds.
pub const TERRAIN_NEED_INTERVAL_MS: u64 = 500;

/// How often it is stated once requests go unanswered, in milliseconds.
pub const TERRAIN_NEED_IDLE_INTERVAL_MS: u64 = 5000;

/// Unanswered repetitions before slowing down.
pub const TERRAIN_NEED_BACKOFF_AFTER: u32 = 6;

/// Tile ring kept around the vehicle.
pub const TERRAIN_NEED_RADIUS: u32 = 1;

/// Server configuration.
#[derive(Clone, Debug)]
pub struct WebSocketServerConfig {
    /// Port to listen on.
    pub port: u16,
    /// Update rate in Hz.
    pub update_rate_hz: u32,
    /// Allowed CORS origins; empty for the local development ones.
    pub allowed_origins: Vec<String>,
}

impl Default for WebSocketServerConfig {
    fn default() -> (r: WebSocketServerConfig)
        ensures
            r.port == 9876,
            r.update_rate_hz == 30,
            r.allowed_origins@.len() == 0,
    {
        WebSocketServerConfig { port: 9876, update_rate_hz: 30, allowed_origins: Vec::new() }
    }
}

/// Number of local development origins.
pub const LOCAL_ORIGIN_COUNT: usize = 4;

/// A local development origin.
pub open spec fn local_origin(i: int) -> Seq<char> {
    if i == 0 {
        "http://localhost:3000"@
    } else if i == 1 {
        "http://localhost:5173"@
    } else if i == 2 {
        "http://127.0.0.1:3000"@
    } else {
        "http://127.0.0.1:5173"@
    }
}

/// Whether these are the origins that may connect.
pub open spec fn may_connect(allowed: Seq<String>, origins: Seq<String>) -> bool {
    &&& allowed.len() == 0 ==> origins.len() == LOCAL_ORIGIN_COUNT && forall|i: int|
        0 <= i < origins.len() ==> (#[trigger] origins[i])@ == local_origin(i)
    &&& allowed.len() > 0 ==> origins.len() == allowed.len() && forall|i: int|
        0 <= i < origins.len() ==> (#[trigger] origins[i])@ == allowed[i]@
}

impl WebSocketServerConfig {
    /// The origins that may connect.
    pub fn origins(&self) -> (r: Vec<String>)
        ensures
            may_connect(self.allowed_origins@, r@),
    {
        let mut all: Vec<String> = Vec::new();
        if self.allowed_origins.len() == 0 {
            all.push("http://localhost:3000".to_owned());
            all.push("http://localhost:5173".to_owned());
            all.push("http://127.0.0.1:3000".to_owned());
            all.push("http://127.0.0.1:5173".to_owned());
            return all;
        }
        let mut i: usize = 0;
        while i < self.allowed_origins.len()
            invariant
                i <= self.allowed_origins@.len(),
                all@.len() == i,
                forall|j: int| 0 <= j < i ==> (#[trigger] all@[j])@ == self.allowed_origins@[j]@,
            decreases self.allowed_origins@.len() - i,
        {
            all.push(self.allowed_origins[i].clone());
            i = i + 1;
        }
        all
    }

    /// What the user is told when the port is taken. The usual cause is a
    /// second daemon, which the raw error does not say.
    pub fn port_in_use_message(&self) -> (r: String)
        ensures
            r@ == "port "@ + text::decimal(self.port as nat)
                + " is already in use — another hitl-daemon is probably running. Stop it, or start this one with --websocket-port <PORT>."@,
    {
        let mut out: String = "port ".to_owned();
        push_decimal(&mut out, self.port as u64);
        out.append(
            " is already in use — another hitl-daemon is probably running. Stop it, or start this one with --websocket-port <PORT>.",
        );
        out
    }
}

/// Where the user should point their browser; a developer can name another
/// place.
pub fn simulator_url(named: Option<String>) -> (r: String)
    ensures
        named matches Some(url) ==> r@ == url@,
        named is None ==> r@ == "https://th3seus.net/simulator"@,
{
    match named {
        Some(url) => url,
        None => "https://th3seus.net/simulator".to_owned(),
    }
}

/// A version as text.
pub open spec fn version_text(major: u8, minor: u8, patch: u8) -> Seq<char> {
    text::decimal(major as nat) + "."@ + text::decimal(minor as nat) + "."@ + text::decimal(
        patch as nat,
    )
}

/// Whether these are the capabilities of a version of the daemon.
pub open spec fn announces(c: Capabilities, version: Seq<char>) -> bool {
    &&& c.daemon_version@ == version
    &&& c.protocol_revision == provisioning::PROTOCOL_REVISION
    &&& c.features@.len() == provisioning::DAEMON_FEATURE_COUNT
    &&& forall|i: int| 0 <= i < c.features@.len() ==> (#[trigger] c.features@[i])@
        == provisioning::feature_text(i)
}

/// Whether this is what a new client is sent.
pub open spec fn greets(
    r: Seq<OutgoingMessage>,
    version: Seq<char>,
    origin: Option<TerrainOrigin>,
) -> bool {
    &&& r.len() == if origin is Some {
        2int
    } else {
        1int
    }
    &&& r[0] matches OutgoingMessage::Capabilities(c) && announces(c, version)
    &&& origin matches Some(o) ==> r[1] == OutgoingMessage::TerrainOrigin(o)
}

/// What a new client is sent before anything else: the capabilities, so that
/// it never has to interpret a frame before it knows what this daemon speaks,
/// then the terrain origin, when there is one.
pub fn greeting(major: u8, minor: u8, patch: u8, origin: Option<TerrainOrigin>) -> (r: Vec<
    OutgoingMessage,
>)
    ensures
        greets(r@, version_text(major, minor, patch), origin),
{
    let mut version: String = String::new();
    push_decimal(&mut version, major as u64);
    version.append(".");
    push_decimal(&mut version, minor as u64);
    version.append(".");
    push_decimal(&mut version, patch as u64);
    assert(version@ =~= version_text(major, minor, patch));
    let mut all: Vec<OutgoingMessage> = Vec::new();
    all.push(OutgoingMessage::Capabilities(Capabilities::current(version)));
    match origin {
        Some(o) => {
            all.push(OutgoingMessage::TerrainOrigin(o));
        },
        None => {},
    }
    all
}

/// The pace of asking for terrain.
#[derive(Debug)]
pub struct TerrainNeedWatch {
    unanswered: u32,
    last: Vec<WireTileCoord>,
    interval_ms: u64,
}

/// The state of the pace of asking for terrain.
pub ghost struct NeedModel {
    pub unanswered: u32,
    pub last: Seq<WireTileCoord>,
    pub interval_ms: u64,
}

impl View for TerrainNeedWatch {
    type V = NeedModel;

    closed spec fn view(&self) -> NeedModel {
        NeedModel {
            unanswered: self.unanswered,
            last: self.last@,
            interval_ms: self.interval_ms,
        }
    }
}

/// Before the first request.
pub open spec fn need_start() -> NeedModel {
    NeedModel { unanswered: 0, last: Seq::empty(), interval_ms: TERRAIN_NEED_INTERVAL_MS }
}

/// The pace after a tick on which `missing` was missing. Nothing missing is the
/// steady state and ends the backoff. The same set again counts as unanswered;
/// another set is progress, though the pace stays as it is.
pub open spec fn need_ticked(s: NeedModel, missing: Seq<WireTileCoord>) -> NeedModel {
    if missing.len() == 0 {
        need_start()
    } else if missing == s.last {
        let unanswered = if s.unanswered == u32::MAX {
            u32::MAX
        } else {
            (s.unanswered + 1) as u32
        };
        NeedModel {
            unanswered,
            interval_ms: if unanswered == TERRAIN_NEED_BACKOFF_AFTER {
                TERRAIN_NEED_IDLE_INTERVAL_MS
            } else {
                s.interval_ms
            },
            ..s
        }
    } else {
        NeedModel { unanswered: 0, last: missing, ..s }
    }
}

/// Whether the ticker is restarted, which puts off the next tick by a whole
/// interval.
pub open spec fn need_restarts(s: NeedModel, missing: Seq<WireTileCoord>) -> bool {
    missing.len() == 0 || missing == s.last && s.unanswered + 1 == TERRAIN_NEED_BACKOFF_AFTER
}

fn same_coords(a: &Vec<WireTileCoord>, b: &Vec<WireTileCoord>) -> (r: bool)
    ensures
        r == (a@ == b@),
{
    if a.len() != b.len() {
        return false;
    }
    let mut i: usize = 0;
    while i < a.len()
        invariant
            i <= a@.len(),
            a@.len() == b@.len(),
            forall|j: int| 0 <= j < i ==> a@[j] == b@[j],
        decreases a@.len() - i,
    {
        if a[i] != b[i] {
            return false;
        }
        i = i + 1;
    }
    assert(a@ =~= b@);
    true
}

fn copy_coords(a: &Vec<WireTileCoord>) -> (r: Vec<WireTileCoord>)
    ensures
        r@ == a@,
{
    let mut out: Vec<WireTileCoord> = Vec::new();
    let mut i: usize = 0;
    while i < a.len()
        invariant
            i <= a@.len(),
            out@ == a@.take(i as int),
        decreases a@.len() - i,
    {
        out.push(a[i]);
        i = i + 1;
        assert(out@ =~= a@.take(i as int));
    }
    assert(a@.take(i as int) =~= a@);
    out
}

/// Tiles as they go on the wire.
pub open spec fn on_wire(tiles: Seq<TileCoord>) -> Seq<WireTileCoord> {
    tiles.map_values(|c: TileCoord| WireTileCoord { x: c.x, y: c.y, z: c.z })
}

/// Tiles as they go on the wire.
pub fn wire_coords(tiles: &Vec<TileCoord>) -> (r: Vec<WireTileCoord>)
    ensures
        r@ == on_wire(tiles@),
{
    let mut out: Vec<WireTileCoord> = Vec::new();
    let mut i: usize = 0;
    while i < tiles.len()
        invariant
            i <= tiles@.len(),
            out@ == on_wire(tiles@.take(i as int)),
        decreases tiles@.len() - i,
    {
        out.push(WireTileCoord { x: tiles[i].x, y: tiles[i].y, z: tiles[i].z });
        i = i + 1;
        assert(out@ =~= on_wire(tiles@.take(i as int)));
    }
    assert(tiles@.take(i as int) =~= tiles@);
    out
}

impl TerrainNeedWatch {
    /// Before the first request.
    pub fn new() -> (r: TerrainNeedWatch)
        ensures
            r@ == need_start(),
    {
        TerrainNeedWatch {
            unanswered: 0,
            last: Vec::new(),
            interval_ms: TERRAIN_NEED_INTERVAL_MS,
        }
    }

    /// How often to tick, in milliseconds.
    pub fn interval_ms(&self) -> (r: u64)
        ensures
            r == self@.interval_ms,
    {
        self.interval_ms
    }

    /// A tick on which `missing` was missing; true when the ticker is to be
    /// restarted at the new interval.
    pub fn tick(&mut self, missing: &Vec<WireTileCoord>) -> (r: bool)
        ensures
            final(self)@ == need_ticked(old(self)@, missing@),
            r == need_restarts(old(self)@, missing@),
    {
        if missing.len() == 0 {
            self.unanswered = 0;
            self.last = Vec::new();
            self.interval_ms = TERRAIN_NEED_INTERVAL_MS;
            assert(self@.last =~= Seq::<WireTileCoord>::empty());
            true
        } else if same_coords(missing, &self.last) {
            if self.unanswered < u32::MAX {
                self.unanswered = self.unanswered + 1;
            }
            if self.unanswered == TERRAIN_NEED_BACKOFF_AFTER {
                self.interval_ms = TERRAIN_NEED_IDLE_INTERVAL_MS;
                true
            } else {
                false
            }
        } else {
            self.unanswered = 0;
            self.last = copy_coords(missing);
            false
        }
    }
}

/// The pace after the same tiles were missing on `n` ticks in a row.
pub open spec fn need_repeated(s: NeedModel, missing: Seq<WireTileCoord>, n: nat) -> NeedModel
    decreases n,
{
    if n == 0 {
        s
    } else {
        need_ticked(need_repeated(s, missing, (n - 1) as nat), missing)
    }
}

/// A browser that cannot supply a tile is not asked for it at full rate for
/// the rest of the session: the first request and five repetitions go out at
/// the full rate, everything after the sixth repetition at the slow one.
pub proof fn law_unanswered_requests_slow_down(missing: Seq<WireTileCoord>, n: nat)
    requires
        missing.len() > 0,
    ensures
        need_repeated(need_start(), missing, n).interval_ms == if n <= TERRAIN_NEED_BACKOFF_AFTER {
            TERRAIN_NEED_INTERVAL_MS
        } else {
            TERRAIN_NEED_IDLE_INTERVAL_MS
        },
{
    lemma_need_repeated(missing, n);
}

proof fn lemma_need_repeated(missing: Seq<WireTileCoord>, n: nat)
    requires
        missing.len() > 0,
    ensures
        ({
            let s = need_repeated(need_start(), missing, n);
            &&& s.interval_ms == if n <= TERRAIN_NEED_BACKOFF_AFTER {
                TERRAIN_NEED_INTERVAL_MS
            } else {
                TERRAIN_NEED_IDLE_INTERVAL_MS
            }
            &&& s.unanswered == if n == 0 {
                0
            } else if n - 1 <= u32::MAX {
                n - 1
            } else {
                u32::MAX as int
            }
            &&& n > 0 ==> s.last == missing
            &&& n == 0 ==> s.last == Seq::<WireTileCoord>::empty()
        }),
    decreases n,
{
    if n > 0 {
        lemma_need_repeated(missing, (n - 1) as nat);
    }
}

/// Terrain that has arrived restores the full rate at once.
pub proof fn law_answered_requests_restore_the_pace(s: NeedModel)
    ensures
        need_ticked(s, Seq::empty()) == need_start(),
{
}

/// Where messages to a client come from.
#[derive(Clone, Copy, Debug, PartialEq, Eq, Structural)]
pub enum Feed {
    /// Telemetry; without it nothing more is sent.
    State,
    /// Shell output.
    Shell,
    /// Link status.
    Link,
    /// Status texts.
    Vehicle,
    /// The terrain origin.
    Origin,
    /// Provisioning and restore progress.
    Provisioning,
    /// Configuration that the daemon started by itself.
    Configuration,
}

/// What a feed delivered.
#[derive(Debug)]
pub enum Delivery {
    /// A message.
    Message(OutgoingMessage),
    /// Messages were missed.
    Lagged,
    /// The feed has ended.
    Closed,
}

/// A frame from the browser.
#[derive(Debug)]
pub enum ClientFrame {
    /// A message.
    Binary(Vec<u8>),
    /// A request to close.
    Close,
    /// Ping, pong or text.
    Other,
    /// The socket failed.
    Failed,
}

/// What happens to a session.
#[derive(Debug)]
pub enum SessionEvent {
    /// Time to state the missing terrain; `None` without a terrain cache.
    TerrainTick(Option<Vec<WireTileCoord>>),
    /// A feed delivered.
    Feed(Feed, Delivery),
    /// An answer to the client is ready.
    Answer(OutgoingMessage),
    /// Time to ping.
    PingTick(u64),
    /// The client sent something.
    Received(ClientFrame, u64),
    /// The client's stream has ended.
    Ended,
    /// A send failed.
    SendFailed,
}

/// What to do on a session's socket.
#[derive(Debug)]
pub enum SessionAction {
    /// Nothing.
    Wait,
    /// Send a message.
    Send(OutgoingMessage),
    /// Restart the terrain ticker.
    Pace(u64),
    /// Restart the terrain ticker and send a message.
    PaceAndSend(u64, OutgoingMessage),
    /// Send a ping.
    Ping,
    /// Decide on a message of the client.
    Handle(Vec<u8>),
    /// Stop listening to a feed.
    Unsubscribe(Feed),
    /// Send nothing more; what the client sends is still handled.
    StopSending,
    /// End the session.
    Close,
}

/// A client's session. It receives until the client leaves, and sends for as
/// long as there is telemetry and the socket takes it.
#[derive(Debug)]
pub struct ClientSession {
    need: TerrainNeedWatch,
    last_heard_s: u64,
    sending: bool,
    open: bool,
}

/// The state of a client's session.
pub ghost struct SessionModel {
    pub need: NeedModel,
    pub last_heard_s: u64,
    pub sending: bool,
    pub open: bool,
}

impl View for ClientSession {
    type V = SessionModel;

    closed spec fn view(&self) -> SessionModel {
        SessionModel {
            need: self.need@,
            last_heard_s: self.last_heard_s,
            sending: self.sending,
            open: self.open,
        }
    }
}

/// Whether a connection is dead: nothing was heard for three pings. A clock
/// that was set back does not count as silence.
pub open spec fn is_dead(last_heard_s: u64, now_s: u64) -> bool {
    now_s - last_heard_s >= PONG_TIMEOUT_S
}

/// A session that sends no more after an event: it ends when the client leaves,
/// or when there is an answer that cannot be sent.
pub open spec fn receiving_after(s: SessionModel, e: SessionEvent) -> SessionModel {
    match e {
        SessionEvent::Received(f, now_s) => SessionModel {
            last_heard_s: now_s,
            open: !(f is Close || f is Failed),
            ..s
        },
        SessionEvent::Answer(_) => SessionModel { open: false, ..s },
        SessionEvent::Ended => SessionModel { open: false, ..s },
        _ => s,
    }
}

/// A session after an event. Any frame from the client proves that it is alive.
pub open spec fn session_after(s: SessionModel, e: SessionEvent) -> SessionModel {
    if !s.open {
        s
    } else if !s.sending {
        receiving_after(s, e)
    } else {
        match e {
            SessionEvent::TerrainTick(Some(missing)) => SessionModel {
                need: need_ticked(s.need, missing@),
                ..s
            },
            SessionEvent::TerrainTick(None) => s,
            SessionEvent::Feed(feed, d) => SessionModel {
                sending: !(feed is State && d is Closed),
                ..s
            },
            SessionEvent::Answer(_) => s,
            SessionEvent::PingTick(now_s) => SessionModel {
                open: !is_dead(s.last_heard_s, now_s),
                ..s
            },
            SessionEvent::Received(f, now_s) => SessionModel {
                last_heard_s: now_s,
                open: !(f is Close || f is Failed),
                ..s
            },
            SessionEvent::Ended => SessionModel { open: false, ..s },
            SessionEvent::SendFailed => SessionModel { sending: false, ..s },
        }
    }
}

/// What is done about an event.
pub open spec fn session_action(s: SessionModel, e: SessionEvent) -> SessionAction {
    if !session_after(s, e).open {
        SessionAction::Close
    } else if !session_after(s, e).sending {
        match e {
            SessionEvent::Received(ClientFrame::Binary(data), _) => SessionAction::Handle(data),
            SessionEvent::Received(_, _) => SessionAction::Wait,
            _ => SessionAction::StopSending,
        }
    } else {
        match e {
            SessionEvent::TerrainTick(Some(missing)) => {
                let pace = need_ticked(s.need, missing@).interval_ms;
                let ask = OutgoingMessage::TerrainNeed(TerrainNeed { coords: missing });
                if missing@.len() == 0 {
                    SessionAction::Pace(pace)
                } else if need_restarts(s.need, missing@) {
                    SessionAction::PaceAndSend(pace, ask)
                } else {
                    SessionAction::Send(ask)
                }
            },
            SessionEvent::TerrainTick(None) => SessionAction::Wait,
            SessionEvent::Feed(feed, Delivery::Message(m)) => SessionAction::Send(m),
            SessionEvent::Feed(feed, Delivery::Lagged) => SessionAction::Wait,
            SessionEvent::Feed(feed, Delivery::Closed) => SessionAction::Unsubscribe(feed),
            SessionEvent::Answer(m) => SessionAction::Send(m),
            SessionEvent::PingTick(_) => SessionAction::Ping,
            SessionEvent::Received(ClientFrame::Binary(data), _) => SessionAction::Handle(data),
            SessionEvent::Received(_, _) => SessionAction::Wait,
            SessionEvent::Ended => SessionAction::Close,
            SessionEvent::SendFailed => SessionAction::StopSending,
        }
    }
}

impl ClientSession {
    /// A session that starts now.
    pub fn new(now_s: u64) -> (r: ClientSession)
        ensures
            r@ == (SessionModel {
                need: need_start(),
                last_heard_s: now_s,
                sending: true,
                open: true,
            }),
    {
        ClientSession {
            need: TerrainNeedWatch::new(),
            last_heard_s: now_s,
            sending: true,
            open: true,
        }
    }

    /// Whether the session is still open.
    pub fn is_open(&self) -> (r: bool)
        ensures
            r == self@.open,
    {
        self.open
    }

    fn end(&mut self) -> (r: SessionAction)
        ensures
            r is Close,
            final(self)@ == (SessionModel { open: false, ..old(self)@ }),
    {
        self.open = false;
        SessionAction::Close
    }

    fn stop_sending(&mut self) -> (r: SessionAction)
        ensures
            r is StopSending,
            final(self)@ == (SessionModel { sending: false, ..old(self)@ }),
    {
        self.sending = false;
        SessionAction::StopSending
    }

    fn receive(&mut self, f: ClientFrame, now_s: u64) -> (r: SessionAction)
        requires
            old(self)@.open,
        ensures
            final(self)@ == (SessionModel {
                last_heard_s: now_s,
                open: !(f is Close || f is Failed),
                ..old(self)@
            }),
            r == match f {
                ClientFrame::Binary(data) => SessionAction::Handle(data),
                ClientFrame::Other => SessionAction::Wait,
                _ => SessionAction::Close,
            },
    {
        self.last_heard_s = now_s;
        match f {
            ClientFrame::Binary(data) => SessionAction::Handle(data),
            ClientFrame::Close => self.end(),
            ClientFrame::Other => SessionAction::Wait,
            ClientFrame::Failed => self.end(),
        }
    }

    /// What to do about an event.
    pub fn on_event(&mut self, e: SessionEvent) -> (r: SessionAction)
        ensures
            final(self)@ == session_after(old(self)@, e),
            r == session_action(old(self)@, e),
    {
        if !self.open {
            return SessionAction::Close;
        }
        if !self.sending {
            return match e {
                SessionEvent::Received(f, now_s) => self.receive(f, now_s),
                SessionEvent::Answer(_) => self.end(),
                SessionEvent::Ended => self.end(),
                _ => SessionAction::StopSending,
            };
        }
        match e {
            SessionEvent::TerrainTick(Some(missing)) => {
                let restart = self.need.tick(&missing);
                let pace: u64 = self.need.interval_ms();
                if missing.len() == 0 {
                    SessionAction::Pace(pace)
                } else {
                    let ask = OutgoingMessage::TerrainNeed(TerrainNeed { coords: missing });
                    if restart {
                        SessionAction::PaceAndSend(pace, ask)
                    } else {
                        SessionAction::Send(ask)
                    }
                }
            },
            SessionEvent::TerrainTick(None) => SessionAction::Wait,
            SessionEvent::Feed(feed, Delivery::Message(m)) => SessionAction::Send(m),
            SessionEvent::Feed(_, Delivery::Lagged) => SessionAction::Wait,
            SessionEvent::Feed(feed, Delivery::Closed) => {
                match feed {
                    Feed::State => self.stop_sending(),
                    _ => SessionAction::Unsubscribe(feed),
                }
            },
            SessionEvent::Answer(m) => SessionAction::Send(m),
            SessionEvent::PingTick(now_s) => {
                if now_s >= self.last_heard_s && now_s - self.last_heard_s >= PONG_TIMEOUT_S {
                    self.end()
                } else {
                    SessionAction::Ping
                }
            },
            SessionEvent::Received(f, now_s) => self.receive(f, now_s),
            SessionEvent::Ended => self.end(),
            SessionEvent::SendFailed => self.stop_sending(),
        }
    }
}

/// A session after a run of events.
pub open spec fn session_run(s: SessionModel, events: Seq<SessionEvent>) -> SessionModel
    decreases events.len(),
{
    if events.len() == 0 {
        s
    } else {
        session_after(session_run(s, events.drop_last()), events.last())
    }
}

/// A session that is over stays over, and nothing more is done on its socket.
pub proof fn law_a_closed_session_stays_closed(s: SessionModel, events: Seq<SessionEvent>, e: SessionEvent)
    requires
        !s.open,
    ensures
        session_run(s, events) == s,
        session_action(session_run(s, events), e) is Close,
    decreases events.len(),
{
    if events.len() > 0 {
        law_a_closed_session_stays_closed(s, events.drop_last(), e);
    }
}

/// Once sending is over it stays over: a session that goes on does nothing but
/// take in what the client sends.
pub proof fn law_sending_never_starts_again(
    s: SessionModel,
    events: Seq<SessionEvent>,
    e: SessionEvent,
)
    requires
        !s.sending,
    ensures
        !session_run(s, events).sending,
        ({
            let a = session_action(session_run(s, events), e);
            a is Handle || a is Wait || a is StopSending || a is Close
        }),
    decreases events.len(),
{
    if events.len() > 0 {
        law_sending_never_starts_again(s, events.drop_last(), e);
    }
}

/// Whatever a client sends is handled until its session is over, whether or not
/// anything can still be sent to it.
pub proof fn law_a_client_is_heard_until_its_session_ends(
    s: SessionModel,
    data: Vec<u8>,
    now_s: u64,
)
    requires
        s.open,
    ensures
        session_after(s, SessionEvent::Received(ClientFrame::Binary(data), now_s)).open,
        session_action(s, SessionEvent::Received(ClientFrame::Binary(data), now_s))
            == SessionAction::Handle(data),
{
}

/// A session ends when the client leaves, when it has been silent for too long
/// while it was being pinged, and when an answer comes that cannot be sent;
/// nothing else ends it.
pub proof fn law_what_ends_a_session(s: SessionModel, e: SessionEvent)
    requires
        s.open,
    ensures
        !session_after(s, e).open <==> {
            ||| e is Ended
            ||| (e matches SessionEvent::Received(f, _) && (f is Close || f is Failed))
            ||| (e matches SessionEvent::PingTick(now_s) && s.sending && is_dead(
                s.last_heard_s,
                now_s,
            ))
            ||| (!s.sending && e is Answer)
        },
{
}

/// A ping tick closes a session that sends exactly when nothing was heard from
/// the client for the whole timeout; any frame starts the timeout anew.
pub proof fn law_only_silence_is_taken_for_death(
    s: SessionModel,
    frame: ClientFrame,
    heard_s: u64,
    now_s: u64,
)
    requires
        s.open,
        s.sending,
        !(frame is Close),
        !(frame is Failed),
    ensures
        ({
            let heard = session_after(s, SessionEvent::Received(frame, heard_s));
            session_action(heard, SessionEvent::PingTick(now_s)) is Close <==> now_s
                >= heard_s + PONG_TIMEOUT_S
        }),
{
}

/// A feed that ends takes the sending with it only if it is the telemetry; a
/// feed that falls behind never does, and no feed ends the session.
pub proof fn law_only_telemetry_stops_the_sending(s: SessionModel, feed: Feed, d: Delivery)
    requires
        s.open,
        s.sending,
    ensures
        session_after(s, SessionEvent::Feed(feed, d)).open,
        !session_after(s, SessionEvent::Feed(feed, d)).sending <==> feed is State && d is Closed,
{
}

/// The socket carries every tile frame that the protocol reads: one that is too
/// long for the socket would be refused by the parser as well.
pub proof fn law_the_socket_carries_every_tile_frame(
    d: Seq<u8>,
    r: Result<envelope::IncomingMessage, tags::ProtocolError>,
)
    requires
        envelope::tiles_reading(d, r),
        r is Ok,
    ensures
        d.len() <= MAX_INCOMING_MESSAGE_SIZE,
{
}

/// The terrain origin, kept for clients that join after it was announced.
#[derive(Debug)]
pub struct LatestOrigin {
    latest: Option<TerrainOrigin>,
}

impl View for LatestOrigin {
    type V = Option<TerrainOrigin>;

    closed spec fn view(&self) -> Option<TerrainOrigin> {
        self.latest
    }
}

impl LatestOrigin {
    /// Before there is an origin.
    pub fn new() -> (r: LatestOrigin)
        ensures
            r@ is None,
    {
        LatestOrigin { latest: None }
    }

    /// A new origin, kept for clients that join later.
    pub fn on_origin(&mut self, origin: TerrainOrigin)
        ensures
            final(self)@ == Some(origin),
    {
        self.latest = Some(origin);
    }

    /// The origin a client that joins now is sent.
    pub fn latest(&self) -> (r: Option<TerrainOrigin>)
        ensures
            r == self@,
    {
        self.latest
    }
}

/// Only the local development pages may connect unless others are named, and
/// then only those.
pub proof fn law_who_may_connect(allowed: Seq<String>, origins: Seq<String>, i: int)
    requires
        may_connect(allowed, origins),
        0 <= i < origins.len(),
    ensures
        allowed.len() > 0 ==> origins.len() == allowed.len() && origins[i]@ == allowed[i]@,
        allowed.len() == 0 ==> origins.len() == 4,
        allowed.len() == 0 && i == 0 ==> origins[i]@ == "http://localhost:3000"@,
        allowed.len() == 0 && i == 1 ==> origins[i]@ == "http://localhost:5173"@,
        allowed.len() == 0 && i == 2 ==> origins[i]@ == "http://127.0.0.1:3000"@,
        allowed.len() == 0 && i == 3 ==> origins[i]@ == "http://127.0.0.1:5173"@,
{
}

/// A version is its three numbers, the major one first, with points between.
pub proof fn law_how_a_version_is_written(major: u8, minor: u8, patch: u8)
    ensures
        ({
            let v = version_text(major, minor, patch);
            let a = text::decimal(major as nat).len() as int;
            let b = a + 1 + text::decimal(minor as nat).len();
            &&& text::decimal_value(v.take(a)) == major
            &&& v[a] == '.'
            &&& text::decimal_value(v.subrange(a + 1, b)) == minor
            &&& v[b] == '.'
            &&& text::decimal_value(v.skip(b + 1)) == patch
        }),
{
    reveal_strlit(".");
    let v = version_text(major, minor, patch);
    let a = text::decimal(major as nat).len() as int;
    let b = a + 1 + text::decimal(minor as nat).len();
    assert(v.take(a) =~= text::decimal(major as nat));
    assert(v.subrange(a + 1, b) =~= text::decimal(minor as nat));
    assert(v.skip(b + 1) =~= text::decimal(patch as nat));
    text::law_a_number_in_decimal_reads_back(major as nat, 0);
    text::law_a_number_in_decimal_reads_back(minor as nat, 0);
    text::law_a_number_in_decimal_reads_back(patch as nat, 0);
}

/// A new client learns the daemon's version and its six features first, and
/// then where the terrain is, if that is known.
pub proof fn law_what_a_new_client_is_sent(
    r: Seq<OutgoingMessage>,
    version: Seq<char>,
    origin: Option<TerrainOrigin>,
)
    requires
        greets(r, version, origin),
    ensures
        r[0] matches OutgoingMessage::Capabilities(c) && c.daemon_version@ == version
            && c.features@.len() == 6 && c.features@[0]@ == "param_snapshot"@,
        origin is None ==> r.len() == 1,
        origin matches Some(o) ==> r.len() == 2 && r[1] == OutgoingMessage::TerrainOrigin(o),
{
}

/// A tile goes on the wire at its own place in the list, with its own
/// coordinate.
pub proof fn law_tiles_go_on_the_wire_in_order(tiles: Seq<TileCoord>, i: int)
    ensures
        on_wire(tiles).len() == tiles.len(),
        0 <= i < tiles.len() ==> on_wire(tiles)[i].x == tiles[i].x && on_wire(tiles)[i].y
            == tiles[i].y && on_wire(tiles)[i].z == tiles[i].z,
{
}

/// The same tiles are asked for every half second at first, and every five
/// seconds once they were asked for six times more without an answer.
pub proof fn law_how_often_terrain_is_asked_for(missing: Seq<WireTileCoord>, n: nat)
    requires
        missing.len() > 0,
    ensures
        n <= 6 ==> need_repeated(need_start(), missing, n).interval_ms == 500,
        n > 6 ==> need_repeated(need_start(), missing, n).interval_ms == 5000,
        n == 7 <==> n > 0 && need_restarts(
            need_repeated(need_start(), missing, (n - 1) as nat),
            missing,
        ),
{
    lemma_need_repeated(missing, n);
    if n > 0 {
        lemma_need_repeated(missing, (n - 1) as nat);
        if n == 1 {
            assert(missing != Seq::<WireTileCoord>::empty());
        }
    }
}

/// Other tiles than before are progress: the count starts anew, and the pace
/// stays. With nothing missing the full pace is back and the ticker restarts.
pub proof fn law_what_progress_does_to_the_pace(s: NeedModel, missing: Seq<WireTileCoord>)
    ensures
        missing.len() > 0 && missing != s.last ==> {
            let after = need_ticked(s, missing);
            &&& after.unanswered == 0
            &&& after.last == missing
            &&& after.interval_ms == s.interval_ms
            &&& !need_restarts(s, missing)
        },
        missing.len() == 0 ==> need_ticked(s, missing).interval_ms == 500 && need_ticked(
            s,
            missing,
        ).unanswered == 0 && need_restarts(s, missing),
{
}

/// A connection is dead when nothing was heard for fifteen seconds, and not
/// before.
pub proof fn law_fifteen_seconds_of_silence(last_heard_s: u64, now_s: u64)
    ensures
        is_dead(last_heard_s, now_s) <==> now_s >= last_heard_s + 15,
{
}

/// What the daemon has for a client is sent as it is, and a feed that ends is
/// listened to no longer.
pub proof fn law_what_is_sent_to_a_client(s: SessionModel, feed: Feed, m: OutgoingMessage)
    requires
        s.open,
        s.sending,
    ensures
        session_action(s, SessionEvent::Feed(feed, Delivery::Message(m))) == SessionAction::Send(m),
        session_action(s, SessionEvent::Answer(m)) == SessionAction::Send(m),
        session_action(s, SessionEvent::Feed(feed, Delivery::Lagged)) is Wait,
        !(feed is State) ==> session_action(s, SessionEvent::Feed(feed, Delivery::Closed))
            == SessionAction::Unsubscribe(feed),
        feed is State ==> session_action(s, SessionEvent::Feed(feed, Delivery::Closed))
            is StopSending,
        session_action(s, SessionEvent::SendFailed) is StopSending,
        !session_after(s, SessionEvent::SendFailed).sending,
{
}

/// A terrain tick asks for exactly the tiles that are missing, and asks for
/// nothing when none is.
pub proof fn law_what_a_terrain_tick_asks_for(s: SessionModel, missing: Vec<WireTileCoord>)
    requires
        s.open,
        s.sending,
    ensures
        ({
            let a = session_action(s, SessionEvent::TerrainTick(Some(missing)));
            let asked = match a {
                SessionAction::Send(m) => Some(m),
                SessionAction::PaceAndSend(_, m) => Some(m),
                _ => None,
            };
            &&& missing@.len() > 0 ==> (asked matches Some(OutgoingMessage::TerrainNeed(need))
                && need.coords@ == missing@)
            &&& missing@.len() == 0 ==> a == SessionAction::Pace(500)
            &&& a matches SessionAction::PaceAndSend(ms, _) ==> ms == 5000 && missing@
                == s.need.last
        }),
        session_action(s, SessionEvent::TerrainTick(None)) is Wait,
        session_after(s, SessionEvent::TerrainTick(None)) == s,
{
}

/// A client is pinged on every ping tick for as long as it is alive.
pub proof fn law_a_living_client_is_pinged(s: SessionModel, now_s: u64)
    requires
        s.open,
        s.sending,
        now_s < s.last_heard_s + 15,
    ensures
        session_action(s, SessionEvent::PingTick(now_s)) is Ping,
        session_after(s, SessionEvent::PingTick(now_s)) == s,
{
}

} // verus!
