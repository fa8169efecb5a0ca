//! Serial ports: which of them is a flight controller.
use crate::text;
use crate::text::{contains_text, replace, same_text, starts_with};
use vstd::prelude::*;

verus! {

/// USB vendor: 3DR.
pub const VID_3DR: u16 = 0x26AC;

/// USB vendor: NXP.
pub const VID_NXP: u16 = 0x1FC9;

/// USB vendor: Holybro.
pub const VID_HOLYBRO_1: u16 = 0x2DAE;

/// USB vendor: Holybro, newer boards.
pub const VID_HOLYBRO_2: u16 = 0x3162;

/// How long one port is probed for a heartbeat, in milliseconds. Heartbeats
/// come once a second: this allows for one that was missed.
pub const PROBE_WINDOW_MS: u64 = 1500;

/// First byte of a MAVLink 1 frame.
pub const MAVLINK_V1_MAGIC: u8 = 0xFE;

/// First byte of a MAVLink 2 frame.
pub const MAVLINK_V2_MAGIC: u8 = 0xFD;

/// Length at which a probe forgets the older part of what it has read.
pub const SCAN_WINDOW_LIMIT: usize = 4096;

/// How much a probe keeps when it forgets the rest.
pub const SCAN_WINDOW_KEPT: usize = 512;

/// How to open a serial port.
#[derive(Clone, Copy, Debug, PartialEq, Eq, Structural)]
pub struct SerialConfig {
    /// Baud rate.
    pub baud_rate: u32,
    /// Read timeout in milliseconds.
    pub timeout_ms: u64,
}

impl Default for SerialConfig {
    fn default() -> (r: SerialConfig)
        ensures
            r == (SerialConfig { baud_rate: 921600, timeout_ms: 100 }),
    {
        SerialConfig { baud_rate: 921600, timeout_ms: 100 }
    }
}

impl SerialConfig {
    /// The default configuration at another baud rate.
    pub fn new(baud_rate: u32) -> (r: SerialConfig)
        ensures
            r == (SerialConfig { baud_rate, timeout_ms: 100 }),
    {
        SerialConfig { baud_rate, timeout_ms: 100 }
    }

    /// The same configuration with another timeout.
    pub fn with_timeout(self, timeout_ms: u64) -> (r: SerialConfig)
        ensures
            r == (SerialConfig { timeout_ms, ..self }),
    {
        SerialConfig { timeout_ms, ..self }
    }
}

/// What went wrong with a serial port; `detail` is the system's own words.
#[derive(Clone, Debug)]
pub enum SerialError {
    /// The ports could not be listed.
    EnumerationFailed {
        /// What the system said.
        detail: String,
    },
    /// A port could not be opened.
    OpenFailed {
        /// The port.
        port: String,
        /// What the system said.
        detail: String,
    },
    /// There is no board.
    NoFcFound,
}

impl SerialError {
    /// What the user is told.
    pub open spec fn message(self) -> Seq<char> {
        match self {
            SerialError::EnumerationFailed { detail } => "Failed to enumerate serial ports: "@
                + detail@,
            SerialError::OpenFailed { port, detail } => "Failed to open serial port '"@ + port@
                + "': "@ + detail@,
            SerialError::NoFcFound => "No PX4 boards found"@,
        }
    }

    /// What the user is told.
    pub fn text(&self) -> (r: String)
        ensures
            r@ == self.message(),
    {
        match self {
            SerialError::EnumerationFailed { detail } => {
                let mut out: String = "Failed to enumerate serial ports: ".to_owned();
                out.append(detail.as_str());
                out
            },
            SerialError::OpenFailed { port, detail } => {
                let mut out: String = "Failed to open serial port '".to_owned();
                out.append(port.as_str());
                out.append("': ");
                out.append(detail.as_str());
                assert(out@ =~= self.message());
                out
            },
            SerialError::NoFcFound => "No PX4 boards found".to_owned(),
        }
    }
}

/// Whether a USB vendor is one of the known board manufacturers.
pub open spec fn known_vendor(vid: u16) -> bool {
    vid == VID_3DR || vid == VID_NXP || vid == VID_HOLYBRO_1 || vid == VID_HOLYBRO_2
}

/// Whether a USB vendor is one of the known board manufacturers.
pub fn is_pixhawk_vid(vid: u16) -> (r: bool)
    ensures
        r == known_vendor(vid),
{
    vid == VID_3DR || vid == VID_NXP || vid == VID_HOLYBRO_1 || vid == VID_HOLYBRO_2
}

/// The `tty` name of a `cu` device, which macOS gives the same hardware.
pub fn tty_variant(port: &str) -> (r: Option<String>)
    ensures
        r is Some <==> "/dev/cu."@.is_prefix_of(port@),
        r matches Some(t) ==> t@ == text::replaced(port@, "/dev/cu."@, "/dev/tty."@, 0),
{
    if starts_with(port, "/dev/cu.") {
        proof {
            reveal_strlit("/dev/cu.");
        }
        Some(replace(port, "/dev/cu.", "/dev/tty."))
    } else {
        None
    }
}

/// The name by which to open a port.
pub open spec fn opened_as(port: Seq<char>, tty_exists: bool) -> Seq<char> {
    if tty_exists && "/dev/cu."@.is_prefix_of(port) {
        text::replaced(port, "/dev/cu."@, "/dev/tty."@, 0)
    } else {
        port
    }
}

/// The name by which to open a port. A `cu` device holds back what it reads
/// until its control line is raised, which nobody does here, so the `tty`
/// device is opened in its place where there is one.
pub fn maybe_prefer_tty(port: &str, tty_exists: bool) -> (r: String)
    ensures
        r@ == opened_as(port@, tty_exists),
{
    if tty_exists {
        match tty_variant(port) {
            Some(tty) => {
                return tty;
            },
            None => {},
        }
    }
    port.to_owned()
}

/// Whether a port's name says that it is never a flight controller.
pub open spec fn excluded(name: Seq<char>) -> bool {
    ||| text::occurs(name, "Bluetooth"@)
    ||| text::occurs(name, "bluetooth"@)
    ||| text::occurs(name, "debug-console"@)
    ||| text::occurs(name, "wlan-debug"@)
    ||| text::occurs(name, "SOC"@)
    ||| text::occurs(name, "MALS"@)
    ||| text::occurs(name, "AirPods"@)
}

/// Whether a port's name says that it is never a flight controller. Bluetooth
/// bridges, debug consoles and wireless adapters are consistent in their names
/// and inconsistent in how they describe themselves.
pub fn is_excluded_port(name: &str) -> (r: bool)
    ensures
        r == excluded(name@),
{
    contains_text(name, "Bluetooth") || contains_text(name, "bluetooth") || contains_text(
        name,
        "debug-console",
    ) || contains_text(name, "wlan-debug") || contains_text(name, "SOC") || contains_text(
        name,
        "MALS",
    ) || contains_text(name, "AirPods")
}

/// A serial port of this machine.
#[derive(Clone, Debug)]
pub struct PortInfo {
    /// Its name.
    pub name: String,
    /// The name by which to open it.
    pub preferred: String,
    /// Its USB vendor; `None` for a port that is not USB.
    pub vid: Option<u16>,
}

/// The names of some texts.
pub open spec fn names(v: Seq<String>) -> Seq<Seq<char>> {
    v.map_values(|s: String| s@)
}

/// A list with one more name, unless it holds that name already.
pub open spec fn with_name(list: Seq<Seq<char>>, name: Seq<char>) -> Seq<Seq<char>> {
    if list.contains(name) {
        list
    } else {
        list.push(name)
    }
}

/// Whether a port is a board of a known manufacturer.
pub open spec fn recognised(p: PortInfo) -> bool {
    p.vid matches Some(vid) && known_vendor(vid)
}

/// Whether a port could still be a flight controller: USB, of another
/// manufacturer, and not known to be something else.
pub open spec fn worth_probing(p: PortInfo) -> bool {
    &&& p.vid matches Some(vid) && !known_vendor(vid)
    &&& !excluded(p.name@)
}

/// The names of the recognised boards, each once, in the order of the ports.
pub open spec fn recognised_names(ports: Seq<PortInfo>) -> Seq<Seq<char>>
    decreases ports.len(),
{
    if ports.len() == 0 {
        Seq::empty()
    } else if recognised(ports.last()) {
        with_name(recognised_names(ports.drop_last()), ports.last().preferred@)
    } else {
        recognised_names(ports.drop_last())
    }
}

/// The names of the ports worth probing, each once, in the order of the ports.
pub open spec fn probed_names(ports: Seq<PortInfo>) -> Seq<Seq<char>>
    decreases ports.len(),
{
    if ports.len() == 0 {
        Seq::empty()
    } else if worth_probing(ports.last()) {
        with_name(probed_names(ports.drop_last()), ports.last().preferred@)
    } else {
        probed_names(ports.drop_last())
    }
}

fn push_name(list: &mut Vec<String>, name: &String)
    ensures
        names(final(list)@) == with_name(names(old(list)@), name@),
{
    let mut i: usize = 0;
    while i < list.len()
        invariant
            i <= list@.len(),
            *list == *old(list),
            forall|j: int| 0 <= j < i ==> (#[trigger] list@[j])@ != name@,
        decreases list@.len() - i,
    {
        if same_text(list[i].as_str(), name.as_str()) {
            assert(names(list@)[i as int] == name@);
            return ;
        }
        i = i + 1;
    }
    assert(!names(list@).contains(name@)) by {
        assert forall|j: int| 0 <= j < names(list@).len() implies names(list@)[j] != name@ by {
            assert(names(list@)[j] == list@[j]@);
        }
    }
    let ghost before = list@;
    list.push(name.clone());
    assert(names(list@) =~= names(before).push(name@));
}

/// The ports that appear to be flight controllers, by USB vendor.
pub fn find_pixhawk_ports(ports: &Vec<PortInfo>) -> (r: Vec<String>)
    ensures
        names(r@) == recognised_names(ports@),
{
    let mut found: Vec<String> = Vec::new();
    let mut i: usize = 0;
    assert(names(found@) =~= Seq::empty());
    while i < ports.len()
        invariant
            i <= ports@.len(),
            names(found@) == recognised_names(ports@.take(i as int)),
        decreases ports@.len() - i,
    {
        assert(ports@.take(i + 1).drop_last() =~= ports@.take(i as int));
        assert(ports@.take(i + 1).last() == ports@[i as int]);
        match ports[i].vid {
            Some(vid) => {
                if is_pixhawk_vid(vid) {
                    push_name(&mut found, &ports[i].preferred);
                }
            },
            None => {},
        }
        i = i + 1;
    }
    assert(ports@.take(i as int) =~= ports@);
    found
}

/// The ports that no vendor list recognises but that could be a flight
/// controller all the same. Probing a Bluetooth modem or a debug console would
/// waste time and could disturb something that is in use.
pub fn candidate_probe_ports(ports: &Vec<PortInfo>) -> (r: Vec<String>)
    ensures
        names(r@) == probed_names(ports@),
{
    let mut found: Vec<String> = Vec::new();
    let mut i: usize = 0;
    assert(names(found@) =~= Seq::empty());
    while i < ports.len()
        invariant
            i <= ports@.len(),
            names(found@) == probed_names(ports@.take(i as int)),
        decreases ports@.len() - i,
    {
        assert(ports@.take(i + 1).drop_last() =~= ports@.take(i as int));
        assert(ports@.take(i + 1).last() == ports@[i as int]);
        match ports[i].vid {
            Some(vid) => {
                if !is_pixhawk_vid(vid) && !is_excluded_port(ports[i].name.as_str()) {
                    push_name(&mut found, &ports[i].preferred);
                }
            },
            None => {},
        }
        i = i + 1;
    }
    assert(ports@.take(i as int) =~= ports@);
    found
}

/// A port is never both recognised and probed, and an excluded port is never
/// probed.
pub proof fn law_recognised_ports_are_never_probed(p: PortInfo)
    ensures
        recognised(p) ==> !worth_probing(p),
        excluded(p.name@) ==> !worth_probing(p),
{
}

/// Every recognised board is found, nothing else is, and none is found twice.
pub proof fn law_found_ports_are_the_recognised_ones(ports: Seq<PortInfo>)
    ensures
        recognised_names(ports).no_duplicates(),
        forall|name: Seq<char>| #[trigger]
            recognised_names(ports).contains(name) <==> exists|i: int|
                0 <= i < ports.len() && recognised(#[trigger] ports[i]) && ports[i].preferred@
                    == name,
    decreases ports.len(),
{
    if ports.len() > 0 {
        let rest = ports.drop_last();
        law_found_ports_are_the_recognised_ones(rest);
        let list = recognised_names(rest);
        let all = recognised_names(ports);
        assert forall|name: Seq<char>| #[trigger] all.contains(name) <==> exists|i: int|
            0 <= i < ports.len() && recognised(#[trigger] ports[i]) && ports[i].preferred@
                == name by {
            if recognised(ports.last()) && !list.contains(ports.last().preferred@) {
                lemma_push_contains(list, ports.last().preferred@, name);
            }
            if list.contains(name) {
                let i = choose|i: int|
                    0 <= i < rest.len() && recognised(#[trigger] rest[i]) && rest[i].preferred@
                        == name;
                assert(ports[i] == rest[i]);
            }
            if exists|i: int|
                0 <= i < ports.len() && recognised(#[trigger] ports[i]) && ports[i].preferred@
                    == name {
                let i = choose|i: int|
                    0 <= i < ports.len() && recognised(#[trigger] ports[i]) && ports[i].preferred@
                        == name;
                if i < rest.len() {
                    assert(rest[i] == ports[i]);
                    assert(list.contains(name));
                }
            }
        }
    }
}

/// Every port worth probing is probed, nothing else is, and none is probed
/// twice.
pub proof fn law_probed_ports_are_those_worth_probing(ports: Seq<PortInfo>)
    ensures
        probed_names(ports).no_duplicates(),
        forall|name: Seq<char>| #[trigger]
            probed_names(ports).contains(name) <==> exists|i: int|
                0 <= i < ports.len() && worth_probing(#[trigger] ports[i]) && ports[i].preferred@
                    == name,
    decreases ports.len(),
{
    if ports.len() > 0 {
        let rest = ports.drop_last();
        law_probed_ports_are_those_worth_probing(rest);
        let list = probed_names(rest);
        let all = probed_names(ports);
        assert forall|name: Seq<char>| #[trigger] all.contains(name) <==> exists|i: int|
            0 <= i < ports.len() && worth_probing(#[trigger] ports[i]) && ports[i].preferred@
                == name by {
            if worth_probing(ports.last()) && !list.contains(ports.last().preferred@) {
                lemma_push_contains(list, ports.last().preferred@, name);
            }
            if list.contains(name) {
                let i = choose|i: int|
                    0 <= i < rest.len() && worth_probing(#[trigger] rest[i]) && rest[i].preferred@
                        == name;
                assert(ports[i] == rest[i]);
            }
            if exists|i: int|
                0 <= i < ports.len() && worth_probing(#[trigger] ports[i]) && ports[i].preferred@
                    == name {
                let i = choose|i: int|
                    0 <= i < ports.len() && worth_probing(#[trigger] ports[i]) && ports[i].preferred@
                        == name;
                if i < rest.len() {
                    assert(rest[i] == ports[i]);
                    assert(list.contains(name));
                }
            }
        }
    }
}

proof fn lemma_push_contains(list: Seq<Seq<char>>, last: Seq<char>, name: Seq<char>)
    ensures
        list.push(last).contains(name) <==> list.contains(name) || name == last,
{
    let all = list.push(last);
    if list.contains(name) {
        let i = list.index_of(name);
        assert(all[i] == name);
    }
    if name == last {
        assert(all[list.len() as int] == name);
    }
}

/// What looking for a flight controller came to.
#[derive(Clone, Debug)]
pub struct DetectionOutcome {
    /// The ports that are, or appear to be, flight controllers.
    pub found: Vec<String>,
    /// Every port that was considered. "Examined these three ports" tells the
    /// user what to do; "none found" does not.
    pub examined: Vec<String>,
    /// Whether the port was adopted by probing rather than by its vendor.
    pub adopted_by_probe: bool,
}

/// How many candidates have been examined: those up to the first on which a
/// heartbeat was heard, or all that were probed.
pub open spec fn examined_count(candidates: nat, heard: Seq<bool>) -> nat {
    let n = first_heard(heard, 0);
    if n < heard.len() && n < candidates {
        (n + 1) as nat
    } else if heard.len() < candidates {
        heard.len()
    } else {
        candidates
    }
}

/// The first candidate from `i` on which a heartbeat was heard.
pub open spec fn first_heard(heard: Seq<bool>, i: int) -> int
    decreases heard.len() - i,
{
    if i >= heard.len() || i < 0 || heard[i] {
        i
    } else {
        first_heard(heard, i + 1)
    }
}

/// Whether probing has found a flight controller.
pub open spec fn probe_succeeded(candidates: nat, heard: Seq<bool>) -> bool {
    first_heard(heard, 0) < heard.len() && first_heard(heard, 0) < candidates
}

fn find_heard(heard: &Vec<bool>) -> (r: usize)
    ensures
        r == first_heard(heard@, 0),
        r <= heard@.len(),
{
    let mut i: usize = 0;
    while i < heard.len() && !heard[i]
        invariant
            i <= heard@.len(),
            first_heard(heard@, 0) == first_heard(heard@, i as int),
        decreases heard@.len() - i,
    {
        i = i + 1;
    }
    i
}

fn copy_names(list: &Vec<String>, count: usize) -> (r: Vec<String>)
    requires
        count <= list@.len(),
    ensures
        names(r@) == names(list@).take(count as int),
{
    let mut out: Vec<String> = Vec::new();
    let mut i: usize = 0;
    assert(names(out@) =~= names(list@).take(0));
    while i < count
        invariant
            i <= count,
            count <= list@.len(),
            names(out@) == names(list@).take(i as int),
        decreases count - i,
    {
        let ghost before = out@;
        out.push(list[i].clone());
        assert(names(out@) =~= names(before).push(names(list@)[i as int]));
        i = i + 1;
        assert(names(out@) =~= names(list@).take(i as int));
    }
    out
}

/// The next candidate to probe.
pub open spec fn probe_after(known: nat, candidates: nat, heard: Seq<bool>) -> Option<usize> {
    if known > 0 || heard.len() >= candidates || probe_succeeded(candidates, heard) {
        None
    } else {
        Some(heard.len() as usize)
    }
}

/// The next candidate to probe: none once a board was recognised or a heartbeat
/// was heard, or when every candidate was tried. Recognised hardware never pays
/// for probing.
pub fn next_probe(known: &Vec<String>, candidates: &Vec<String>, heard: &Vec<bool>) -> (r: Option<
    usize,
>)
    ensures
        r == probe_after(known@.len(), candidates@.len(), heard@),
{
    if known.len() > 0 || heard.len() >= candidates.len() {
        return None;
    }
    let first: usize = find_heard(heard);
    if first < heard.len() {
        None
    } else {
        Some(heard.len())
    }
}

/// Whether this is what the search comes to.
pub open spec fn comes_to(
    known: Seq<Seq<char>>,
    candidates: Seq<Seq<char>>,
    heard: Seq<bool>,
    r: DetectionOutcome,
) -> bool {
    if known.len() > 0 {
        &&& names(r.found@) == known
        &&& names(r.examined@) == known
        &&& !r.adopted_by_probe
    } else {
        &&& names(r.examined@) == candidates.take(
            examined_count(candidates.len(), heard) as int,
        )
        &&& r.adopted_by_probe == probe_succeeded(candidates.len(), heard)
        &&& names(r.found@) == if probe_succeeded(candidates.len(), heard) {
            seq![candidates[first_heard(heard, 0)]]
        } else {
            Seq::empty()
        }
    }
}

/// What the search comes to, when `heard` tells on which of the candidates a
/// heartbeat was heard. A port that could not be opened was not heard.
pub fn detect_flight_controller(
    known: &Vec<String>,
    candidates: &Vec<String>,
    heard: &Vec<bool>,
) -> (r: DetectionOutcome)
    ensures
        comes_to(names(known@), names(candidates@), heard@, r),
{
    if known.len() > 0 {
        let found: Vec<String> = copy_names(known, known.len());
        let examined: Vec<String> = copy_names(known, known.len());
        assert(names(known@).take(known@.len() as int) =~= names(known@));
        return DetectionOutcome { found, examined, adopted_by_probe: false };
    }
    let first: usize = find_heard(heard);
    if first < heard.len() && first < candidates.len() {
        let mut found: Vec<String> = Vec::new();
        found.push(candidates[first].clone());
        assert(names(found@) =~= seq![candidates@[first as int]@]);
        DetectionOutcome {
            found,
            examined: copy_names(candidates, first + 1),
            adopted_by_probe: true,
        }
    } else {
        let count: usize = if heard.len() < candidates.len() {
            heard.len()
        } else {
            candidates.len()
        };
        let found: Vec<String> = Vec::new();
        assert(names(found@) =~= Seq::empty());
        DetectionOutcome { found, examined: copy_names(candidates, count), adopted_by_probe: false }
    }
}

/// Whether a heartbeat's frame header stands at a place.
pub open spec fn heartbeat_at(b: Seq<u8>, i: int) -> bool {
    &&& 0 <= i < b.len()
    &&& {
        ||| b[i] == MAVLINK_V1_MAGIC && i + 5 < b.len() && b[i + 5] == 0
        ||| b[i] == MAVLINK_V2_MAGIC && i + 9 < b.len() && b[i + 7] == 0 && b[i + 8] == 0 && b[i + 9]
            == 0
    }
}

/// Whether a run of bytes holds a heartbeat's frame header.
pub open spec fn holds_heartbeat(b: Seq<u8>) -> bool {
    exists|i: int| #[trigger] heartbeat_at(b, i)
}

/// Whether a run of bytes holds a heartbeat's frame header, of MAVLink 1 or 2.
///
/// Only the header is looked at: the question is whether a flight controller
/// talks on this port, not whether the frame is intact.
pub fn contains_heartbeat(bytes: &[u8]) -> (r: bool)
    ensures
        r == holds_heartbeat(bytes@),
{
    let n: usize = bytes.len();
    let mut i: usize = 0;
    while i < n
        invariant
            n == bytes@.len(),
            i <= n,
            forall|j: int| 0 <= j < i ==> !#[trigger] heartbeat_at(bytes@, j),
        decreases n - i,
    {
        let b: u8 = bytes[i];
        if b == MAVLINK_V1_MAGIC && n - i > 5 {
            if bytes[i + 5] == 0 {
                assert(heartbeat_at(bytes@, i as int));
                return true;
            }
        }
        if b == MAVLINK_V2_MAGIC && n - i > 9 {
            if bytes[i + 7] == 0 && bytes[i + 8] == 0 && bytes[i + 9] == 0 {
                assert(heartbeat_at(bytes@, i as int));
                return true;
            }
        }
        i = i + 1;
    }
    false
}

/// What one read of a probed port gave.
#[derive(Debug)]
pub enum PortRead {
    /// Some bytes.
    Data(Vec<u8>),
    /// Nothing, for now.
    Quiet,
    /// The port failed.
    Failed,
    /// The time for this port is over.
    Deadline,
}

/// Where a probe stands.
#[derive(Clone, Copy, Debug, PartialEq, Eq, Structural)]
pub enum ScanStep {
    /// Still listening.
    Listening,
    /// A heartbeat was heard.
    Heard,
    /// There is no heartbeat on this port.
    GivenUp,
}

/// What a probe remembers after some bytes: enough to span a header that is
/// split between two reads.
pub open spec fn scan_kept(window: Seq<u8>) -> Seq<u8> {
    if window.len() > SCAN_WINDOW_LIMIT {
        window.skip(window.len() - SCAN_WINDOW_KEPT)
    } else {
        window
    }
}

/// Where a probe that remembers `window` stands after a read.
pub open spec fn scan_step(window: Seq<u8>, read: PortRead) -> ScanStep {
    match read {
        PortRead::Data(chunk) => if holds_heartbeat(window + chunk@) {
            ScanStep::Heard
        } else {
            ScanStep::Listening
        },
        PortRead::Quiet => ScanStep::Listening,
        PortRead::Failed => ScanStep::GivenUp,
        PortRead::Deadline => ScanStep::GivenUp,
    }
}

/// What a probe that remembers `window` remembers after a read.
pub open spec fn scan_window(window: Seq<u8>, read: PortRead) -> Seq<u8> {
    match read {
        PortRead::Data(chunk) => if holds_heartbeat(window + chunk@) {
            window + chunk@
        } else {
            scan_kept(window + chunk@)
        },
        _ => window,
    }
}

/// One read of a probed port, which remembers `window`. A probe only listens:
/// the device may be a printer or a debug probe, and unasked-for bytes could
/// upset it.
pub fn scan_for_heartbeat(window: &mut Vec<u8>, read: PortRead) -> (r: ScanStep)
    ensures
        r == scan_step(old(window)@, read),
        final(window)@ == scan_window(old(window)@, read),
{
    match read {
        PortRead::Data(chunk) => {
            let ghost before = window@;
            crate::bytes::push_bytes(window, chunk.as_slice());
            assert(window@ =~= before + chunk@);
            if contains_heartbeat(window.as_slice()) {
                return ScanStep::Heard;
            }
            if window.len() > SCAN_WINDOW_LIMIT {
                let tail: Vec<u8> = crate::bytes::copy_range(
                    window.as_slice(),
                    window.len() - SCAN_WINDOW_KEPT,
                    window.len(),
                );
                assert(tail@ =~= scan_kept(window@));
                *window = tail;
            }
            ScanStep::Listening
        },
        PortRead::Quiet => ScanStep::Listening,
        PortRead::Failed => ScanStep::GivenUp,
        PortRead::Deadline => ScanStep::GivenUp,
    }
}

/// The bytes of all reads, one after another.
pub open spec fn all_read(chunks: Seq<Vec<u8>>) -> Seq<u8>
    decreases chunks.len(),
{
    if chunks.len() == 0 {
        Seq::empty()
    } else {
        all_read(chunks.drop_last()) + chunks.last()@
    }
}

/// What a probe remembers after all reads, when none of them was the last.
pub open spec fn window_after(chunks: Seq<Vec<u8>>) -> Seq<u8>
    decreases chunks.len(),
{
    if chunks.len() == 0 {
        Seq::empty()
    } else {
        scan_window(window_after(chunks.drop_last()), PortRead::Data(chunks.last()))
    }
}

/// A probe hears a heartbeat exactly when there is one in what the port sent,
/// however it was split into reads and however much came before it: what the
/// probe forgets never matters.
pub proof fn law_a_probe_misses_nothing(chunks: Seq<Vec<u8>>, last: Vec<u8>)
    requires
        !holds_heartbeat(all_read(chunks)),
    ensures
        scan_step(window_after(chunks), PortRead::Data(last)) is Heard <==> holds_heartbeat(
            all_read(chunks.push(last)),
        ),
{
    assert(chunks.push(last).drop_last() =~= chunks);
    lemma_window_is_a_tail(chunks);
    lemma_tail_suffices(all_read(chunks), window_after(chunks), last@);
}

/// Whether `w` is an end of `s` that is long enough.
spec fn long_tail(s: Seq<u8>, w: Seq<u8>) -> bool {
    &&& w.len() <= s.len()
    &&& w.len() >= 9 || w.len() == s.len()
    &&& forall|i: int| 0 <= i < w.len() ==> w[i] == #[trigger] s[s.len() - w.len() + i]
}

proof fn lemma_prefix(s: Seq<u8>, more: Seq<u8>)
    requires
        !holds_heartbeat(s + more),
    ensures
        !holds_heartbeat(s),
{
    assert forall|i: int| !#[trigger] heartbeat_at(s, i) by {
        if heartbeat_at(s, i) {
            assert(heartbeat_at(s + more, i));
        }
    }
}

proof fn lemma_tail_suffices(s: Seq<u8>, w: Seq<u8>, c: Seq<u8>)
    requires
        long_tail(s, w),
        !holds_heartbeat(s),
    ensures
        holds_heartbeat(w + c) <==> holds_heartbeat(s + c),
{
    let gone = s.len() - w.len();
    assert forall|k: int| 0 <= k < (w + c).len() implies (w + c)[k] == #[trigger] (s + c)[k
        + gone] by {
        if k < w.len() {
            assert(w[k] == s[s.len() - w.len() + k]);
        }
    }
    if holds_heartbeat(w + c) {
        let i = choose|i: int| #[trigger] heartbeat_at(w + c, i);
        assert((s + c)[i + gone] == (w + c)[i]);
        if i + 5 < (w + c).len() {
            assert((s + c)[i + 5 + gone] == (w + c)[i + 5]);
        }
        if i + 9 < (w + c).len() {
            assert((s + c)[i + 7 + gone] == (w + c)[i + 7]);
            assert((s + c)[i + 8 + gone] == (w + c)[i + 8]);
            assert((s + c)[i + 9 + gone] == (w + c)[i + 9]);
        }
        assert(heartbeat_at(s + c, i + gone));
    }
    if holds_heartbeat(s + c) {
        let i = choose|i: int| #[trigger] heartbeat_at(s + c, i);
        let k = i - gone;
        if k < 0 {
            assert(heartbeat_at(s, i));
        }
        assert((w + c)[k] == (s + c)[k + gone]);
        if i + 5 < (s + c).len() {
            assert((w + c)[k + 5] == (s + c)[k + 5 + gone]);
        }
        if i + 9 < (s + c).len() {
            assert((w + c)[k + 7] == (s + c)[k + 7 + gone]);
            assert((w + c)[k + 8] == (s + c)[k + 8 + gone]);
            assert((w + c)[k + 9] == (s + c)[k + 9 + gone]);
        }
        assert(heartbeat_at(w + c, k));
    }
}

proof fn lemma_window_is_a_tail(chunks: Seq<Vec<u8>>)
    requires
        !holds_heartbeat(all_read(chunks)),
    ensures
        long_tail(all_read(chunks), window_after(chunks)),
    decreases chunks.len(),
{
    if chunks.len() > 0 {
        let rest = chunks.drop_last();
        let c = chunks.last()@;
        let s = all_read(rest);
        let w = window_after(rest);
        lemma_prefix(s, c);
        lemma_window_is_a_tail(rest);
        lemma_tail_suffices(s, w, c);
        assert forall|i: int| 0 <= i < (w + c).len() implies (w + c)[i] == #[trigger] (s + c)[(s
            + c).len() - (w + c).len() + i] by {
            if i < w.len() {
                assert(w[i] == s[s.len() - w.len() + i]);
            }
        }
        let kept = scan_kept(w + c);
        let cut = (w + c).len() - kept.len();
        assert forall|i: int| 0 <= i < kept.len() implies kept[i] == #[trigger] (s + c)[(s
            + c).len() - kept.len() + i] by {
            assert((w + c)[cut + i] == (s + c)[(s + c).len() - (w + c).len() + (cut + i)]);
        }
    }
}

/// The manufacturers whose boards are recognised, and what is probed instead.
pub proof fn law_which_ports_are_recognised(p: PortInfo)
    ensures
        recognised(p) <==> p.vid == Some(0x26acu16) || p.vid == Some(0x1fc9u16) || p.vid == Some(
            0x2daeu16,
        ) || p.vid == Some(0x3162u16),
        worth_probing(p) <==> p.vid is Some && !recognised(p) && !excluded(p.name@),
{
}

/// A name that holds one of these words is never probed; one that holds none of
/// them may be.
pub proof fn law_which_names_are_excluded(before: Seq<char>, after: Seq<char>, name: Seq<char>)
    ensures
        excluded(before + "Bluetooth"@ + after),
        excluded(before + "bluetooth"@ + after),
        excluded(before + "debug-console"@ + after),
        excluded(before + "wlan-debug"@ + after),
        excluded(before + "SOC"@ + after),
        excluded(before + "MALS"@ + after),
        excluded(before + "AirPods"@ + after),
        excluded(name) ==> {
            ||| text::occurs(name, "Bluetooth"@)
            ||| text::occurs(name, "bluetooth"@)
            ||| text::occurs(name, "debug-console"@)
            ||| text::occurs(name, "wlan-debug"@)
            ||| text::occurs(name, "SOC"@)
            ||| text::occurs(name, "MALS"@)
            ||| text::occurs(name, "AirPods"@)
        },
{
    text::law_a_part_occurs_in_the_whole(before, "Bluetooth"@, after);
    text::law_a_part_occurs_in_the_whole(before, "bluetooth"@, after);
    text::law_a_part_occurs_in_the_whole(before, "debug-console"@, after);
    text::law_a_part_occurs_in_the_whole(before, "wlan-debug"@, after);
    text::law_a_part_occurs_in_the_whole(before, "SOC"@, after);
    text::law_a_part_occurs_in_the_whole(before, "MALS"@, after);
    text::law_a_part_occurs_in_the_whole(before, "AirPods"@, after);
}

/// A `cu` device is opened by its `tty` name where there is one; any other
/// device is opened by its own. Names that hold the path twice are left out.
pub proof fn law_by_which_name_a_port_is_opened(port: Seq<char>, device: Seq<char>)
    ensures
        opened_as(port, false) == port,
        !"/dev/cu."@.is_prefix_of(port) ==> opened_as(port, true) == port,
        (forall|i: int|
            0 < i ==> !#[trigger] text::stands_within("/dev/cu."@ + device, "/dev/cu."@, i))
            ==> opened_as("/dev/cu."@ + device, true) == "/dev/tty."@ + device,
{
    reveal_strlit("/dev/cu.");
    let s = "/dev/cu."@ + device;
    assert(s.take(8) =~= "/dev/cu."@);
    assert(s.subrange(0, 8) =~= "/dev/cu."@);
    text::law_what_occurs_is_replaced(s, "/dev/cu."@, "/dev/tty."@, 0);
    if forall|i: int| 0 < i ==> !#[trigger] text::stands_within(s, "/dev/cu."@, i) {
        lemma_rest_is_kept(s, 8);
        assert(s.skip(8) =~= device);
    }
}

proof fn lemma_rest_is_kept(s: Seq<char>, i: int)
    requires
        0 < i <= s.len(),
        forall|k: int| 0 < k ==> !#[trigger] text::stands_within(s, "/dev/cu."@, k),
    ensures
        text::replaced(s, "/dev/cu."@, "/dev/tty."@, i) == s.skip(i),
    decreases s.len() - i,
{
    reveal_strlit("/dev/cu.");
    if i < s.len() {
        lemma_rest_is_kept(s, i + 1);
        assert(!text::stands_within(s, "/dev/cu."@, i));
        assert(s.skip(i) =~= seq![s[i]] + s.skip(i + 1));
    } else {
        assert(s.skip(i) =~= Seq::empty());
    }
}

/// Ports are listed in their order: what is found among the first ports comes
/// first.
pub proof fn law_ports_are_listed_in_order(ports: Seq<PortInfo>, next: PortInfo)
    ensures
        recognised_names(ports).is_prefix_of(recognised_names(ports.push(next))),
        probed_names(ports).is_prefix_of(probed_names(ports.push(next))),
        recognised(next) && !recognised_names(ports).contains(next.preferred@) ==> recognised_names(
            ports.push(next),
        ).last() == next.preferred@,
        worth_probing(next) && !probed_names(ports).contains(next.preferred@) ==> probed_names(
            ports.push(next),
        ).last() == next.preferred@,
{
    assert(ports.push(next).drop_last() =~= ports);
    let a = recognised_names(ports);
    let b = recognised_names(ports.push(next));
    assert(a =~= b.take(a.len() as int));
    let c = probed_names(ports);
    let d = probed_names(ports.push(next));
    assert(c =~= d.take(c.len() as int));
}

/// Recognised boards are what is found, and then nothing is probed.
pub proof fn law_recognised_boards_are_found(
    known: Seq<Seq<char>>,
    candidates: Seq<Seq<char>>,
    heard: Seq<bool>,
    r: DetectionOutcome,
)
    requires
        known.len() > 0,
        comes_to(known, candidates, heard, r),
    ensures
        names(r.found@) == known,
        names(r.examined@) == known,
        !r.adopted_by_probe,
        probe_after(known.len(), candidates.len(), heard) is None,
{
}

/// The first candidate on which a heartbeat is heard is the one that is found;
/// those up to it were examined, and no further one is probed.
pub proof fn law_the_first_heartbeat_decides(
    candidates: Seq<Seq<char>>,
    heard: Seq<bool>,
    k: int,
    r: DetectionOutcome,
)
    requires
        0 <= k < heard.len() <= candidates.len(),
        heard[k],
        forall|i: int| 0 <= i < k ==> !#[trigger] heard[i],
        comes_to(Seq::empty(), candidates, heard, r),
    ensures
        names(r.found@) == seq![candidates[k]],
        names(r.examined@) == candidates.take(k + 1),
        r.adopted_by_probe,
        probe_after(0, candidates.len(), heard) is None,
{
    lemma_first_heard_at(heard, 0, k);
}

/// While no heartbeat is heard the candidates are probed in their order, and
/// when none is left nothing was found.
pub proof fn law_silent_ports_are_passed_over(
    candidates: Seq<Seq<char>>,
    heard: Seq<bool>,
    r: DetectionOutcome,
)
    requires
        heard.len() <= candidates.len() <= usize::MAX,
        forall|i: int| 0 <= i < heard.len() ==> !#[trigger] heard[i],
        comes_to(Seq::empty(), candidates, heard, r),
    ensures
        r.found@.len() == 0,
        names(r.examined@) == candidates.take(heard.len() as int),
        !r.adopted_by_probe,
        probe_after(0, candidates.len(), heard) is None <==> heard.len() == candidates.len(),
        probe_after(0, candidates.len(), heard) matches Some(next) ==> next == heard.len(),
{
    lemma_first_heard_at(heard, 0, heard.len() as int);
    assert(names(r.found@).len() == r.found@.len());
}

proof fn lemma_first_heard_at(heard: Seq<bool>, from: int, k: int)
    requires
        0 <= from <= k <= heard.len(),
        k < heard.len() ==> heard[k],
        forall|i: int| from <= i < k ==> !#[trigger] heard[i],
    ensures
        first_heard(heard, from) == k,
    decreases k - from,
{
    if from < k {
        lemma_first_heard_at(heard, from + 1, k);
    }
}

/// A heartbeat is known by its header, wherever it stands: the start byte of its
/// version, and a message number of zero.
pub proof fn law_what_is_taken_for_a_heartbeat(
    before: Seq<u8>,
    header: Seq<u8>,
    after: Seq<u8>,
    i: int,
)
    ensures
        header.len() == 6 && header[0] == 0xfe && header[5] == 0 ==> holds_heartbeat(
            before + header + after,
        ),
        header.len() == 10 && header[0] == 0xfd && header[7] == 0 && header[8] == 0 && header[9]
            == 0 ==> holds_heartbeat(before + header + after),
        heartbeat_at(header, i) ==> header[i] == 0xfe && header[i + 5] == 0 || header[i] == 0xfd
            && header[i + 7] == 0 && header[i + 8] == 0 && header[i + 9] == 0,
{
    let b = before + header + after;
    let at = before.len() as int;
    if header.len() == 6 && header[0] == 0xfe && header[5] == 0 {
        assert(b[at] == header[0] && b[at + 5] == header[5]);
        assert(heartbeat_at(b, at));
    }
    if header.len() == 10 && header[0] == 0xfd && header[7] == 0 && header[8] == 0 && header[9]
        == 0 {
        assert(b[at] == header[0] && b[at + 7] == header[7]);
        assert(b[at + 8] == header[8] && b[at + 9] == header[9]);
        assert(heartbeat_at(b, at));
    }
}

/// Only a heartbeat ends a probe well, and only a failure or the end of its time
/// ends it otherwise; what was read is remembered, the last 512 bytes of it at
/// least.
pub proof fn law_how_a_probe_goes_on(window: Seq<u8>, read: PortRead, i: int)
    ensures
        read is Quiet ==> scan_step(window, read) is Listening,
        scan_step(window, read) is GivenUp <==> read is Failed || read is Deadline,
        !(read is Data) ==> scan_window(window, read) == window,
        read matches PortRead::Data(chunk) ==> {
            let all = window + chunk@;
            let kept = scan_window(window, read);
            &&& all.len() <= 4096 ==> kept == all
            &&& all.len() > 4096 && scan_step(window, read) is Listening ==> kept.len() == 512
            &&& kept.len() <= all.len()
            &&& 0 <= i < kept.len() ==> kept[i] == all[all.len() - kept.len() + i]
        },
{
}

/// A trouble with a port is told with the port and what the system said.
pub proof fn law_what_is_told_of_a_port(e: SerialError)
    ensures
        e matches SerialError::EnumerationFailed { detail } ==> e.message()
            == "Failed to enumerate serial ports: "@ + detail@,
        e matches SerialError::OpenFailed { port, detail } ==> e.message()
            == "Failed to open serial port '"@ + port@ + "': "@ + detail@,
        e is NoFcFound ==> e.message() == "No PX4 boards found"@,
{
}

} // verus!
