//! Stable identity for a connected flight controller.
//!
//! A parameter snapshot is only safe to restore onto the board it was taken
//! from, which makes identity a correctness concern. A serial port path is not
//! identity: it changes across replug. What is left is the version report,
//! which carries a hardware serial on boards that have one.
use crate::text;
use crate::text::push_hex;
use vstd::prelude::*;

verus! {

/// What a board reports about itself.
#[derive(Clone, Copy, Debug, PartialEq, Eq, Structural)]
pub struct AutopilotVersion {
    /// Hardware serial, 0 when the board has none.
    pub uid: u64,
    /// Firmware version.
    pub flight_sw_version: u32,
    /// Board version.
    pub board_version: u32,
    /// Vendor.
    pub vendor_id: u16,
    /// Product.
    pub product_id: u16,
}

/// An opaque, stable key for one physical board. It is an identifier, never a
/// secret.
#[derive(Clone, Debug, PartialEq, Eq, Hash)]
pub struct BoardIdentity {
    key: String,
}

impl View for BoardIdentity {
    type V = Seq<char>;

    closed spec fn view(&self) -> Seq<char> {
        self.key@
    }
}

/// The key of a board with a hardware serial.
pub open spec fn uid_key(uid: u64) -> Seq<char> {
    "uid:"@ + text::hex(uid as nat, 16)
}

/// The key of a board known by its make only. Firmware version is left out:
/// identity must survive a firmware update.
pub open spec fn composite_key(av: AutopilotVersion, system_id: u8) -> Seq<char> {
    "board:"@ + text::hex(av.vendor_id as nat, 4) + "-"@ + text::hex(av.product_id as nat, 4)
        + "-"@ + text::hex(av.board_version as nat, 8) + "-"@ + text::hex(system_id as nat, 2)
}

/// The key of a board, preferring the strongest signal available.
pub open spec fn identity_key(av: AutopilotVersion, system_id: u8) -> Option<Seq<char>> {
    if av.uid != 0 {
        Some(uid_key(av.uid))
    } else if av.vendor_id != 0 || av.product_id != 0 || av.board_version != 0 {
        Some(composite_key(av, system_id))
    } else {
        None
    }
}

impl BoardIdentity {
    /// The key.
    pub fn as_str(&self) -> (r: &str)
        ensures
            r@ == self@,
    {
        self.key.as_str()
    }

    /// An identity with a given key. Identities of real boards come from
    /// [`derive`].
    pub fn from_raw_for_test(raw: &str) -> (r: BoardIdentity)
        ensures
            r@ == raw@,
    {
        BoardIdentity { key: raw.to_owned() }
    }
}

/// Derive a board identity. `None` means that nothing distinguishing is
/// available, and that this board cannot be snapshotted.
pub fn derive(av: &AutopilotVersion, system_id: u8) -> (r: Option<BoardIdentity>)
    ensures
        r is Some <==> identity_key(*av, system_id) is Some,
        r matches Some(id) ==> Some(id@) == identity_key(*av, system_id),
{
    let mut key: String = String::new();
    if av.uid != 0 {
        key.append("uid:");
        push_hex(&mut key, av.uid, 16);
        assert(key@ =~= uid_key(av.uid));
        return Some(BoardIdentity { key });
    }
    if av.vendor_id != 0 || av.product_id != 0 || av.board_version != 0 {
        key.append("board:");
        push_hex(&mut key, av.vendor_id as u64, 4);
        key.append("-");
        push_hex(&mut key, av.product_id as u64, 4);
        key.append("-");
        push_hex(&mut key, av.board_version as u64, 8);
        key.append("-");
        push_hex(&mut key, system_id as u64, 2);
        assert(key@ =~= composite_key(*av, system_id));
        return Some(BoardIdentity { key });
    }
    None
}

proof fn lemma_spans()
    ensures
        text::hex_span(2) == 0x100,
        text::hex_span(4) == 0x1_0000,
        text::hex_span(8) == 0x1_0000_0000,
        text::hex_span(16) == 0x1_0000_0000_0000_0000,
{
    reveal_with_fuel(text::hex_span, 17);
}

/// Identity does not depend on the firmware version, so a snapshot outlives a
/// firmware update.
pub proof fn law_identity_survives_a_firmware_update(
    before: AutopilotVersion,
    after: AutopilotVersion,
    system_id: u8,
)
    requires
        after == (AutopilotVersion { flight_sw_version: after.flight_sw_version, ..before }),
    ensures
        identity_key(before, system_id) == identity_key(after, system_id),
{
}

/// Boards with different hardware serials have different keys, whatever else
/// they report.
pub proof fn law_distinct_serials_have_distinct_keys(
    a: AutopilotVersion,
    b: AutopilotVersion,
    system_a: u8,
    system_b: u8,
)
    requires
        a.uid != 0,
        b.uid != 0,
        a.uid != b.uid,
    ensures
        identity_key(a, system_a) != identity_key(b, system_b),
{
    reveal_strlit("uid:");
    lemma_spans();
    let ka = uid_key(a.uid);
    let kb = uid_key(b.uid);
    if ka == kb {
        assert(text::hex(a.uid as nat, 16) =~= ka.skip(4));
        assert(text::hex(b.uid as nat, 16) =~= kb.skip(4));
        text::lemma_hex_injective(a.uid as nat, b.uid as nat, 16);
    }
}

/// A board with a serial never shares a key with a board without one.
pub proof fn law_serial_and_composite_keys_never_meet(
    a: AutopilotVersion,
    b: AutopilotVersion,
    system_a: u8,
    system_b: u8,
)
    requires
        a.uid != 0,
        b.uid == 0,
    ensures
        identity_key(a, system_a) != identity_key(b, system_b),
{
    reveal_strlit("uid:");
    reveal_strlit("board:");
    let ka = uid_key(a.uid);
    let kb = composite_key(b, system_b);
    assert(ka[0] == 'u');
    assert(kb[0] == 'b') by {
        assert(kb[0] == "board:"@[0]);
    }
}

/// Boards without a serial share a key only when everything the key is made
/// of agrees.
pub proof fn law_composite_keys_are_told_apart(
    a: AutopilotVersion,
    b: AutopilotVersion,
    system_a: u8,
    system_b: u8,
)
    requires
        composite_key(a, system_a) == composite_key(b, system_b),
    ensures
        a.vendor_id == b.vendor_id,
        a.product_id == b.product_id,
        a.board_version == b.board_version,
        system_a == system_b,
{
    reveal_strlit("board:");
    reveal_strlit("-");
    lemma_spans();
    lemma_key_parts(a, system_a);
    lemma_key_parts(b, system_b);
    text::lemma_hex_injective(a.vendor_id as nat, b.vendor_id as nat, 4);
    text::lemma_hex_injective(a.product_id as nat, b.product_id as nat, 4);
    text::lemma_hex_injective(a.board_version as nat, b.board_version as nat, 8);
    text::lemma_hex_injective(system_a as nat, system_b as nat, 2);
}

proof fn lemma_key_parts(av: AutopilotVersion, system_id: u8)
    ensures
        ({
            let k = composite_key(av, system_id);
            &&& k.subrange(6, 10) == text::hex(av.vendor_id as nat, 4)
            &&& k.subrange(11, 15) == text::hex(av.product_id as nat, 4)
            &&& k.subrange(16, 24) == text::hex(av.board_version as nat, 8)
            &&& k.subrange(25, 27) == text::hex(system_id as nat, 2)
        }),
{
    reveal_strlit("board:");
    reveal_strlit("-");
    text::lemma_hex_len(av.vendor_id as nat, 4);
    text::lemma_hex_len(av.product_id as nat, 4);
    text::lemma_hex_len(av.board_version as nat, 8);
    text::lemma_hex_len(system_id as nat, 2);
    let k = composite_key(av, system_id);
    assert(k.subrange(6, 10) =~= text::hex(av.vendor_id as nat, 4));
    assert(k.subrange(11, 15) =~= text::hex(av.product_id as nat, 4));
    assert(k.subrange(16, 24) =~= text::hex(av.board_version as nat, 8));
    assert(k.subrange(25, 27) =~= text::hex(system_id as nat, 2));
}

/// A board is known by its serial if it has one, by its make otherwise, and not
/// at all when it reports neither.
pub proof fn law_what_a_board_is_known_by(av: AutopilotVersion, system_id: u8)
    ensures
        identity_key(av, system_id) is None <==> av.uid == 0 && av.vendor_id == 0 && av.product_id
            == 0 && av.board_version == 0,
        av.uid != 0 ==> {
            let k = identity_key(av, system_id)->0;
            &&& k.len() == 20
            &&& k.take(4) == "uid:"@
            &&& text::hex_value(k.skip(4)) == av.uid
        },
        av.uid == 0 && identity_key(av, system_id) is Some ==> {
            let k = identity_key(av, system_id)->0;
            &&& k.len() == 27
            &&& k.take(6) == "board:"@
            &&& text::hex_value(k.subrange(6, 10)) == av.vendor_id
            &&& k[10] == '-'
            &&& text::hex_value(k.subrange(11, 15)) == av.product_id
            &&& k[15] == '-'
            &&& text::hex_value(k.subrange(16, 24)) == av.board_version
            &&& k[24] == '-'
            &&& text::hex_value(k.subrange(25, 27)) == system_id
        },
{
    reveal_strlit("uid:");
    reveal_strlit("board:");
    reveal_strlit("-");
    lemma_spans();
    lemma_key_parts(av, system_id);
    text::law_a_number_in_hexadecimal_reads_back(av.uid as nat, 16);
    text::law_a_number_in_hexadecimal_reads_back(av.vendor_id as nat, 4);
    text::law_a_number_in_hexadecimal_reads_back(av.product_id as nat, 4);
    text::law_a_number_in_hexadecimal_reads_back(av.board_version as nat, 8);
    text::law_a_number_in_hexadecimal_reads_back(system_id as nat, 2);
    let u = uid_key(av.uid);
    assert(u.take(4) =~= "uid:"@);
    assert(u.skip(4) =~= text::hex(av.uid as nat, 16));
    let k = composite_key(av, system_id);
    assert(k.take(6) =~= "board:"@);
}

} // verus!
