//! Parameters of the flight controller: values, requests, reads.
//!
//! PX4 silently drops a write whose type does not match the parameter's
//! declared type, so the type travels with the value from the moment it
//! arrives.
use crate::ieee::Real32;
use crate::text::{characters, same_text, utf8_text};
use vstd::prelude::*;

verus! {

/// MAVLink system of the autopilot.
pub const PX4_TARGET_SYSTEM: u8 = 1;

/// MAVLink component of the autopilot.
pub const PX4_TARGET_COMPONENT: u8 = 1;

/// How long to wait for a reply to a single read request.
pub const PARAM_READ_TIMEOUT_MS: u64 = 800;

/// Read attempts per parameter. The link is lossy, so a single unanswered
/// request is not evidence that the parameter is absent.
pub const PARAM_READ_RETRY_COUNT: u8 = 3;

/// Bytes of a parameter name on the wire.
pub const PARAM_ID_LEN: usize = 16;

/// Declared type of a parameter.
#[derive(Clone, Copy, Debug, PartialEq, Eq, Structural)]
pub enum ParamType {
    /// 8-bit unsigned.
    Uint8,
    /// 8-bit signed.
    Int8,
    /// 16-bit unsigned.
    Uint16,
    /// 16-bit signed.
    Int16,
    /// 32-bit unsigned.
    Uint32,
    /// 32-bit signed.
    Int32,
    /// 64-bit unsigned.
    Uint64,
    /// 64-bit signed.
    Int64,
    /// 32-bit floating point.
    Real32,
    /// 64-bit floating point.
    Real64,
}

impl ParamType {
    /// Whether this is an integer type.
    pub open spec fn integer(self) -> bool {
        !(self is Real32) && !(self is Real64)
    }

    /// MAVLink's number of this type.
    pub open spec fn code(self) -> u8 {
        match self {
            ParamType::Uint8 => 1,
            ParamType::Int8 => 2,
            ParamType::Uint16 => 3,
            ParamType::Int16 => 4,
            ParamType::Uint32 => 5,
            ParamType::Int32 => 6,
            ParamType::Uint64 => 7,
            ParamType::Int64 => 8,
            ParamType::Real32 => 9,
            ParamType::Real64 => 10,
        }
    }

    /// MAVLink's number of this type.
    pub fn to_code(&self) -> (r: u8)
        ensures
            r == self.code(),
    {
        match *self {
            ParamType::Uint8 => 1,
            ParamType::Int8 => 2,
            ParamType::Uint16 => 3,
            ParamType::Int16 => 4,
            ParamType::Uint32 => 5,
            ParamType::Int32 => 6,
            ParamType::Uint64 => 7,
            ParamType::Int64 => 8,
            ParamType::Real32 => 9,
            ParamType::Real64 => 10,
        }
    }
}

/// A parameter report as it comes off the wire.
#[derive(Clone, Copy, Debug)]
pub struct ParamReport {
    /// The four value bytes; integers are carried as their bits.
    pub param_value: Real32,
    /// Number of parameters of the board.
    pub param_count: u16,
    /// Index within the board's table.
    pub param_index: u16,
    /// Name, padded with NULs.
    pub param_id: [u8; 16],
    /// Declared type.
    pub param_type: ParamType,
}

/// One parameter as reported by the autopilot.
#[derive(Clone, Debug)]
pub struct ParamValue {
    /// Name.
    pub name: String,
    /// The four value bytes; integers are carried as their bits.
    pub value: Real32,
    /// Declared type. Written back as it is, because an integer parameter
    /// holding 0 cannot be told from a real one by its value.
    pub param_type: ParamType,
    /// Index within the board's table.
    pub index: u16,
}

/// `s` without the NULs at its end.
pub open spec fn trim_nuls(s: Seq<char>) -> Seq<char>
    decreases s.len(),
{
    if s.len() > 0 && s.last() == '\0' {
        trim_nuls(s.drop_last())
    } else {
        s
    }
}

/// The name in a padded name field, empty when it is not UTF-8.
pub open spec fn param_name(id: Seq<u8>) -> Seq<char> {
    if vstd::utf8::valid_utf8(id) {
        trim_nuls(vstd::utf8::decode_utf8(id))
    } else {
        Seq::empty()
    }
}

/// The name in a padded name field. A name that fills the field has no
/// terminator at all.
pub fn decode_param_id(param_id: &[u8; 16]) -> (r: String)
    ensures
        r@ == param_name(param_id@),
{
    match utf8_text(param_id.as_slice()) {
        None => String::new(),
        Some(name) => {
            let chars: Vec<char> = characters(name.as_str());
            let mut end: usize = chars.len();
            assert(name@.take(end as int) =~= name@);
            while end > 0 && chars[end - 1] == '\0'
                invariant
                    end <= chars@.len(),
                    chars@ == name@,
                    trim_nuls(name@) == trim_nuls(name@.take(end as int)),
                decreases end,
            {
                assert(name@.take(end as int).drop_last() =~= name@.take(end - 1));
                end = end - 1;
            }
            assert(name@.subrange(0, end as int) =~= name@.take(end as int));
            name.as_str().substring_char(0, end).to_owned()
        },
    }
}

/// `name` padded with NULs to the length of a name field, or cut to it.
pub open spec fn padded_id(name: Seq<u8>) -> Seq<u8> {
    Seq::new(
        16,
        |i: int|
            if i < name.len() {
                name[i]
            } else {
                0
            },
    )
}

/// `name` padded with NULs, or cut, to a name field.
pub fn encode_param_id(name: &str) -> (r: [u8; 16])
    ensures
        r@ == padded_id(vstd::utf8::encode_utf8(name@)),
{
    let raw: &[u8] = name.as_bytes();
    let mut id: [u8; 16] = [0u8;16];
    let mut i: usize = 0;
    while i < 16 && i < raw.len()
        invariant
            i <= 16,
            i <= raw@.len(),
            raw@ == vstd::utf8::encode_utf8(name@),
            forall|k: int| 0 <= k < i ==> #[trigger] id@[k] == raw@[k],
            forall|k: int| i <= k < 16 ==> #[trigger] id@[k] == 0,
        decreases 16 - i,
    {
        id[i] = raw[i];
        i = i + 1;
    }
    assert(id@ =~= padded_id(raw@));
    id
}

impl ParamValue {
    /// Read a report. `None` when the name is empty, which is how a malformed
    /// or padding-only name presents.
    pub fn from_mavlink(report: &ParamReport) -> (r: Option<ParamValue>)
        ensures
            r is Some <==> param_name(report.param_id@).len() > 0,
            r matches Some(v) ==> v.name@ == param_name(report.param_id@) && v.value
                == report.param_value && v.param_type == report.param_type && v.index
                == report.param_index,
    {
        let name: String = decode_param_id(&report.param_id);
        if name.as_str().unicode_len() == 0 {
            return None;
        }
        Some(
            ParamValue {
                name,
                value: report.param_value,
                param_type: report.param_type,
                index: report.param_index,
            },
        )
    }

    /// Whether the autopilot declares this parameter as an integer.
    pub fn is_integer(&self) -> (r: bool)
        ensures
            r == self.param_type.integer(),
    {
        match self.param_type {
            ParamType::Real32 => false,
            ParamType::Real64 => false,
            _ => true,
        }
    }

    /// The value as a number. An integer parameter carries its bits in the
    /// value field, and those bits are converted to the nearest number.
    pub fn decoded_value(&self) -> (r: Real32)
        ensures
            is_decoded(*self, r),
    {
        if self.is_integer() {
            Real32::from_i32(bits_i32(self.value.bits))
        } else {
            self.value
        }
    }
}

/// The signed integer with these bits.
pub open spec fn signed_bits(bits: u32) -> int {
    if bits >= 0x8000_0000 {
        bits - 0x1_0000_0000
    } else {
        bits as int
    }
}

/// Whether `r` is the value of a parameter as a number.
pub open spec fn is_decoded(v: ParamValue, r: Real32) -> bool {
    if v.param_type.integer() {
        let n = signed_bits(v.value.bits);
        &&& r.finite()
        &&& r.bits >= crate::ieee::SIGN_BIT_32 <==> n < 0
        &&& crate::ieee::rounds_to(
            (if n < 0 {
                -n
            } else {
                n
            }) as nat * vstd::arithmetic::power2::pow2(149),
            r.magnitude(),
            23,
        )
    } else {
        r == v.value
    }
}

/// A request to read one parameter, addressed by name.
#[derive(Clone, Copy, Debug)]
pub struct ParamRequestRead {
    /// -1: resolve by name. Indices shift between firmware builds.
    pub param_index: i16,
    /// MAVLink system.
    pub target_system: u8,
    /// MAVLink component.
    pub target_component: u8,
    /// Name field.
    pub param_id: [u8; 16],
}

/// Build a request to read a parameter by name.
pub fn make_param_request_read(name: &str) -> (r: ParamRequestRead)
    ensures
        r.param_index == -1,
        r.target_system == PX4_TARGET_SYSTEM,
        r.target_component == PX4_TARGET_COMPONENT,
        r.param_id@ == padded_id(vstd::utf8::encode_utf8(name@)),
{
    ParamRequestRead {
        param_index: -1,
        target_system: PX4_TARGET_SYSTEM,
        target_component: PX4_TARGET_COMPONENT,
        param_id: encode_param_id(name),
    }
}

/// The bytes of two texts in a row.
proof fn lemma_encode_concat(a: Seq<char>, b: Seq<char>)
    ensures
        vstd::utf8::encode_utf8(a + b) == vstd::utf8::encode_utf8(a) + vstd::utf8::encode_utf8(b),
    decreases a.len(),
{
    if a.len() == 0 {
        assert(a + b =~= b);
        assert(vstd::utf8::encode_utf8(a) + vstd::utf8::encode_utf8(b)
            =~= vstd::utf8::encode_utf8(b));
    } else {
        lemma_encode_concat(a.drop_first(), b);
        assert((a + b).drop_first() =~= a.drop_first() + b);
        let head = vstd::utf8::encode_scalar(a[0] as u32);
        let rest = vstd::utf8::encode_utf8(a.drop_first());
        assert(head + (rest + vstd::utf8::encode_utf8(b)) =~= (head + rest)
            + vstd::utf8::encode_utf8(b));
    }
}

/// NULs at the end of a text, and no others, are trimmed.
proof fn lemma_trim_nuls(s: Seq<char>, n: nat)
    requires
        s.len() == 0 || s.last() != '\0',
    ensures
        trim_nuls(s + Seq::new(n, |i: int| '\0')) == s,
    decreases n,
{
    let t = s + Seq::new(n, |i: int| '\0');
    if n == 0 {
        assert(t =~= s);
    } else {
        assert(t.last() == '\0');
        assert(t.drop_last() =~= s + Seq::new((n - 1) as nat, |i: int| '\0'));
        lemma_trim_nuls(s, (n - 1) as nat);
    }
}

/// The name in a request, a read or a write, is the name asked for: what the
/// board reports under that name field decodes to it. A name that does not fit
/// the field is cut, and one that ends in a NUL cannot be told from its padding.
pub proof fn law_a_parameter_name_survives_the_name_field(name: Seq<char>)
    requires
        vstd::utf8::encode_utf8(name).len() <= 16,
        name.len() == 0 || name.last() != '\0',
    ensures
        param_name(padded_id(vstd::utf8::encode_utf8(name))) == name,
{
    let raw = vstd::utf8::encode_utf8(name);
    let n = (16 - raw.len()) as nat;
    let nuls = Seq::new(n, |i: int| '\0');
    assert(vstd::utf8::is_ascii_chars(nuls));
    vstd::utf8::is_ascii_chars_encode_utf8(nuls);
    lemma_encode_concat(name, nuls);
    assert(padded_id(raw) =~= vstd::utf8::encode_utf8(name + nuls));
    vstd::utf8::encode_utf8_valid_utf8(name + nuls);
    vstd::utf8::encode_utf8_decode_utf8(name + nuls);
    lemma_trim_nuls(name, n);
}

/// A request to write one parameter.
#[derive(Clone, Copy, Debug)]
pub struct ParamSet {
    /// The four value bytes.
    pub param_value: Real32,
    /// MAVLink system.
    pub target_system: u8,
    /// MAVLink component.
    pub target_component: u8,
    /// Name field.
    pub param_id: [u8; 16],
    /// Declared type.
    pub param_type: ParamType,
}

/// Build a write of a floating-point parameter.
pub fn make_param_set(name: &str, value: Real32) -> (r: ParamSet)
    ensures
        r.param_value == value,
        r.target_system == PX4_TARGET_SYSTEM,
        r.target_component == PX4_TARGET_COMPONENT,
        r.param_id@ == padded_id(vstd::utf8::encode_utf8(name@)),
        r.param_type == ParamType::Real32,
{
    ParamSet {
        param_value: value,
        target_system: PX4_TARGET_SYSTEM,
        target_component: PX4_TARGET_COMPONENT,
        param_id: encode_param_id(name),
        param_type: ParamType::Real32,
    }
}

/// Build a write of an integer parameter. The integer's bits go into the value
/// field; writing the number there instead makes PX4 drop the message.
pub fn make_param_set_i32(name: &str, value: i32) -> (r: ParamSet)
    ensures
        signed_bits(r.param_value.bits) == value,
        r.target_system == PX4_TARGET_SYSTEM,
        r.target_component == PX4_TARGET_COMPONENT,
        r.param_id@ == padded_id(vstd::utf8::encode_utf8(name@)),
        r.param_type == ParamType::Int32,
{
    let bits: u32 = i32_bits(value);
    ParamSet {
        param_value: Real32::from_bits(bits),
        target_system: PX4_TARGET_SYSTEM,
        target_component: PX4_TARGET_COMPONENT,
        param_id: encode_param_id(name),
        param_type: ParamType::Int32,
    }
}

/// The bits of a signed integer.
pub fn i32_bits(value: i32) -> (r: u32)
    ensures
        signed_bits(r) == value,
{
    if value < 0 {
        (0x1_0000_0000i64 + value as i64) as u32
    } else {
        value as u32
    }
}

/// The signed integer with these bits.
pub fn bits_i32(bits: u32) -> (r: i32)
    ensures
        r == signed_bits(bits),
{
    if bits >= 0x8000_0000 {
        (bits as i64 - 0x1_0000_0000) as i32
    } else {
        bits as i32
    }
}

/// Why a read did not produce a value.
#[derive(Clone, Copy, Debug, PartialEq, Eq, Structural)]
pub enum ParamReadError {
    /// No reply after every retry. The parameter may not exist on this
    /// firmware, or the link may have dropped the exchange.
    NoReply,
    /// The writer is gone: the board disconnected mid-read.
    LinkClosed,
}

/// Timeout and retry budget for a read.
#[derive(Clone, Copy, Debug, PartialEq, Eq, Structural)]
pub struct ParamReadPolicy {
    /// How long to wait for one reply.
    pub timeout_ms: u64,
    /// Attempts.
    pub retries: u8,
}

impl Default for ParamReadPolicy {
    fn default() -> (r: ParamReadPolicy)
        ensures
            r.timeout_ms == PARAM_READ_TIMEOUT_MS,
            r.retries == PARAM_READ_RETRY_COUNT,
    {
        ParamReadPolicy { timeout_ms: PARAM_READ_TIMEOUT_MS, retries: PARAM_READ_RETRY_COUNT }
    }
}

/// Whether a report answers a read of `name`. Unrelated reports are drained,
/// not taken for a mismatch.
pub fn answers_read(report: &ParamValue, name: &str) -> (r: bool)
    ensures
        r == (report.name@ == name@),
{
    same_text(report.name.as_str(), name)
}

/// Command that reads or writes the board's parameter storage.
pub const CMD_PREFLIGHT_STORAGE: u16 = 245;

/// Bit pattern of 1.0: write the storage.
pub const STORAGE_WRITE: u32 = 0x3f80_0000;

/// A command to the autopilot.
#[derive(Clone, Copy, Debug)]
pub struct CommandLong {
    /// Target system.
    pub target_system: u8,
    /// Target component.
    pub target_component: u8,
    /// Number of the transmission.
    pub confirmation: u8,
    /// The command.
    pub command: u16,
    /// Its seven parameters.
    pub params: [Real32; 7],
}

/// Whether this is the command that commits the parameters to flash.
pub open spec fn saves_params(c: CommandLong) -> bool {
    &&& c.target_system == PX4_TARGET_SYSTEM
    &&& c.target_component == PX4_TARGET_COMPONENT
    &&& c.confirmation == 0
    &&& c.command == CMD_PREFLIGHT_STORAGE
    &&& c.params@[0].bits == STORAGE_WRITE
    &&& forall|i: int| 1 <= i < 7 ==> (#[trigger] c.params@[i]).bits == 0
}

/// The command that commits the parameters to flash. A write alone only
/// reaches the board's memory, and a reboot would discard it.
pub fn make_param_save() -> (r: CommandLong)
    ensures
        saves_params(r),
{
    let zero: Real32 = Real32::from_bits(0);
    CommandLong {
        target_system: PX4_TARGET_SYSTEM,
        target_component: PX4_TARGET_COMPONENT,
        confirmation: 0,
        command: CMD_PREFLIGHT_STORAGE,
        params: [Real32::from_bits(STORAGE_WRITE), zero, zero, zero, zero, zero, zero],
    }
}

/// The numbers that MAVLink has for the types.
pub proof fn law_the_numbers_of_the_types(t: ParamType)
    ensures
        t.code() == 1 <==> t is Uint8,
        t.code() == 2 <==> t is Int8,
        t.code() == 3 <==> t is Uint16,
        t.code() == 4 <==> t is Int16,
        t.code() == 5 <==> t is Uint32,
        t.code() == 6 <==> t is Int32,
        t.code() == 7 <==> t is Uint64,
        t.code() == 8 <==> t is Int64,
        t.code() == 9 <==> t is Real32,
        t.code() == 10 <==> t is Real64,
        t.integer() <==> t.code() < 9,
{
}

/// A signed integer and the bits that carry it agree modulo their size, and no
/// two integers have the same bits.
pub proof fn law_bits_carry_a_signed_integer(a: u32, b: u32)
    ensures
        -0x8000_0000 <= signed_bits(a) < 0x8000_0000,
        signed_bits(a) == a || signed_bits(a) == a - 0x1_0000_0000,
        signed_bits(a) == signed_bits(b) <==> a == b,
{
}

/// A name field holds the bytes of a name from its start, and NULs behind them.
pub proof fn law_a_name_field_is_padded_with_nuls(name: Seq<u8>, i: int)
    requires
        0 <= i < 16,
    ensures
        padded_id(name).len() == 16,
        i < name.len() ==> padded_id(name)[i] == name[i],
        i >= name.len() ==> padded_id(name)[i] == 0,
{
}

/// Trimming takes NULs from the end and nothing else.
pub proof fn law_only_nuls_at_the_end_are_trimmed(s: Seq<char>)
    ensures
        trim_nuls(s).len() > 0 ==> trim_nuls(s).last() != '\0',
        trim_nuls(s).len() <= s.len(),
        trim_nuls(s) == s.take(trim_nuls(s).len() as int),
        forall|i: int| trim_nuls(s).len() <= i < s.len() ==> #[trigger] s[i] == '\0',
    decreases s.len(),
{
    if s.len() > 0 && s.last() == '\0' {
        let rest = s.drop_last();
        law_only_nuls_at_the_end_are_trimmed(rest);
        assert(trim_nuls(s) =~= s.take(trim_nuls(s).len() as int));
        assert forall|i: int| trim_nuls(s).len() <= i < s.len() implies #[trigger] s[i] == '\0' by {
            if i < rest.len() {
                assert(rest[i] == s[i]);
            }
        }
    } else {
        assert(s =~= s.take(s.len() as int));
    }
}

/// The command that saves is the one to the board's storage, to the autopilot,
/// asking it to write.
pub proof fn law_what_saves_the_parameters(c: CommandLong)
    requires
        saves_params(c),
    ensures
        c.command == 245,
        c.target_system == 1,
        c.target_component == 1,
        c.confirmation == 0,
        c.params@[0].bits == 0x3f80_0000,
        forall|i: int| 1 <= i < 7 ==> (#[trigger] c.params@[i]).bits == 0,
{
}

/// A parameter that is a number is that number; one that is an integer is the
/// integer its bits carry, with its sign, and small ones lose nothing.
pub proof fn law_what_a_parameter_value_is(v: ParamValue, r: Real32)
    requires
        is_decoded(v, r),
    ensures
        v.param_type is Real32 ==> r == v.value,
        v.param_type is Int32 ==> r.finite() && (r.bits >= 0x8000_0000 <==> v.value.bits
            >= 0x8000_0000),
        v.param_type is Int32 && v.value.bits <= 0xff_ffff ==> r.truncated() == v.value.bits,
{
    if v.param_type is Int32 && v.value.bits <= 0xff_ffff {
        crate::ieee::law_small_integers_are_exact(v.value.bits as int, r);
    }
}

} // verus!
