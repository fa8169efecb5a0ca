//! Little-endian integers in byte buffers.
use vstd::prelude::*;

verus! {

/// The little-endian bytes of a 16-bit integer.
pub open spec fn u16_le(x: u16) -> Seq<u8> {
    seq![(x % 0x100) as u8, (x / 0x100) as u8]
}

/// The little-endian bytes of a 32-bit integer.
pub open spec fn u32_le(x: u32) -> Seq<u8> {
    u16_le((x % 0x1_0000) as u16) + u16_le((x / 0x1_0000) as u16)
}

/// The little-endian bytes of a 64-bit integer.
pub open spec fn u64_le(x: u64) -> Seq<u8> {
    u32_le((x % 0x1_0000_0000) as u32) + u32_le((x / 0x1_0000_0000) as u32)
}

/// The 16-bit integer whose little-endian bytes stand at `at`.
pub open spec fn u16_at(s: Seq<u8>, at: int) -> u16 {
    (s[at] + 0x100 * s[at + 1]) as u16
}

/// The 32-bit integer whose little-endian bytes stand at `at`.
pub open spec fn u32_at(s: Seq<u8>, at: int) -> u32 {
    (u16_at(s, at) + 0x1_0000 * u16_at(s, at + 2)) as u32
}

/// The 64-bit integer whose little-endian bytes stand at `at`.
pub open spec fn u64_at(s: Seq<u8>, at: int) -> u64 {
    (u32_at(s, at) + 0x1_0000_0000 * u32_at(s, at + 4)) as u64
}

/// `part` stands in `s` at `at`.
pub open spec fn stands_at(s: Seq<u8>, at: int, part: Seq<u8>) -> bool {
    0 <= at && at + part.len() <= s.len() && s.subrange(at, at + part.len() as int) == part
}

/// What was written is read back.
pub broadcast proof fn lemma_u16_read_back(s: Seq<u8>, at: int, x: u16)
    requires
        stands_at(s, at, u16_le(x)),
    ensures
        #![trigger stands_at(s, at, u16_le(x))]
        u16_at(s, at) == x,
{
    let part = s.subrange(at, at + 2);
    assert(part[0] == s[at]);
    assert(part[1] == s[at + 1]);
}

/// What was written is read back.
pub broadcast proof fn lemma_u32_read_back(s: Seq<u8>, at: int, x: u32)
    requires
        stands_at(s, at, u32_le(x)),
    ensures
        #![trigger stands_at(s, at, u32_le(x))]
        u32_at(s, at) == x,
{
    let low = (x % 0x1_0000) as u16;
    let high = (x / 0x1_0000) as u16;
    assert(s.subrange(at, at + 2) =~= u32_le(x).subrange(0, 2));
    assert(u32_le(x).subrange(0, 2) =~= u16_le(low));
    assert(s.subrange(at + 2, at + 4) =~= u32_le(x).subrange(2, 4));
    assert(u32_le(x).subrange(2, 4) =~= u16_le(high));
    lemma_u16_read_back(s, at, low);
    lemma_u16_read_back(s, at + 2, high);
}

/// What was written is read back.
pub broadcast proof fn lemma_u64_read_back(s: Seq<u8>, at: int, x: u64)
    requires
        stands_at(s, at, u64_le(x)),
    ensures
        #![trigger stands_at(s, at, u64_le(x))]
        u64_at(s, at) == x,
{
    let low = (x % 0x1_0000_0000) as u32;
    let high = (x / 0x1_0000_0000) as u32;
    assert(s.subrange(at, at + 4) =~= u64_le(x).subrange(0, 4));
    assert(u64_le(x).subrange(0, 4) =~= u32_le(low));
    assert(s.subrange(at + 4, at + 8) =~= u64_le(x).subrange(4, 8));
    assert(u64_le(x).subrange(4, 8) =~= u32_le(high));
    lemma_u32_read_back(s, at, low);
    lemma_u32_read_back(s, at + 4, high);
}

/// Append a 16-bit integer.
pub fn push_u16(out: &mut Vec<u8>, x: u16)
    ensures
        final(out)@ == old(out)@ + u16_le(x),
{
    out.push((x % 0x100) as u8);
    out.push((x / 0x100) as u8);
}

/// Append a 32-bit integer.
pub fn push_u32(out: &mut Vec<u8>, x: u32)
    ensures
        final(out)@ == old(out)@ + u32_le(x),
{
    push_u16(out, (x % 0x1_0000) as u16);
    push_u16(out, (x / 0x1_0000) as u16);
}

/// Append a 64-bit integer.
pub fn push_u64(out: &mut Vec<u8>, x: u64)
    ensures
        final(out)@ == old(out)@ + u64_le(x),
{
    push_u32(out, (x % 0x1_0000_0000) as u32);
    push_u32(out, (x / 0x1_0000_0000) as u32);
}

/// The 16-bit word of a signed integer, in two's complement.
pub open spec fn i16_word(x: i16) -> u16 {
    if x < 0 {
        (x + 0x1_0000) as u16
    } else {
        x as u16
    }
}

/// The 32-bit word of a signed integer, in two's complement.
pub open spec fn i32_word(x: i32) -> u32 {
    if x < 0 {
        (x + 0x1_0000_0000) as u32
    } else {
        x as u32
    }
}

/// Append a signed 16-bit integer.
pub fn push_i16(out: &mut Vec<u8>, x: i16)
    ensures
        final(out)@ == old(out)@ + u16_le(i16_word(x)),
{
    if x < 0 {
        push_u16(out, (x as i32 + 0x1_0000) as u16);
    } else {
        push_u16(out, x as u16);
    }
}

/// Append a signed 32-bit integer.
pub fn push_i32(out: &mut Vec<u8>, x: i32)
    ensures
        final(out)@ == old(out)@ + u32_le(i32_word(x)),
{
    if x < 0 {
        push_u32(out, (x as i64 + 0x1_0000_0000) as u32);
    } else {
        push_u32(out, x as u32);
    }
}

/// Append a run of bytes.
pub fn push_bytes(out: &mut Vec<u8>, run: &[u8])
    ensures
        final(out)@ == old(out)@ + run@,
{
    let mut i: usize = 0;
    while i < run.len()
        invariant
            i <= run@.len(),
            out@ == old(out)@ + run@.take(i as int),
        decreases run@.len() - i,
    {
        out.push(run[i]);
        i = i + 1;
        assert(run@.take(i as int) =~= run@.take(i - 1).push(run@[i - 1]));
    }
    assert(run@.take(i as int) =~= run@);
}

/// Read a 16-bit integer.
pub fn read_u16(s: &[u8], at: usize) -> (r: u16)
    requires
        at + 2 <= s@.len(),
    ensures
        r == u16_at(s@, at as int),
{
    s[at] as u16 + 0x100 * (s[at + 1] as u16)
}

/// Read a 32-bit integer.
pub fn read_u32(s: &[u8], at: usize) -> (r: u32)
    requires
        at + 4 <= s@.len(),
    ensures
        r == u32_at(s@, at as int),
{
    let len: usize = s.len();
    assert(at + 2 <= len);
    read_u16(s, at) as u32 + 0x1_0000 * (read_u16(s, at + 2) as u32)
}

/// Read a 64-bit integer.
pub fn read_u64(s: &[u8], at: usize) -> (r: u64)
    requires
        at + 8 <= s@.len(),
    ensures
        r == u64_at(s@, at as int),
{
    let len: usize = s.len();
    assert(at + 4 <= len);
    read_u32(s, at) as u64 + 0x1_0000_0000 * (read_u32(s, at + 4) as u64)
}

/// Copy the bytes of `s` from `from` up to `to`.
pub fn copy_range(s: &[u8], from: usize, to: usize) -> (r: Vec<u8>)
    requires
        from <= to <= s@.len(),
    ensures
        r@ == s@.subrange(from as int, to as int),
{
    let mut out: Vec<u8> = Vec::new();
    let mut i: usize = from;
    while i < to
        invariant
            from <= i <= to <= s@.len(),
            out@ == s@.subrange(from as int, i as int),
        decreases to - i,
    {
        out.push(s[i]);
        i = i + 1;
        assert(s@.subrange(from as int, i as int) =~= s@.subrange(from as int, i - 1).push(
            s@[i - 1],
        ));
    }
    out
}

/// A flag as a byte.
pub open spec fn flag(b: bool) -> u8 {
    if b {
        1
    } else {
        0
    }
}

/// A flag as a byte.
pub fn flag_byte(b: bool) -> (r: u8)
    ensures
        r == flag(b),
{
    if b {
        1
    } else {
        0
    }
}

/// The lowest byte of a number comes first, and each byte counts 256 times the
/// one before it.
pub proof fn law_the_lowest_byte_comes_first(s: Seq<u8>, at: int)
    ensures
        u16_at(s, at) == s[at] + 0x100 * s[at + 1],
        u32_at(s, at) == s[at] + 0x100 * s[at + 1] + 0x1_0000 * s[at + 2] + 0x100_0000 * s[at + 3],
        u64_at(s, at) == u32_at(s, at) + 0x1_0000_0000 * u32_at(s, at + 4),
{
}

/// The bytes of a number add up to it, the lowest first.
pub proof fn law_the_bytes_of_a_number_add_up(a: u16, b: u32, c: u64)
    ensures
        u16_le(a).len() == 2,
        u16_le(a)[0] + 0x100 * u16_le(a)[1] == a,
        u32_le(b).len() == 4,
        u32_le(b)[0] + 0x100 * u32_le(b)[1] + 0x1_0000 * u32_le(b)[2] + 0x100_0000 * u32_le(b)[3]
            == b,
        u64_le(c).len() == 8,
        u32_at(u64_le(c), 0) + 0x1_0000_0000 * u32_at(u64_le(c), 4) == c,
{
    let low = (c % 0x1_0000_0000) as u32;
    let high = (c / 0x1_0000_0000) as u32;
    assert(u64_le(c).subrange(0, 4) =~= u32_le(low));
    assert(u64_le(c).subrange(4, 8) =~= u32_le(high));
    lemma_u32_read_back(u64_le(c), 0, low);
    lemma_u32_read_back(u64_le(c), 4, high);
}

/// A signed number and its word agree modulo the size of the word.
pub proof fn law_words_of_signed_numbers(a: i16, b: i32)
    ensures
        i16_word(a) == a || i16_word(a) == a + 0x1_0000,
        i16_word(a) < 0x8000 <==> a >= 0,
        i32_word(b) == b || i32_word(b) == b + 0x1_0000_0000,
        i32_word(b) < 0x8000_0000 <==> b >= 0,
{
}

/// A flag is one when it is set, and zero when it is not.
pub proof fn law_a_flag_is_one_or_zero(b: bool)
    ensures
        flag(b) == 1 <==> b,
        flag(b) == 0 <==> !b,
{
}

} // verus!
