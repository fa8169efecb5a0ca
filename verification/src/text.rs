//! Text: decimal and hexadecimal rendering, comparison, decoding.
use vstd::prelude::*;

verus! {

/// The character of a decimal digit.
pub open spec fn digit_char(d: int) -> char {
    (48 + d) as char
}

/// The lower-case character of a hexadecimal digit.
pub open spec fn hex_char(d: int) -> char {
    if d < 10 {
        (48 + d) as char
    } else {
        (87 + d) as char
    }
}

/// `n` in decimal, without leading zeros.
pub open spec fn decimal(n: nat) -> Seq<char>
    decreases n,
{
    if n < 10 {
        seq![digit_char(n as int)]
    } else {
        decimal(n / 10).push(digit_char((n % 10) as int))
    }
}

/// The last `width` hexadecimal digits of `n`.
pub open spec fn hex(n: nat, width: nat) -> Seq<char>
    decreases width,
{
    if width == 0 {
        Seq::empty()
    } else {
        hex(n / 16, (width - 1) as nat).push(hex_char((n % 16) as int))
    }
}

/// 16 to the power `width`: how many numbers `width` digits can tell apart.
pub open spec fn hex_span(width: nat) -> nat
    decreases width,
{
    if width == 0 {
        1
    } else {
        16 * hex_span((width - 1) as nat)
    }
}

/// Two different numbers that fit have different digits.
pub proof fn lemma_hex_injective(a: nat, b: nat, width: nat)
    requires
        a < hex_span(width),
        b < hex_span(width),
        hex(a, width) == hex(b, width),
    ensures
        a == b,
    decreases width,
{
    if width > 0 {
        let w = (width - 1) as nat;
        let da = hex(a / 16, w);
        let db = hex(b / 16, w);
        assert(da =~= da.push(hex_char((a % 16) as int)).drop_last());
        assert(db =~= db.push(hex_char((b % 16) as int)).drop_last());
        assert(hex(a, width).last() == hex_char((a % 16) as int));
        assert(hex(b, width).last() == hex_char((b % 16) as int));
        lemma_hex_char_injective((a % 16) as int, (b % 16) as int);
        lemma_hex_injective(a / 16, b / 16, w);
    }
}

proof fn lemma_hex_char_injective(x: int, y: int)
    requires
        0 <= x < 16,
        0 <= y < 16,
        hex_char(x) == hex_char(y),
    ensures
        x == y,
{
    assert(hex_char(x) as int == if x < 10 { 48 + x } else { 87 + x });
    assert(hex_char(y) as int == if y < 10 { 48 + y } else { 87 + y });
}

/// `hex` writes exactly `width` characters.
pub proof fn lemma_hex_len(n: nat, width: nat)
    ensures
        hex(n, width).len() == width,
    decreases width,
{
    if width > 0 {
        lemma_hex_len(n / 16, (width - 1) as nat);
    }
}

/// The text of a hexadecimal digit.
fn hex_text(d: u8) -> (r: &'static str)
    requires
        d < 16,
    ensures
        r@ == seq![hex_char(d as int)],
{
    proof {
        reveal_strlit("0");
        reveal_strlit("1");
        reveal_strlit("2");
        reveal_strlit("3");
        reveal_strlit("4");
        reveal_strlit("5");
        reveal_strlit("6");
        reveal_strlit("7");
        reveal_strlit("8");
        reveal_strlit("9");
        reveal_strlit("a");
        reveal_strlit("b");
        reveal_strlit("c");
        reveal_strlit("d");
        reveal_strlit("e");
        reveal_strlit("f");
    }
    match d {
        0 => "0",
        1 => "1",
        2 => "2",
        3 => "3",
        4 => "4",
        5 => "5",
        6 => "6",
        7 => "7",
        8 => "8",
        9 => "9",
        10 => "a",
        11 => "b",
        12 => "c",
        13 => "d",
        14 => "e",
        _ => "f",
    }
}

/// Append `n` in decimal.
pub fn push_decimal(out: &mut String, n: u64)
    ensures
        final(out)@ == old(out)@ + decimal(n as nat),
    decreases n,
{
    if n >= 10 {
        push_decimal(out, n / 10);
    }
    out.append(hex_text((n % 10) as u8));
}

/// Append the last `width` hexadecimal digits of `n`.
pub fn push_hex(out: &mut String, n: u64, width: u8)
    ensures
        final(out)@ == old(out)@ + hex(n as nat, width as nat),
    decreases width,
{
    if width > 0 {
        push_hex(out, n / 16, width - 1);
        out.append(hex_text((n % 16) as u8));
    }
}

/// Whether two texts are the same.
pub fn same_text(a: &str, b: &str) -> (r: bool)
    ensures
        r == (a@ == b@),
{
    a.to_owned() == b.to_owned()
}

/// The characters of a text.
pub fn characters(s: &str) -> (r: Vec<char>)
    ensures
        r@ == s@,
{
    let mut out: Vec<char> = Vec::new();
    let n: usize = s.unicode_len();
    let mut i: usize = 0;
    while i < n
        invariant
            n == s@.len(),
            i <= n,
            out@ == s@.take(i as int),
        decreases n - i,
    {
        out.push(s.get_char(i));
        i = i + 1;
        assert(s@.take(i as int) =~= s@.take(i - 1).push(s@[i - 1]));
    }
    assert(s@.take(n as int) =~= s@);
    out
}

/// `std::str::from_utf8`: the text when the bytes are valid UTF-8, `None`
/// otherwise.
#[verifier::external_body]
pub(crate) fn utf8_text(bytes: &[u8]) -> (r: Option<String>)
    ensures
        r is Some <==> vstd::utf8::valid_utf8(bytes@),
        r matches Some(s) ==> s@ == vstd::utf8::decode_utf8(bytes@),
{
    std::str::from_utf8(bytes).ok().map(|s| s.to_string())
}

/// What `String::from_utf8_lossy` makes of a byte sequence.
pub uninterp spec fn lossy_text(bytes: Seq<u8>) -> Seq<char>;

/// `String::from_utf8_lossy`: valid UTF-8 is decoded; elsewhere invalid
/// sequences are replaced, in a way that depends on the bytes alone.
#[verifier::external_body]
pub(crate) fn utf8_lossy(bytes: &[u8]) -> (r: String)
    ensures
        r@ == lossy_text(bytes@),
        vstd::utf8::valid_utf8(bytes@) ==> r@ == vstd::utf8::decode_utf8(bytes@),
{
    String::from_utf8_lossy(bytes).to_string()
}

/// An ASCII letter in lower case; any other character stays as it is.
pub open spec fn lower_letter(c: char) -> char {
    if 'A' <= c <= 'Z' {
        ((c as u32 + 32) as u32) as char
    } else {
        c
    }
}

/// What `str::to_lowercase` makes of a text.
pub uninterp spec fn lowercase_text(s: Seq<char>) -> Seq<char>;

/// A text in lower case: letter by letter where it is all ASCII.
pub open spec fn lowered(s: Seq<char>) -> Seq<char> {
    if vstd::utf8::is_ascii_chars(s) {
        s.map_values(|c: char| lower_letter(c))
    } else {
        lowercase_text(s)
    }
}

/// `str::to_lowercase`, which depends on the text alone. A text that is all
/// ASCII is put into lower case letter by letter; what becomes of another is
/// not said.
#[verifier::external_body]
pub(crate) fn lowercase(s: &str) -> (r: String)
    ensures
        r@ == lowercase_text(s@),
        r@ == lowered(s@),
{
    s.to_lowercase()
}

/// Whether an ASCII character is white space.
pub open spec fn blank(c: char) -> bool {
    c == ' ' || '\t' <= c <= '\r'
}

/// A text without the white space it starts with.
pub open spec fn without_lead(s: Seq<char>) -> Seq<char>
    decreases s.len(),
{
    if s.len() > 0 && blank(s[0]) {
        without_lead(s.skip(1))
    } else {
        s
    }
}

/// A text without the white space it ends with.
pub open spec fn without_tail(s: Seq<char>) -> Seq<char>
    decreases s.len(),
{
    if s.len() > 0 && blank(s.last()) {
        without_tail(s.drop_last())
    } else {
        s
    }
}

/// What `str::trim` makes of a text.
pub uninterp spec fn trimmed_text(s: Seq<char>) -> Seq<char>;

/// A text without the white space around it, which is spelt out where the text
/// is all ASCII.
pub open spec fn stripped(s: Seq<char>) -> Seq<char> {
    if vstd::utf8::is_ascii_chars(s) {
        without_tail(without_lead(s))
    } else {
        trimmed_text(s)
    }
}

/// `str::trim`, which depends on the text alone. A text that is all ASCII loses
/// the blanks, tabs and line breaks around it; what becomes of another is not
/// said.
#[verifier::external_body]
pub(crate) fn trim(s: &str) -> (r: String)
    ensures
        r@ == trimmed_text(s@),
        r@ == stripped(s@),
{
    s.trim().to_string()
}

/// Stripping an ASCII text leaves an ASCII text.
pub proof fn lemma_stripped_stays_ascii(s: Seq<char>)
    requires
        vstd::utf8::is_ascii_chars(s),
    ensures
        vstd::utf8::is_ascii_chars(stripped(s)),
{
    lemma_without_lead(s);
    lemma_without_tail(without_lead(s));
}

proof fn lemma_without_lead(s: Seq<char>)
    requires
        vstd::utf8::is_ascii_chars(s),
    ensures
        vstd::utf8::is_ascii_chars(without_lead(s)),
    decreases s.len(),
{
    if s.len() > 0 && blank(s[0]) {
        assert(forall|i: int| 0 <= i < s.skip(1).len() ==> #[trigger] s.skip(1)[i] == s[i + 1]);
        lemma_without_lead(s.skip(1));
    }
}

proof fn lemma_without_tail(s: Seq<char>)
    requires
        vstd::utf8::is_ascii_chars(s),
    ensures
        vstd::utf8::is_ascii_chars(without_tail(s)),
    decreases s.len(),
{
    if s.len() > 0 && blank(s.last()) {
        assert(forall|i: int| 0 <= i < s.drop_last().len() ==> #[trigger] s.drop_last()[i] == s[i]);
        lemma_without_tail(s.drop_last());
    }
}

/// Texts strung together, separated by `", "`.
pub open spec fn joined(parts: Seq<Seq<char>>) -> Seq<char>
    decreases parts.len(),
{
    if parts.len() == 0 {
        Seq::empty()
    } else if parts.len() == 1 {
        parts[0]
    } else {
        joined(parts.drop_last()) + ", "@ + parts.last()
    }
}

/// Append texts, separated by `", "`.
pub fn push_joined(out: &mut String, parts: &Vec<String>)
    ensures
        final(out)@ == old(out)@ + joined(parts@.map_values(|s: String| s@)),
{
    let ghost start = out@;
    let ghost texts = parts@.map_values(|s: String| s@);
    let mut i: usize = 0;
    assert(out@ =~= start + joined(texts.take(0)));
    while i < parts.len()
        invariant
            i <= parts@.len(),
            texts == parts@.map_values(|s: String| s@),
            out@ == start + joined(texts.take(i as int)),
        decreases parts@.len() - i,
    {
        assert(texts.take(i + 1).drop_last() =~= texts.take(i as int));
        assert(texts.take(i + 1).last() == parts@[i as int]@);
        if i > 0 {
            out.append(", ");
        }
        out.append(parts[i].as_str());
        assert(out@ =~= start + joined(texts.take(i + 1)));
        i = i + 1;
    }
    assert(texts.take(i as int) =~= texts);
}

/// Whether a text stands within another at a place.
pub open spec fn stands_within(s: Seq<char>, part: Seq<char>, i: int) -> bool {
    0 <= i && i + part.len() <= s.len() && s.subrange(i, i + part.len()) == part
}

/// Whether a text occurs within another.
pub open spec fn occurs(s: Seq<char>, part: Seq<char>) -> bool {
    exists|i: int| #[trigger] stands_within(s, part, i)
}

fn matches_at(s: &Vec<char>, part: &Vec<char>, at: usize) -> (r: bool)
    requires
        at + part@.len() <= s@.len(),
    ensures
        r == stands_within(s@, part@, at as int),
{
    let mut j: usize = 0;
    while j < part.len()
        invariant
            at + part@.len() <= s@.len(),
            j <= part@.len(),
            forall|k: int| 0 <= k < j ==> s@[at + k] == part@[k],
        decreases part@.len() - j,
    {
        assert(at + j < s.len());
        if s[at + j] != part[j] {
            assert(s@.subrange(at as int, at + part@.len())[j as int] != part@[j as int]);
            return false;
        }
        j = j + 1;
    }
    assert(s@.subrange(at as int, at + part@.len()) =~= part@);
    true
}

/// Whether a text occurs within another.
pub fn contains_text(s: &str, part: &str) -> (r: bool)
    ensures
        r == occurs(s@, part@),
{
    let text: Vec<char> = characters(s);
    let wanted: Vec<char> = characters(part);
    if wanted.len() > text.len() {
        return false;
    }
    let last: usize = text.len() - wanted.len();
    let mut i: usize = 0;
    while i <= last
        invariant
            text@ == s@,
            wanted@ == part@,
            last + wanted@.len() == text@.len(),
            i <= last + 1,
            forall|k: int| 0 <= k < i ==> !#[trigger] stands_within(s@, part@, k),
        decreases last + 1 - i,
    {
        if matches_at(&text, &wanted, i) {
            return true;
        }
        if i == last {
            return false;
        }
        i = i + 1;
    }
    false
}

/// A text without its hyphens, underscores and spaces.
pub open spec fn squeezed(s: Seq<char>) -> Seq<char>
    decreases s.len(),
{
    if s.len() == 0 {
        s
    } else if s.last() == '-' || s.last() == '_' || s.last() == ' ' {
        squeezed(s.drop_last())
    } else {
        squeezed(s.drop_last()).push(s.last())
    }
}

/// A text without its hyphens, underscores and spaces.
pub fn squeeze(s: &str) -> (r: String)
    ensures
        r@ == squeezed(s@),
{
    let n: usize = s.unicode_len();
    let mut out: String = String::new();
    let mut i: usize = 0;
    assert(s@.take(0) =~= Seq::<char>::empty());
    while i < n
        invariant
            n == s@.len(),
            i <= n,
            out@ == squeezed(s@.take(i as int)),
        decreases n - i,
    {
        let c: char = s.get_char(i);
        assert(s@.take(i + 1).drop_last() =~= s@.take(i as int));
        assert(s@.take(i + 1).last() == c);
        if c != '-' && c != '_' && c != ' ' {
            let ghost before = out@;
            out.append(s.substring_char(i, i + 1));
            assert(out@ =~= before.push(c));
        }
        i = i + 1;
    }
    assert(s@.take(n as int) =~= s@);
    out
}

/// Whether a text begins with another.
pub fn starts_with(s: &str, prefix: &str) -> (r: bool)
    ensures
        r == prefix@.is_prefix_of(s@),
{
    let text: Vec<char> = characters(s);
    let wanted: Vec<char> = characters(prefix);
    if wanted.len() > text.len() {
        return false;
    }
    let r: bool = matches_at(&text, &wanted, 0);
    assert(r ==> prefix@ =~= s@.subrange(0, prefix@.len() as int));
    r
}

/// A text from place `i` on, with every occurrence of `part` replaced, the
/// leftmost first.
pub open spec fn replaced(s: Seq<char>, part: Seq<char>, by: Seq<char>, i: int) -> Seq<char>
    decreases s.len() - i,
{
    if i < 0 || i >= s.len() || part.len() == 0 {
        Seq::empty()
    } else if stands_within(s, part, i) {
        by + replaced(s, part, by, i + part.len())
    } else {
        seq![s[i]] + replaced(s, part, by, i + 1)
    }
}

/// A text with every occurrence of `part` replaced.
pub fn replace(s: &str, part: &str, by: &str) -> (r: String)
    requires
        part@.len() > 0,
    ensures
        r@ == replaced(s@, part@, by@, 0),
{
    let text: Vec<char> = characters(s);
    let wanted: Vec<char> = characters(part);
    let n: usize = text.len();
    let mut out: String = String::new();
    let mut i: usize = 0;
    assert(out@ + replaced(s@, part@, by@, 0) =~= replaced(s@, part@, by@, 0));
    while i < n
        invariant
            text@ == s@,
            wanted@ == part@,
            part@.len() > 0,
            n == s@.len(),
            i <= n,
            out@ + replaced(s@, part@, by@, i as int) == replaced(s@, part@, by@, 0),
        decreases n - i,
    {
        let ghost before = out@;
        if wanted.len() <= n - i && matches_at(&text, &wanted, i) {
            out.append(by);
            assert(out@ + replaced(s@, part@, by@, i + part@.len()) =~= before + (by@ + replaced(
                s@,
                part@,
                by@,
                i + part@.len(),
            )));
            i = i + wanted.len();
        } else {
            out.append(s.substring_char(i, i + 1));
            assert(out@ =~= before + seq![s@[i as int]]);
            assert(out@ + replaced(s@, part@, by@, i + 1) =~= before + (seq![s@[i as int]]
                + replaced(s@, part@, by@, i + 1)));
            i = i + 1;
        }
    }
    assert(out@ + replaced(s@, part@, by@, i as int) =~= out@);
    out
}

/// A text occurs in whatever it stands in.
pub proof fn law_a_part_occurs_in_the_whole(before: Seq<char>, part: Seq<char>, after: Seq<char>)
    ensures
        occurs(before + part + after, part),
{
    let s = before + part + after;
    let i = before.len() as int;
    assert(s.subrange(i, i + part.len()) =~= part);
    assert(stands_within(s, part, i));
}

/// What occurs in a text stands in it, with something before and after it.
pub proof fn law_what_occurs_stands_in_the_text(s: Seq<char>, part: Seq<char>)
    requires
        occurs(s, part),
    ensures
        exists|before: Seq<char>, after: Seq<char>| s == #[trigger] ((before + part) + after),
{
    let i = choose|i: int| #[trigger] stands_within(s, part, i);
    let before = s.take(i);
    let after = s.skip(i + part.len());
    assert(s =~= (before + part) + after);
}

/// Squeezing drops hyphens, underscores and spaces and keeps every other
/// character in its place.
pub proof fn law_squeezing_goes_character_by_character(s: Seq<char>, c: char)
    ensures
        squeezed(s.push(c)) == if c == '-' || c == '_' || c == ' ' {
            squeezed(s)
        } else {
            squeezed(s).push(c)
        },
        squeezed(Seq::empty()) == Seq::<char>::empty(),
{
    assert(s.push(c).drop_last() =~= s);
}

/// An ASCII text in lower case has the same length, and each capital has become
/// its small letter.
pub proof fn law_lower_case_goes_letter_by_letter(s: Seq<char>, i: int)
    requires
        vstd::utf8::is_ascii_chars(s),
        0 <= i < s.len(),
    ensures
        lowered(s).len() == s.len(),
        'A' <= s[i] <= 'Z' ==> lowered(s)[i] as int == s[i] as int + 32,
        !('A' <= s[i] <= 'Z') ==> lowered(s)[i] == s[i],
{
}

/// Stripping leaves a text that neither begins nor ends with white space, and
/// nothing but white space is lost.
pub proof fn law_stripping_takes_the_white_space_around(s: Seq<char>)
    requires
        vstd::utf8::is_ascii_chars(s),
    ensures
        stripped(s).len() > 0 ==> !blank(stripped(s)[0]) && !blank(stripped(s).last()),
        exists|a: int, b: int| #[trigger] is_core(s, stripped(s), a, b),
{
    lemma_lead_is_blank(s);
    lemma_tail_is_blank(without_lead(s));
    let a = s.len() - without_lead(s).len();
    let b = a + stripped(s).len();
    let middle = without_lead(s);
    assert(middle =~= s.skip(a));
    assert(stripped(s) =~= s.subrange(a, b));
    assert forall|k: int| b <= k < s.len() implies blank(#[trigger] s[k]) by {
        assert(middle[k - a] == s[k]);
    }
    if stripped(s).len() > 0 {
        assert(stripped(s)[0] == middle[0]);
    }
    assert(is_core(s, stripped(s), a, b));
}

/// Whether a text is another from place `a` up to `b`, outside of which there is
/// only white space.
pub open spec fn is_core(s: Seq<char>, core: Seq<char>, a: int, b: int) -> bool {
    &&& 0 <= a <= b <= s.len()
    &&& core == s.subrange(a, b)
    &&& forall|k: int| 0 <= k < a || b <= k < s.len() ==> #[trigger] s[k] == ' ' || '\t' <= s[k]
        <= '\r'
}

proof fn lemma_lead_is_blank(s: Seq<char>)
    ensures
        without_lead(s).len() <= s.len(),
        without_lead(s) == s.skip(s.len() - without_lead(s).len()),
        forall|k: int| 0 <= k < s.len() - without_lead(s).len() ==> blank(#[trigger] s[k]),
        without_lead(s).len() > 0 ==> !blank(without_lead(s)[0]),
    decreases s.len(),
{
    if s.len() > 0 && blank(s[0]) {
        let rest = s.skip(1);
        lemma_lead_is_blank(rest);
        assert forall|k: int| 0 <= k < s.len() - without_lead(s).len() implies blank(
            #[trigger] s[k],
        ) by {
            if k > 0 {
                assert(rest[k - 1] == s[k]);
            }
        }
        assert(without_lead(s) =~= s.skip(s.len() - without_lead(s).len()));
    } else {
        assert(s =~= s.skip(0));
    }
}

proof fn lemma_tail_is_blank(s: Seq<char>)
    ensures
        without_tail(s).len() <= s.len(),
        without_tail(s) == s.take(without_tail(s).len() as int),
        forall|k: int| without_tail(s).len() <= k < s.len() ==> blank(#[trigger] s[k]),
        without_tail(s).len() > 0 ==> !blank(without_tail(s).last()),
    decreases s.len(),
{
    if s.len() > 0 && blank(s.last()) {
        let rest = s.drop_last();
        lemma_tail_is_blank(rest);
        assert forall|k: int| without_tail(s).len() <= k < s.len() implies blank(
            #[trigger] s[k],
        ) by {
            if k < s.len() - 1 {
                assert(rest[k] == s[k]);
            }
        }
        assert(without_tail(s) =~= s.take(without_tail(s).len() as int));
    } else {
        assert(s =~= s.take(s.len() as int));
    }
}

/// The number that a text of decimal digits stands for.
pub open spec fn decimal_value(s: Seq<char>) -> int
    decreases s.len(),
{
    if s.len() == 0 {
        0
    } else {
        10 * decimal_value(s.drop_last()) + (s.last() as int - '0' as int)
    }
}

/// A number in decimal is made of digits, has no zero before it, and reads back
/// as that number.
pub proof fn law_a_number_in_decimal_reads_back(n: nat, i: int)
    ensures
        decimal_value(decimal(n)) == n,
        decimal(n).len() > 0,
        0 <= i < decimal(n).len() ==> '0' <= decimal(n)[i] <= '9',
        n > 0 ==> decimal(n)[0] != '0',
    decreases n,
{
    if n >= 10 {
        law_a_number_in_decimal_reads_back(n / 10, i);
        law_a_number_in_decimal_reads_back(n / 10, 0);
        assert(decimal(n).drop_last() =~= decimal(n / 10));
    } else {
        assert(decimal(n).drop_last() =~= Seq::empty());
        assert(decimal_value(Seq::empty()) == 0);
    }
}

/// The value of a hexadecimal digit.
pub open spec fn hex_digit_value(c: char) -> int {
    if c <= '9' {
        c as int - '0' as int
    } else {
        c as int - 'a' as int + 10
    }
}

/// The number that a text of hexadecimal digits stands for.
pub open spec fn hex_value(s: Seq<char>) -> int
    decreases s.len(),
{
    if s.len() == 0 {
        0
    } else {
        16 * hex_value(s.drop_last()) + hex_digit_value(s.last())
    }
}

/// A number that fits reads back from its hexadecimal digits, of which there
/// are exactly as many as asked for.
pub proof fn law_a_number_in_hexadecimal_reads_back(n: nat, width: nat)
    requires
        n < hex_span(width),
    ensures
        hex(n, width).len() == width,
        hex_value(hex(n, width)) == n,
    decreases width,
{
    if width > 0 {
        let w = (width - 1) as nat;
        law_a_number_in_hexadecimal_reads_back(n / 16, w);
        assert(hex(n, width).drop_last() =~= hex(n / 16, w));
        assert(hex(n, width).last() == hex_char((n % 16) as int));
        assert(hex_digit_value(hex_char((n % 16) as int)) == n % 16);
    }
}

/// Texts strung together stand in their order, with a comma and a space between
/// any two.
pub proof fn law_texts_are_strung_together_in_order(parts: Seq<Seq<char>>, next: Seq<char>)
    ensures
        joined(seq![next]) == next,
        joined(Seq::empty()).len() == 0,
        parts.len() > 0 ==> joined(parts.push(next)) == joined(parts) + seq![',', ' '] + next,
{
    reveal_strlit(", ");
    assert(", "@ =~= seq![',', ' ']);
    assert(parts.push(next).drop_last() =~= parts);
}

/// A text in which the part does not occur is left alone.
pub proof fn law_what_does_not_occur_is_not_replaced(
    s: Seq<char>,
    part: Seq<char>,
    by: Seq<char>,
    i: int,
)
    requires
        part.len() > 0,
        !occurs(s, part),
        0 <= i <= s.len(),
    ensures
        replaced(s, part, by, i) == s.skip(i),
    decreases s.len() - i,
{
    if i < s.len() {
        assert(!stands_within(s, part, i));
        law_what_does_not_occur_is_not_replaced(s, part, by, i + 1);
        assert(seq![s[i]] + s.skip(i + 1) =~= s.skip(i));
    } else {
        assert(s.skip(i) =~= Seq::empty());
    }
}

/// Where the part stands it makes way for the other text, and the rest goes on
/// behind it.
pub proof fn law_what_occurs_is_replaced(s: Seq<char>, part: Seq<char>, by: Seq<char>, i: int)
    requires
        part.len() > 0,
        0 <= i,
        i + part.len() <= s.len(),
        s.subrange(i, i + part.len()) == part,
    ensures
        replaced(s, part, by, i) == by + replaced(s, part, by, i + part.len()),
{
    assert(stands_within(s, part, i));
}

} // verus!
