//! Character-level helpers: conversions between strings and character
//! sequences, decimal and hexadecimal rendering, padding, whitespace and
//! decimal number parsing.

use vstd::prelude::*;

verus! {

/// Decimal digits, indexed by their value.
pub const DECIMAL_DIGITS: [char; 10] = ['0', '1', '2', '3', '4', '5', '6', '7', '8', '9'];

/// Upper-case hexadecimal digits, indexed by their value.
pub const HEX_UPPER_DIGITS: [char; 16] = [
    '0', '1', '2', '3', '4', '5', '6', '7', '8', '9', 'A', 'B', 'C', 'D', 'E', 'F',
];

/// The character of a decimal digit.
pub open spec fn digit_char(d: int) -> char {
    DECIMAL_DIGITS@[d]
}

/// The decimal rendering of a natural number, without leading zeros.
pub open spec fn decimal(n: nat) -> Seq<char>
    decreases n,
{
    if n < 10 {
        seq![digit_char(n as int)]
    } else {
        decimal(n / 10).push(digit_char((n % 10) as int))
    }
}

/// The decimal rendering of an integer, with a leading `-` when negative.
pub open spec fn signed_decimal(i: int) -> Seq<char> {
    if i < 0 {
        seq!['-'] + decimal((-i) as nat)
    } else {
        decimal(i as nat)
    }
}

/// `n` copies of the space character.
pub open spec fn spaces(n: nat) -> Seq<char> {
    Seq::new(n, |i: int| ' ')
}

/// `s` right-aligned in a field of `width` characters.
pub open spec fn pad_left(s: Seq<char>, width: nat) -> Seq<char> {
    if s.len() >= width {
        s
    } else {
        spaces((width - s.len()) as nat) + s
    }
}

/// `s` left-aligned in a field of `width` characters.
pub open spec fn pad_right(s: Seq<char>, width: nat) -> Seq<char> {
    if s.len() >= width {
        s
    } else {
        s + spaces((width - s.len()) as nat)
    }
}

/// The two upper-case hexadecimal digits of a byte.
pub open spec fn hex_byte(b: u8) -> Seq<char> {
    seq![HEX_UPPER_DIGITS@[(b / 16) as int], HEX_UPPER_DIGITS@[(b % 16) as int]]
}

/// The bytes of `b` as upper-case hexadecimal pairs joined by `:`.
pub open spec fn hex_colon(b: Seq<u8>) -> Seq<char>
    decreases b.len(),
{
    if b.len() == 0 {
        Seq::empty()
    } else if b.len() == 1 {
        hex_byte(b[0])
    } else {
        hex_colon(b.drop_last()) + seq![':'] + hex_byte(b.last())
    }
}

/// Whether a character has the Unicode `White_Space` property, which is
/// what `char::is_whitespace` tests.
pub open spec fn is_white_space(c: char) -> bool {
    let u = c as u32;
    ||| 0x9 <= u <= 0xD
    ||| u == 0x20
    ||| u == 0x85
    ||| u == 0xA0
    ||| u == 0x1680
    ||| 0x2000 <= u <= 0x200A
    ||| u == 0x2028
    ||| u == 0x2029
    ||| u == 0x202F
    ||| u == 0x205F
    ||| u == 0x3000
}

/// Whether every character of `s` is white space, that is, whether trimming
/// white space from both ends of `s` leaves nothing.
pub open spec fn all_white_space(s: Seq<char>) -> bool {
    forall|i: int| 0 <= i < s.len() ==> is_white_space(#[trigger] s[i])
}

/// Whether a character is an ASCII decimal digit.
pub open spec fn is_digit(c: char) -> bool {
    '0' <= c <= '9'
}

/// The value of a sequence of decimal digits.
pub open spec fn digits_value(s: Seq<char>) -> nat
    decreases s.len(),
{
    if s.len() == 0 {
        0
    } else {
        digits_value(s.drop_last()) * 10 + ((s.last() as u32) - ('0' as u32)) as nat
    }
}

/// `s` without one leading `+`, if it has one.
pub open spec fn strip_plus(s: Seq<char>) -> Seq<char> {
    if s.len() > 0 && s[0] == '+' {
        s.drop_first()
    } else {
        s
    }
}

/// Whether every character of `s` is a decimal digit.
pub open spec fn all_digits(s: Seq<char>) -> bool {
    forall|i: int| 0 <= i < s.len() ==> is_digit(#[trigger] s[i])
}

/// The value that `str::parse::<u32>` gives for `s`: an optional `+`, then
/// at least one decimal digit, the whole value fitting in 32 bits.
pub open spec fn parse_u32_spec(s: Seq<char>) -> Option<u32> {
    let d = strip_plus(s);
    if d.len() > 0 && all_digits(d) && digits_value(d) <= u32::MAX {
        Some(digits_value(d) as u32)
    } else {
        None
    }
}

/// The text that `String::from_utf8_lossy` makes of a byte sequence.
pub uninterp spec fn utf8_lossy(b: Seq<u8>) -> Seq<char>;

/// Decodes bytes as UTF-8 with `String::from_utf8_lossy`, replacing invalid
/// sequences; the result is named by `utf8_lossy`.
#[verifier::external_body]
pub(crate) fn decode_utf8_lossy(b: &[u8]) -> (s: String)
    ensures
        s@ == utf8_lossy(b@),
{
    String::from_utf8_lossy(b).into_owned()
}

/// The bytes of `b` before its first zero byte (all of `b` when it holds
/// none).
pub open spec fn before_nul(b: Seq<u8>) -> Seq<u8>
    decreases b.len(),
{
    if b.len() == 0 {
        b
    } else if b[0] == 0 {
        Seq::empty()
    } else {
        seq![b[0]] + before_nul(b.drop_first())
    }
}

proof fn lemma_before_nul_at(b: Seq<u8>, i: int)
    requires
        0 <= i <= b.len(),
        forall|j: int| 0 <= j < i ==> b[j] != 0,
        i == b.len() || b[i] == 0,
    ensures
        before_nul(b) == b.take(i),
    decreases i,
{
    if i > 0 {
        let t = b.drop_first();
        assert forall|j: int| 0 <= j < i - 1 implies t[j] != 0 by {
            assert(t[j] == b[j + 1]);
        }
        if i < b.len() {
            assert(t[i - 1] == b[i]);
        }
        lemma_before_nul_at(t, i - 1);
        assert(seq![b[0]] + t.take(i - 1) =~= b.take(i));
    } else {
        assert(b.take(0) =~= Seq::<u8>::empty());
        if b.len() == 0 {
            assert(b =~= Seq::<u8>::empty());
        }
    }
}

/// The text of a `NUL`-terminated byte string: the bytes before the first
/// zero byte, decoded as UTF-8 with invalid sequences replaced.
pub fn lossy_c_string(b: &[u8]) -> (r: String)
    ensures
        r@ == utf8_lossy(before_nul(b@)),
{
    let mut i: usize = 0;
    while i < b.len()
        invariant
            i <= b.len(),
            forall|j: int| 0 <= j < i ==> b@[j] != 0,
        ensures
            i <= b.len(),
            forall|j: int| 0 <= j < i ==> b@[j] != 0,
            i == b.len() || b@[i as int] == 0,
        decreases b.len() - i,
    {
        if b[i] == 0 {
            break;
        }
        i = i + 1;
    }
    proof {
        lemma_before_nul_at(b@, i as int);
    }
    let head = &b[0..i];
    assert(head@ == b@.take(i as int));
    decode_utf8_lossy(head)
}

/// The characters of an optional string.
pub open spec fn opt_chars(o: Option<String>) -> Option<Seq<char>> {
    match o {
        Some(s) => Some(s@),
        None => None,
    }
}

/// The characters of an optional string slice.
pub open spec fn opt_str_chars(o: Option<&str>) -> Option<Seq<char>> {
    match o {
        Some(s) => Some(s@),
        None => None,
    }
}

/// Appends one character to a string (`String::push`).
#[verifier::external_body]
pub(crate) fn push_char(s: &mut String, c: char)
    ensures
        final(s)@ == old(s)@.push(c),
{
    s.push(c);
}

/// The characters of a string slice, in order.
pub fn chars_of(s: &str) -> (v: Vec<char>)
    ensures
        v@ == s@,
{
    let mut v: Vec<char> = Vec::new();
    for c in it: s.chars()
        invariant
            v@ == it.seq().take(it.index()),
    {
        v.push(c);
    }
    v
}

/// A string holding exactly the given characters.
pub fn string_from_chars(cs: &[char]) -> (s: String)
    ensures
        s@ == cs@,
{
    let mut s = String::new();
    let mut i: usize = 0;
    while i < cs.len()
        invariant
            i <= cs.len(),
            s@ == cs@.take(i as int),
        decreases cs.len() - i,
    {
        push_char(&mut s, cs[i]);
        i = i + 1;
        assert(cs@.take(i as int) == cs@.take((i - 1) as int).push(cs@[i - 1]));
    }
    assert(cs@.take(cs.len() as int) == cs@);
    s
}

/// Appends the decimal rendering of `n` to `out`.
pub fn push_decimal(out: &mut Vec<char>, n: u64)
    ensures
        final(out)@ == old(out)@ + decimal(n as nat),
    decreases n,
{
    if n >= 10 {
        push_decimal(out, n / 10);
    }
    out.push(DECIMAL_DIGITS[(n % 10) as usize]);
    assert(final(out)@ == old(out)@ + decimal(n as nat)) by {
        if n < 10 {
            assert(n % 10 == n);
        }
    }
}

/// Appends the decimal rendering of a signed number to `out`.
pub fn push_signed_decimal(out: &mut Vec<char>, i: i64)
    ensures
        final(out)@ == old(out)@ + signed_decimal(i as int),
{
    if i < 0 {
        out.push('-');
        let m: u64 = if i == i64::MIN {
            9223372036854775808u64
        } else {
            (-i) as u64
        };
        let ghost mid = out@;
        push_decimal(out, m);
        assert(final(out)@ == old(out)@ + signed_decimal(i as int)) by {
            assert(mid == old(out)@.push('-'));
            assert(old(out)@.push('-') + decimal(m as nat) == old(out)@ + (seq!['-'] + decimal(
                m as nat,
            )));
        }
    } else {
        push_decimal(out, i as u64);
    }
}

/// Appends the characters of `s` to `out`.
pub fn push_str(out: &mut Vec<char>, s: &str)
    ensures
        final(out)@ == old(out)@ + s@,
{
    let mut cs = chars_of(s);
    out.append(&mut cs);
}

/// Appends `n` spaces to `out`.
pub fn push_spaces(out: &mut Vec<char>, n: usize)
    ensures
        final(out)@ == old(out)@ + spaces(n as nat),
{
    let mut i: usize = 0;
    while i < n
        invariant
            i <= n,
            out@ == old(out)@ + spaces(i as nat),
        decreases n - i,
    {
        out.push(' ');
        i = i + 1;
        assert(out@ =~= old(out)@ + spaces(i as nat));
    }
}

/// Appends `s` right-aligned in a field of `width` characters.
pub fn push_padded_left(out: &mut Vec<char>, s: &[char], width: usize)
    ensures
        final(out)@ == old(out)@ + pad_left(s@, width as nat),
{
    if s.len() < width {
        push_spaces(out, width - s.len());
    }
    let ghost mid = out@;
    let mut i: usize = 0;
    while i < s.len()
        invariant
            i <= s.len(),
            out@ == mid + s@.take(i as int),
        decreases s.len() - i,
    {
        out.push(s[i]);
        i = i + 1;
        assert(s@.take(i as int) == s@.take((i - 1) as int).push(s@[i - 1]));
    }
    assert(s@.take(s.len() as int) == s@);
    assert(final(out)@ =~= old(out)@ + pad_left(s@, width as nat));
}

/// Appends `s` left-aligned in a field of `width` characters.
pub fn push_padded_right(out: &mut Vec<char>, s: &[char], width: usize)
    ensures
        final(out)@ == old(out)@ + pad_right(s@, width as nat),
{
    let mut i: usize = 0;
    while i < s.len()
        invariant
            i <= s.len(),
            out@ == old(out)@ + s@.take(i as int),
        decreases s.len() - i,
    {
        out.push(s[i]);
        i = i + 1;
        assert(s@.take(i as int) == s@.take((i - 1) as int).push(s@[i - 1]));
    }
    assert(s@.take(s.len() as int) == s@);
    let ghost mid = out@;
    if s.len() < width {
        push_spaces(out, width - s.len());
    }
    assert(final(out)@ =~= old(out)@ + pad_right(s@, width as nat));
}

/// Appends the bytes of `b` as upper-case hexadecimal pairs joined by `:`.
pub fn push_hex_colon(out: &mut Vec<char>, b: &[u8])
    ensures
        final(out)@ == old(out)@ + hex_colon(b@),
{
    let mut i: usize = 0;
    while i < b.len()
        invariant
            i <= b.len(),
            out@ == old(out)@ + hex_colon(b@.take(i as int)),
        decreases b.len() - i,
    {
        let ghost before = out@;
        if i > 0 {
            out.push(':');
        }
        out.push(HEX_UPPER_DIGITS[(b[i] / 16) as usize]);
        out.push(HEX_UPPER_DIGITS[(b[i] % 16) as usize]);
        i = i + 1;
        let ghost t = b@.take(i as int);
        assert(t.drop_last() == b@.take((i - 1) as int));
        assert(t.last() == b@[i - 1]);
        if i == 1 {
            assert(hex_colon(b@.take(0)) == Seq::<char>::empty());
            assert(out@ =~= old(out)@ + hex_colon(t));
        } else {
            assert(out@ =~= old(out)@ + hex_colon(t));
        }
    }
    assert(b@.take(b.len() as int) == b@);
}

/// Whether two strings hold the same characters.
pub fn str_equals(a: &str, b: &str) -> (r: bool)
    ensures
        r == (a@ == b@),
{
    let x = chars_of(a);
    let y = chars_of(b);
    if x.len() != y.len() {
        return false;
    }
    let mut i: usize = 0;
    while i < x.len()
        invariant
            i <= x.len(),
            x.len() == y.len(),
            forall|j: int| 0 <= j < i ==> x@[j] == y@[j],
            x@ == a@,
            y@ == b@,
        decreases x.len() - i,
    {
        if x[i] != y[i] {
            assert(a@[i as int] != b@[i as int]);
            return false;
        }
        i = i + 1;
    }
    assert(x@ =~= y@);
    true
}

/// Whether a character has the Unicode `White_Space` property.
pub fn char_is_white_space(c: char) -> (r: bool)
    ensures
        r == is_white_space(c),
{
    let u = c as u32;
    (0x9 <= u && u <= 0xD) || u == 0x20 || u == 0x85 || u == 0xA0 || u == 0x1680 || (0x2000 <= u
        && u <= 0x200A) || u == 0x2028 || u == 0x2029 || u == 0x202F || u == 0x205F || u == 0x3000
}

/// Whether `s` holds nothing but white space (`s.trim().is_empty()`).
pub fn is_blank(s: &str) -> (r: bool)
    ensures
        r == all_white_space(s@),
{
    let cs = chars_of(s);
    let mut i: usize = 0;
    while i < cs.len()
        invariant
            i <= cs.len(),
            cs@ == s@,
            forall|j: int| 0 <= j < i ==> is_white_space(#[trigger] cs@[j]),
        decreases cs.len() - i,
    {
        if !char_is_white_space(cs[i]) {
            return false;
        }
        i = i + 1;
    }
    true
}

/// Extending a sequence of digits never lowers its value.
proof fn lemma_digits_value_prefix(s: Seq<char>, k: int)
    requires
        0 <= k <= s.len(),
        forall|i: int| 0 <= i < s.len() ==> is_digit(#[trigger] s[i]),
    ensures
        digits_value(s.take(k)) <= digits_value(s),
    decreases s.len() - k,
{
    if k < s.len() {
        lemma_digits_value_prefix(s, k + 1);
        let t = s.take(k + 1);
        assert(t.drop_last() == s.take(k));
        assert(is_digit(s[k]));
    } else {
        assert(s.take(k) == s);
    }
}

/// Parses a decimal `u32` as `str::parse::<u32>` does.
pub fn parse_u32(s: &str) -> (r: Option<u32>)
    ensures
        r == parse_u32_spec(s@),
{
    let cs = chars_of(s);
    let start: usize = if cs.len() > 0 && cs[0] == '+' {
        1
    } else {
        0
    };
    let ghost d = strip_plus(s@);
    assert(d == cs@.skip(start as int));
    if start >= cs.len() {
        return None;
    }
    let mut acc: u64 = 0;
    let mut i: usize = start;
    while i < cs.len()
        invariant
            start <= i <= cs.len(),
            cs@ == s@,
            d == cs@.skip(start as int),
            d == strip_plus(s@),
            forall|j: int| 0 <= j < i - start ==> is_digit(#[trigger] d[j]),
            acc == digits_value(d.take(i - start)),
            acc <= u32::MAX,
        decreases cs.len() - i,
    {
        let c = cs[i];
        if !('0' <= c && c <= '9') {
            assert(d[i - start] == c);
            assert(!is_digit(d[i - start]));
            assert(!all_digits(d));
            return None;
        }
        let ghost t = d.take(i - start + 1);
        assert(t.drop_last() == d.take(i - start));
        assert(t.last() == c);
        assert(digits_value(t) == digits_value(d.take(i - start)) * 10 + ((c as u32) - ('0' as u32)) as nat);
        acc = acc * 10 + ((c as u32) - ('0' as u32)) as u64;
        i = i + 1;
        if acc > 0xffff_ffff {
            proof {
                assert(acc == digits_value(d.take(i - start)));
                if all_digits(d) {
                    lemma_digits_value_prefix(d, i - start);
                    assert(digits_value(d) > u32::MAX);
                }
            }
            return None;
        }
    }
    assert(d.take(d.len() as int) == d);
    Some(acc as u32)
}

} // verus!
