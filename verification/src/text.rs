//! Character classes and small string operations shared by the other modules.

use vstd::prelude::*;
use vstd::string::*;

verus! {

/// ASCII hexadecimal digit: `0-9`, `a-f`, `A-F`.
pub open spec fn is_hex_digit(c: char) -> bool {
    ('0' <= c && c <= '9') || ('a' <= c && c <= 'f') || ('A' <= c && c <= 'F')
}

/// Numeric value of a hexadecimal digit; 0 for any other character.
pub open spec fn hex_value(c: char) -> int {
    if '0' <= c && c <= '9' {
        c as int - '0' as int
    } else if 'a' <= c && c <= 'f' {
        c as int - 'a' as int + 10
    } else if 'A' <= c && c <= 'F' {
        c as int - 'A' as int + 10
    } else {
        0
    }
}

/// The hexadecimal digits of `s`, in the order in which they stand there.
pub open spec fn hex_digits(s: Seq<char>) -> Seq<char> {
    s.filter(|c: char| is_hex_digit(c))
}

/// Reading one more character adds it to the digits if it is one.
pub proof fn lemma_hex_digits_step(s: Seq<char>, i: int)
    requires
        0 <= i < s.len(),
    ensures
        hex_digits(s.take(i + 1)) == if is_hex_digit(s[i]) {
            hex_digits(s.take(i)).push(s[i])
        } else {
            hex_digits(s.take(i))
        },
        hex_digits(s.take(0)).len() == 0,
{
    reveal(Seq::filter);
    assert(s.take(i + 1).drop_last() =~= s.take(i));
}

/// Decides whether `c` is an ASCII hexadecimal digit.
pub fn char_is_hex_digit(c: char) -> (b: bool)
    ensures
        b == is_hex_digit(c),
{
    (c >= '0' && c <= '9') || (c >= 'a' && c <= 'f') || (c >= 'A' && c <= 'F')
}

/// Value of the hexadecimal digit `c`.
pub fn char_hex_value(c: char) -> (v: u8)
    requires
        is_hex_digit(c),
    ensures
        v == hex_value(c),
        v < 16,
{
    let n: u32 = c as u32;
    if c >= '0' && c <= '9' {
        (n - 48) as u8
    } else if c >= 'a' && c <= 'f' {
        (n - 97 + 10) as u8
    } else {
        (n - 65 + 10) as u8
    }
}

/// A text names a hardware address when it holds exactly twelve
/// hexadecimal digits. Whatever stands between them (colons, dashes,
/// anything that is no such digit) is passed over.
pub open spec fn is_mac(s: Seq<char>) -> bool {
    hex_digits(s).len() == 12
}

/// Decides whether `s` names a hardware address.
pub fn str_is_mac(s: &str) -> (b: bool)
    ensures
        b == is_mac(s@),
{
    let mut count: usize = 0;
    for c in it: s.chars()
        invariant
            it.seq() == s@,
            count == if hex_digits(s@.take(it.index())).len() <= 13 {
                hex_digits(s@.take(it.index())).len()
            } else {
                13
            },
    {
        proof {
            lemma_hex_digits_step(s@, it.index());
        }
        if char_is_hex_digit(c) && count < 13 {
            count = count + 1;
        }
    }
    proof {
        assert(s@.take(s@.len() as int) =~= s@);
    }
    count == 12
}

/// ASCII decimal digit.
pub open spec fn is_digit(c: char) -> bool {
    '0' <= c && c <= '9'
}

/// The number that the decimal digits `digits` spell; leading zeros count
/// for nothing.
pub open spec fn decimal_value(digits: Seq<char>) -> nat
    decreases digits.len(),
{
    if digits.len() == 0 {
        0
    } else {
        (decimal_value(digits.drop_last()) * 10 + (digits.last() as int - '0' as int)) as nat
    }
}

/// Whether every character of `s` is a decimal digit.
pub open spec fn all_digits(s: Seq<char>) -> bool {
    forall|i: int| 0 <= i < s.len() ==> is_digit(#[trigger] s[i])
}

/// `s` without the plus sign that may stand in front of a number.
pub open spec fn unsigned_part(s: Seq<char>) -> Seq<char> {
    if s.len() > 0 && s[0] == '+' {
        s.drop_first()
    } else {
        s
    }
}

/// The 16-bit number that `s` spells in decimal: an optional plus sign,
/// then at least one digit and nothing else, the value no more than 65535.
pub open spec fn parse_u16_spec(s: Seq<char>) -> Option<u16> {
    let digits = unsigned_part(s);
    if digits.len() > 0 && all_digits(digits) && decimal_value(digits) <= 65535 {
        Some(decimal_value(digits) as u16)
    } else {
        None
    }
}

/// More digits never spell a smaller number.
pub proof fn lemma_decimal_value_grows(digits: Seq<char>, k: int)
    requires
        all_digits(digits),
        0 <= k <= digits.len(),
    ensures
        decimal_value(digits.take(k)) <= decimal_value(digits),
    decreases digits.len() - k,
{
    if k == digits.len() {
        assert(digits.take(k) =~= digits);
    } else {
        lemma_decimal_value_grows(digits, k + 1);
        assert(digits.take(k + 1).drop_last() =~= digits.take(k));
        assert(is_digit(digits[k]));
        assert(digits.take(k + 1).last() == digits[k]);
    }
}

/// Reads a 16-bit number written in decimal.
pub fn parse_u16(s: &str) -> (r: Option<u16>)
    ensures
        r == parse_u16_spec(s@),
{
    let mut value: u32 = 0;
    let mut at_start: bool = true;
    let mut signed: bool = false;
    let mut any_digit: bool = false;
    let ghost digits = unsigned_part(s@);
    for c in it: s.chars()
        invariant
            it.seq() == s@,
            digits == unsigned_part(s@),
            at_start == (it.index() == 0),
            signed == (s@.len() > 0 && s@[0] == '+' && it.index() > 0),
            it.index() == 0 ==> !any_digit && value == 0,
            any_digit == (it.index() - (if signed { 1int } else { 0int }) > 0),
            0 <= it.index() - (if signed { 1int } else { 0int }) <= digits.len(),
            all_digits(digits.take(it.index() - (if signed { 1int } else { 0int }))),
            value == decimal_value(digits.take(it.index() - (if signed { 1int } else { 0int }))),
            value <= 65535,
    {
        let ghost k = it.index() - (if signed { 1int } else { 0int });
        if at_start && c == '+' {
            at_start = false;
            signed = true;
            proof {
                assert(digits.take(0) =~= Seq::<char>::empty());
            }
        } else if c >= '0' && c <= '9' {
            let d: u32 = c as u32 - 48;
            proof {
                assert(digits[k] == c);
                assert(digits.take(k + 1).drop_last() =~= digits.take(k));
                assert(digits.take(k + 1).last() == c);
            }
            value = value * 10 + d;
            at_start = false;
            any_digit = true;
            if value > 65535 {
                proof {
                    if all_digits(digits) {
                        lemma_decimal_value_grows(digits, k + 1);
                    }
                }
                return None;
            }
        } else {
            proof {
                assert(digits[k] == c);
                assert(!is_digit(digits[k]));
            }
            return None;
        }
    }
    proof {
        assert(digits.take(digits.len() as int) =~= digits);
    }
    if any_digit {
        Some(value as u16)
    } else {
        None
    }
}

/// White space as Unicode defines it (the property `White_Space`).
pub open spec fn is_whitespace(c: char) -> bool {
    let u = c as u32;
    ||| 0x09 <= u <= 0x0d
    ||| u == 0x20
    ||| u == 0x85
    ||| u == 0xa0
    ||| u == 0x1680
    ||| 0x2000 <= u <= 0x200a
    ||| u == 0x2028
    ||| u == 0x2029
    ||| u == 0x202f
    ||| u == 0x205f
    ||| u == 0x3000
}

/// Decides whether `c` is white space.
pub fn char_is_whitespace(c: char) -> (b: bool)
    ensures
        b == is_whitespace(c),
{
    let u: u32 = c as u32;
    (0x09 <= u && u <= 0x0d) || u == 0x20 || u == 0x85 || u == 0xa0 || u == 0x1680 || (0x2000 <= u
        && u <= 0x200a) || u == 0x2028 || u == 0x2029 || u == 0x202f || u == 0x205f || u == 0x3000
}

/// `s` without the white space at its start.
pub open spec fn trim_start(s: Seq<char>) -> Seq<char>
    decreases s.len(),
{
    if s.len() > 0 && is_whitespace(s.first()) {
        trim_start(s.drop_first())
    } else {
        s
    }
}

/// `s` without the white space at its end.
pub open spec fn trim_end(s: Seq<char>) -> Seq<char>
    decreases s.len(),
{
    if s.len() > 0 && is_whitespace(s.last()) {
        trim_end(s.drop_last())
    } else {
        s
    }
}

/// `s` without the white space at its start and at its end.
pub open spec fn trimmed(s: Seq<char>) -> Seq<char> {
    trim_end(trim_start(s))
}

/// Where the white space at the start of `s` ends, there begins what
/// `trim_start` leaves.
pub proof fn lemma_trim_start_at(s: Seq<char>, a: int)
    requires
        0 <= a <= s.len(),
        forall|i: int| 0 <= i < a ==> is_whitespace(#[trigger] s[i]),
        a == s.len() || !is_whitespace(s[a]),
    ensures
        trim_start(s) == s.skip(a),
    decreases a,
{
    if a == 0 {
        assert(s.skip(0) =~= s);
    } else {
        assert(is_whitespace(s[0]));
        let rest = s.drop_first();
        assert forall|i: int| 0 <= i < a - 1 implies is_whitespace(#[trigger] rest[i]) by {
            assert(rest[i] == s[i + 1]);
        }
        lemma_trim_start_at(rest, a - 1);
        assert(rest.skip(a - 1) =~= s.skip(a));
    }
}

/// Where the white space at the end of `s` begins, there ends what
/// `trim_end` leaves.
pub proof fn lemma_trim_end_at(s: Seq<char>, b: int)
    requires
        0 <= b <= s.len(),
        forall|i: int| b <= i < s.len() ==> is_whitespace(#[trigger] s[i]),
        b == 0 || !is_whitespace(s[b - 1]),
    ensures
        trim_end(s) == s.take(b),
    decreases s.len() - b,
{
    if b == s.len() {
        assert(s.take(b) =~= s);
    } else {
        assert(is_whitespace(s[s.len() - 1]));
        let rest = s.drop_last();
        lemma_trim_end_at(rest, b);
        assert(rest.take(b) =~= s.take(b));
    }
}

/// `s` without the white space around it.
pub fn trim(s: &str) -> (t: &str)
    ensures
        t@ == trimmed(s@),
{
    let n = s.unicode_len();
    let mut pos: usize = 0;
    let mut start: usize = 0;
    let mut end: usize = 0;
    let mut found: bool = false;
    for c in it: s.chars()
        invariant
            it.seq() == s@,
            n == s@.len(),
            pos == it.index(),
            !found ==> forall|i: int| 0 <= i < pos ==> is_whitespace(#[trigger] s@[i]),
            found ==> start < end <= pos,
            found ==> forall|i: int| 0 <= i < start ==> is_whitespace(#[trigger] s@[i]),
            found ==> !is_whitespace(s@[start as int]) && !is_whitespace(s@[end - 1]),
            found ==> forall|i: int| end <= i < pos ==> is_whitespace(#[trigger] s@[i]),
    {
        if !char_is_whitespace(c) {
            if !found {
                start = pos;
                found = true;
            }
            end = pos + 1;
        }
        pos = pos + 1;
    }
    if found {
        proof {
            lemma_trim_start_at(s@, start as int);
            let rest = s@.skip(start as int);
            assert forall|i: int| end - start <= i < rest.len() implies is_whitespace(
                #[trigger] rest[i],
            ) by {
                assert(rest[i] == s@[i + start]);
            }
            assert(rest[end - start - 1] == s@[end - 1]);
            lemma_trim_end_at(rest, end - start);
            assert(rest.take(end - start) =~= s@.subrange(start as int, end as int));
        }
        s.substring_char(start, end)
    } else {
        proof {
            lemma_trim_start_at(s@, n as int);
            lemma_trim_end_at(s@.skip(n as int), 0);
            assert(s@.skip(n as int).take(0) =~= s@.subrange(0, 0));
        }
        s.substring_char(0, 0)
    }
}

/// What is left of `s` once `prefix` is taken from its start; `None` where
/// `s` does not start with `prefix`.
pub open spec fn strip_prefix_spec(s: Seq<char>, prefix: Seq<char>) -> Option<Seq<char>> {
    if prefix.is_prefix_of(s) {
        Some(s.skip(prefix.len() as int))
    } else {
        None
    }
}

/// Mathematical value of a text that may be missing.
pub open spec fn str_view(text: Option<&str>) -> Option<Seq<char>> {
    match text {
        Some(t) => Some(t@),
        None => None,
    }
}

/// Takes `prefix` from the start of `s`.
pub fn strip_prefix<'a>(s: &'a str, prefix: &str) -> (rest: Option<&'a str>)
    ensures
        str_view(rest) == strip_prefix_spec(s@, prefix@),
{
    let n = s.unicode_len();
    let m = prefix.unicode_len();
    if m > n {
        return None;
    }
    let mut i: usize = 0;
    while i < m
        invariant
            i <= m <= n,
            n == s@.len(),
            m == prefix@.len(),
            forall|j: int| 0 <= j < i ==> s@[j] == prefix@[j],
        decreases m - i,
    {
        if s.get_char(i) != prefix.get_char(i) {
            proof {
                assert(s@.subrange(0, m as int)[i as int] == s@[i as int]);
            }
            return None;
        }
        i = i + 1;
    }
    proof {
        assert(prefix@ =~= s@.subrange(0, m as int));
        assert(s@.skip(m as int) =~= s@.subrange(m as int, n as int));
    }
    Some(s.substring_char(m, n))
}

/// `prefix` followed by `detail`.
pub fn prefixed(prefix: &str, detail: &str) -> (out: String)
    ensures
        out@ == prefix@ + detail@,
{
    let mut out = prefix.to_owned();
    out.append(detail);
    out
}

} // verus!
