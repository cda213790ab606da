//! Decimal numbers as text: how a process id is written to and read from its
//! record, and how a port is written into a URL.

use crate::text::chars_of;
use vstd::prelude::*;
use vstd::string::StringExecFns;

verus! {

/// The white-space characters, as Unicode defines them.
pub open spec fn is_space(c: char) -> bool {
    let u = c as u32;
    ||| 0x09 <= u <= 0x0D
    ||| u == 0x20
    ||| u == 0x85
    ||| u == 0xA0
    ||| u == 0x1680
    ||| 0x2000 <= u <= 0x200A
    ||| u == 0x2028
    ||| u == 0x2029
    ||| u == 0x202F
    ||| u == 0x205F
    ||| u == 0x3000
}

/// Number of white-space characters at the start of `s`.
pub open spec fn leading_spaces(s: Seq<char>) -> int
    decreases s.len(),
{
    if s.len() > 0 && is_space(s[0]) {
        1 + leading_spaces(s.drop_first())
    } else {
        0
    }
}

/// Number of white-space characters at the end of `s`.
pub open spec fn trailing_spaces(s: Seq<char>) -> int
    decreases s.len(),
{
    if s.len() > 0 && is_space(s.last()) {
        1 + trailing_spaces(s.drop_last())
    } else {
        0
    }
}

/// `s` without the white space around it.
pub open spec fn trimmed(s: Seq<char>) -> Seq<char> {
    let rest = s.skip(leading_spaces(s));
    rest.take(rest.len() - trailing_spaces(rest))
}

/// One of the characters `0` to `9`.
pub open spec fn is_digit(c: char) -> bool {
    '0' <= c <= '9'
}

/// Every character of `s` is a digit.
pub open spec fn all_digits(s: Seq<char>) -> bool {
    forall|i: int| 0 <= i < s.len() ==> is_digit(#[trigger] s[i])
}

/// The number a digit stands for.
pub open spec fn digit_value(c: char) -> nat {
    (c as u32 - '0' as u32) as nat
}

/// The digit that stands for `d`, for `d` below ten.
pub open spec fn digit_char(d: nat) -> char {
    (d + '0' as u32) as char
}

/// The number that a run of digits stands for, read in base ten.
pub open spec fn decimal_value(digits: Seq<char>) -> nat
    decreases digits.len(),
{
    if digits.len() == 0 {
        0
    } else {
        decimal_value(digits.drop_last()) * 10 + digit_value(digits.last())
    }
}

/// `n` in base ten, without sign or leading zeros.
pub open spec fn decimal_text(n: nat) -> Seq<char>
    decreases n,
{
    if n < 10 {
        seq![digit_char(n)]
    } else {
        decimal_text(n / 10).push(digit_char(n % 10))
    }
}

/// What is left of `text` once the white space around it and one leading
/// `+` are taken away.
pub open spec fn unsigned_part(text: Seq<char>) -> Seq<char> {
    let body = trimmed(text);
    if body.len() > 0 && body[0] == '+' {
        body.drop_first()
    } else {
        body
    }
}

/// The unsigned 32-bit number that `text` holds: white space around it is
/// ignored, one `+` may stand before the digits, at least one digit is
/// needed, and the value must fit. Anything else holds no number.
pub open spec fn parsed_u32(text: Seq<char>) -> Option<u32> {
    let digits = unsigned_part(text);
    if digits.len() > 0 && all_digits(digits) && decimal_value(digits) <= u32::MAX {
        Some(decimal_value(digits) as u32)
    } else {
        None
    }
}

fn is_space_char(c: char) -> (r: bool)
    ensures
        r == is_space(c),
{
    let u = c as u32;
    (0x09 <= u && u <= 0x0D) || u == 0x20 || u == 0x85 || u == 0xA0 || u == 0x1680 || (0x2000 <= u
        && u <= 0x200A) || u == 0x2028 || u == 0x2029 || u == 0x202F || u == 0x205F || u == 0x3000
}

/// A prefix of a run of digits never stands for more than the whole run.
proof fn lemma_prefix_value_is_smaller(digits: Seq<char>, i: int)
    requires
        0 <= i <= digits.len(),
    ensures
        decimal_value(digits.take(i)) <= decimal_value(digits),
    decreases digits.len(),
{
    if i == digits.len() {
        assert(digits.take(i) =~= digits);
    } else {
        assert(digits.drop_last().take(i) =~= digits.take(i));
        lemma_prefix_value_is_smaller(digits.drop_last(), i);
    }
}

/// Reads the number that `text` holds, if it holds one.
pub fn parse_u32(text: &str) -> (value: Option<u32>)
    ensures
        value == parsed_u32(text@),
{
    let v = chars_of(text);
    let n = v.len();
    let mut start: usize = 0;
    assert(v@.skip(0) =~= v@);
    while start < n && is_space_char(v[start])
        invariant
            start <= n == v.len(),
            leading_spaces(v@) == start + leading_spaces(v@.skip(start as int)),
        decreases n - start,
    {
        assert(v@.skip(start as int).drop_first() =~= v@.skip(start + 1));
        start += 1;
    }
    let ghost rest = v@.skip(start as int);
    let mut end: usize = n;
    assert(rest.take(end - start) =~= rest);
    while end > start && is_space_char(v[end - 1])
        invariant
            start <= end <= n == v.len(),
            rest == v@.skip(start as int),
            trailing_spaces(rest) == (n - end) + trailing_spaces(rest.take(end - start)),
        decreases end,
    {
        assert(rest.take(end - start).drop_last() =~= rest.take(end - 1 - start));
        end -= 1;
    }
    let ghost body = trimmed(text@);
    assert(body =~= v@.subrange(start as int, end as int));
    let first: usize = if start < end && v[start] == '+' {
        start + 1
    } else {
        start
    };
    let ghost digits = v@.subrange(first as int, end as int);
    assert(digits =~= unsigned_part(text@));
    if first == end {
        return None;
    }
    let mut acc: u64 = 0;
    let mut i: usize = first;
    assert(digits.take(0) =~= Seq::<char>::empty());
    while i < end
        invariant
            first <= i <= end <= v.len(),
            digits == v@.subrange(first as int, end as int),
            digits == unsigned_part(text@),
            all_digits(digits.take(i - first)),
            acc == decimal_value(digits.take(i - first)),
            acc <= u32::MAX,
        decreases end - i,
    {
        let c = v[i];
        if !('0' <= c && c <= '9') {
            assert(!is_digit(digits[i - first]));
            return None;
        }
        let d: u64 = (c as u32 - '0' as u32) as u64;
        assert(digits.take(i + 1 - first).drop_last() =~= digits.take(i - first));
        assert(digits.take(i + 1 - first).last() == c);
        acc = acc * 10 + d;
        if acc > u32::MAX as u64 {
            proof {
                lemma_prefix_value_is_smaller(digits, i + 1 - first);
            }
            return None;
        }
        assert forall|k: int| 0 <= k < i + 1 - first implies is_digit(
            #[trigger] digits.take(i + 1 - first)[k],
        ) by {
            if k < i - first {
                assert(digits.take(i + 1 - first)[k] == digits.take(i - first)[k]);
            }
        }
        i += 1;
    }
    assert(digits.take(end - first) =~= digits);
    Some(acc as u32)
}

/// The digit that stands for `d`.
fn digit_text(d: u32) -> (s: &'static str)
    requires
        d < 10,
    ensures
        s@ == seq![digit_char(d as nat)],
{
    proof {
        reveal_strlit("0");
        reveal_strlit("1");
        reveal_strlit("2");
        reveal_strlit("3");
        reveal_strlit("4");
        reveal_strlit("5");
        reveal_strlit("6");
        reveal_strlit("7");
        reveal_strlit("8");
        reveal_strlit("9");
    }
    let s = if d == 0 {
        "0"
    } else if d == 1 {
        "1"
    } else if d == 2 {
        "2"
    } else if d == 3 {
        "3"
    } else if d == 4 {
        "4"
    } else if d == 5 {
        "5"
    } else if d == 6 {
        "6"
    } else if d == 7 {
        "7"
    } else if d == 8 {
        "8"
    } else {
        "9"
    };
    assert(s@ =~= seq![digit_char(d as nat)]);
    s
}

/// Writes `n` in base ten.
pub fn format_u32(n: u32) -> (text: String)
    ensures
        text@ == decimal_text(n as nat),
    decreases n,
{
    if n < 10 {
        String::from_str(digit_text(n))
    } else {
        let mut text = format_u32(n / 10);
        text.append(digit_text(n % 10));
        text
    }
}

/// A digit stands for the number it was chosen for.
proof fn lemma_digit_char_value(d: nat)
    requires
        d < 10,
    ensures
        is_digit(digit_char(d)),
        digit_value(digit_char(d)) == d,
        !is_space(digit_char(d)),
{
    assert(digit_char(d) as u32 == d + 48);
}

/// The text of a number is made of digits, at least one, and stands for
/// that number.
pub proof fn lemma_decimal_text_is_digits(n: nat)
    ensures
        decimal_text(n).len() > 0,
        all_digits(decimal_text(n)),
        decimal_value(decimal_text(n)) == n,
    decreases n,
{
    if n >= 10 {
        lemma_decimal_text_is_digits(n / 10);
        lemma_digit_char_value(n % 10);
        let text = decimal_text(n);
        assert(text.drop_last() =~= decimal_text(n / 10));
        assert(text.last() == digit_char(n % 10));
        assert forall|i: int| 0 <= i < text.len() implies is_digit(#[trigger] text[i]) by {
            if i < text.len() - 1 {
                assert(text[i] == decimal_text(n / 10)[i]);
            }
        }
    } else {
        lemma_digit_char_value(n);
        let text = decimal_text(n);
        assert(text.drop_last() =~= Seq::<char>::empty());
        assert(decimal_value(text.drop_last()) == 0);
        assert(text.last() == digit_char(n));
    }
}

/// Reading back what was written gives the number that was written.
pub proof fn lemma_written_number_reads_back(n: u32)
    ensures
        parsed_u32(decimal_text(n as nat)) == Some(n),
{
    let text = decimal_text(n as nat);
    lemma_decimal_text_is_digits(n as nat);
    assert(is_digit(text[0]) && is_digit(text.last()));
    assert(!is_space(text[0]) && !is_space(text.last()));
    assert(text.skip(0) =~= text);
    assert(text.take(text.len() as int) =~= text);
    assert(trimmed(text) == text);
}

/// What trimming leaves: a stretch of `s` that neither begins nor ends
/// with white space, with nothing but white space before and after it.
pub proof fn lemma_trimmed_is_bare(s: Seq<char>)
    ensures
        ({
            let lead = leading_spaces(s);
            let body = trimmed(s);
            &&& 0 <= lead <= lead + body.len() <= s.len()
            &&& body == s.subrange(lead, lead + body.len())
            &&& forall|j: int| 0 <= j < lead ==> is_space(#[trigger] s[j])
            &&& forall|j: int| lead + body.len() <= j < s.len() ==> is_space(#[trigger] s[j])
            &&& body.len() > 0 ==> !is_space(body[0]) && !is_space(body.last())
        }),
{
    let lead = leading_spaces(s);
    let rest = s.skip(lead);
    lemma_leading_spaces(s);
    lemma_trailing_spaces(rest);
    let body = trimmed(s);
    assert(body =~= s.subrange(lead, lead + body.len()));
    assert forall|j: int| lead + body.len() <= j < s.len() implies is_space(#[trigger] s[j]) by {
        assert(s[j] == rest[j - lead]);
    }
}

/// The leading white space is white space, and what follows it is not.
proof fn lemma_leading_spaces(s: Seq<char>)
    ensures
        0 <= leading_spaces(s) <= s.len(),
        forall|j: int| 0 <= j < leading_spaces(s) ==> is_space(#[trigger] s[j]),
        leading_spaces(s) < s.len() ==> !is_space(s[leading_spaces(s)]),
    decreases s.len(),
{
    if s.len() > 0 && is_space(s[0]) {
        let rest = s.drop_first();
        lemma_leading_spaces(rest);
        assert forall|j: int| 0 <= j < leading_spaces(s) implies is_space(#[trigger] s[j]) by {
            if j > 0 {
                assert(s[j] == rest[j - 1]);
            }
        }
        if leading_spaces(s) < s.len() {
            assert(s[leading_spaces(s)] == rest[leading_spaces(rest)]);
        }
    }
}

/// The trailing white space is white space, and what precedes it is not.
proof fn lemma_trailing_spaces(s: Seq<char>)
    ensures
        0 <= trailing_spaces(s) <= s.len(),
        forall|j: int| s.len() - trailing_spaces(s) <= j < s.len() ==> is_space(#[trigger] s[j]),
        trailing_spaces(s) < s.len() ==> !is_space(s[s.len() - trailing_spaces(s) - 1]),
    decreases s.len(),
{
    if s.len() > 0 && is_space(s.last()) {
        let rest = s.drop_last();
        lemma_trailing_spaces(rest);
        assert forall|j: int| s.len() - trailing_spaces(s) <= j < s.len() implies is_space(
            #[trigger] s[j],
        ) by {
            if j < s.len() - 1 {
                assert(s[j] == rest[j]);
            }
        }
        if trailing_spaces(s) < s.len() {
            assert(s[s.len() - trailing_spaces(s) - 1] == rest[rest.len() - trailing_spaces(rest)
                - 1]);
        }
    }
}

} // verus!
