//! Character and string helpers shared by the handlers.

use vstd::prelude::*;

verus! {

/// Appends one character to a string (`String::push`).
#[verifier::external_body]
pub(crate) fn push_char(s: &mut String, c: char)
    ensures
        final(s)@ == old(s)@.push(c),
{
    s.push(c);
}

/// The characters of `text`, in order.
pub fn chars_of(text: &str) -> (res: Vec<char>)
    ensures
        res@ == text@,
{
    let mut res: Vec<char> = Vec::new();
    for c in it: text.chars()
        invariant
            it.seq() == text@,
            res@ == it.seq().take(it.index() as int),
    {
        res.push(c);
    }
    res
}

} // verus!

verus! {

/// Whether `char::is_alphanumeric` holds of a character beyond ASCII that is
/// not whitespace (Unicode's Alphabetic property or a Number category).
pub uninterp spec fn alphanumeric_beyond_ascii(c: char) -> bool;

/// An ASCII letter or digit.
pub open spec fn is_ascii_alphanumeric(c: char) -> bool {
    ('a' <= c <= 'z') || ('A' <= c <= 'Z') || ('0' <= c <= '9')
}

/// Whether `char::is_alphanumeric` holds of `c`: within ASCII exactly the
/// letters and digits; never of whitespace (White_Space characters are
/// neither Alphabetic nor numbers); otherwise as the Unicode tables say.
pub open spec fn char_is_alphanumeric(c: char) -> bool {
    if (c as u32) < 128 {
        is_ascii_alphanumeric(c)
    } else if char_is_whitespace(c) {
        false
    } else {
        alphanumeric_beyond_ascii(c)
    }
}

/// Whether `c` has Unicode's White_Space property, as `char::is_whitespace`
/// asks: tab to carriage return, space, next line, no-break space, ogham
/// space mark, the spaces U+2000 to U+200A, line and paragraph separators,
/// narrow no-break space, medium mathematical space and ideographic space.
pub open spec fn char_is_whitespace(c: char) -> bool {
    let n = c as u32;
    (0x9 <= n <= 0xd) || n == 0x20 || n == 0x85 || n == 0xa0 || n == 0x1680 || (0x2000 <= n <= 0x200a)
        || n == 0x2028 || n == 0x2029 || n == 0x202f || n == 0x205f || n == 0x3000
}

/// `char::is_alphanumeric`: whether `c` is Alphabetic or has a Number
/// category. Within ASCII that is exactly the letters and digits; no
/// White_Space character is either; beyond those, the result is named, as
/// the Unicode tables take pages.
#[verifier::external_body]
pub(crate) fn is_alphanumeric(c: char) -> (res: bool)
    ensures
        (c as u32) < 128 ==> (res <==> is_ascii_alphanumeric(c)),
        (c as u32) >= 128 && char_is_whitespace(c) ==> !res,
        (c as u32) >= 128 && !char_is_whitespace(c) ==> res == alphanumeric_beyond_ascii(c),
{
    c.is_alphanumeric()
}

/// Decides `char_is_whitespace`.
pub fn is_whitespace(c: char) -> (res: bool)
    ensures
        res == char_is_whitespace(c),
{
    let n = c as u32;
    (0x9 <= n && n <= 0xd) || n == 0x20 || n == 0x85 || n == 0xa0 || n == 0x1680 || (0x2000 <= n && n <= 0x200a)
        || n == 0x2028 || n == 0x2029 || n == 0x202f || n == 0x205f || n == 0x3000
}

/// A character of the CJK Unified Ideographs block, U+4E00 to U+9FFF.
pub open spec fn is_cjk(c: char) -> bool {
    0x4e00 <= (c as u32) <= 0x9fff
}

/// Decides `is_cjk`.
pub fn cjk(c: char) -> (res: bool)
    ensures
        res == is_cjk(c),
{
    let n = c as u32;
    0x4e00 <= n && n <= 0x9fff
}

/// The string of one character.
pub fn string_of_char(c: char) -> (res: String)
    ensures
        res@ == seq![c],
{
    let mut s = String::new();
    push_char(&mut s, c);
    s
}

/// The string of two characters.
pub fn string_of_pair(a: char, b: char) -> (res: String)
    ensures
        res@ == seq![a, b],
{
    let mut s = String::new();
    push_char(&mut s, a);
    push_char(&mut s, b);
    s
}

/// The views of a vector of strings.
pub open spec fn views(v: Seq<String>) -> Seq<Seq<char>> {
    v.map_values(|s: String| s@)
}

} // verus!


verus! {

/// The decimal digit character of `d`.
pub open spec fn digit_char(d: nat) -> char {
    (48 + d) as char
}

/// The decimal numeral of `n`, without leading zeros.
pub open spec fn decimal(n: nat) -> Seq<char>
    decreases n,
{
    if n < 10 {
        seq![digit_char(n)]
    } else {
        decimal(n / 10).push(digit_char(n % 10))
    }
}

/// The decimal numeral of `n`, with a minus sign when it is negative.
pub open spec fn signed_decimal(n: int) -> Seq<char> {
    if n < 0 {
        seq!['-'] + decimal((-n) as nat)
    } else {
        decimal(n as nat)
    }
}

/// Appends the decimal numeral of `n`, as `{}` formats an unsigned integer.
pub fn push_decimal(s: &mut String, n: u64)
    ensures
        final(s)@ == old(s)@ + decimal(n as nat),
    decreases n,
{
    if n >= 10 {
        push_decimal(s, n / 10);
    }
    let d = (n % 10) as u8;
    let c = (48u8 + d) as char;
    push_char(s, c);
    proof {
        assert(c == digit_char((n % 10) as nat));
        if n < 10 {
            assert(old(s)@ + decimal(n as nat) =~= old(s)@.push(c));
        } else {
            assert(old(s)@ + decimal(n as nat) =~= (old(s)@ + decimal((n / 10) as nat)).push(c));
        }
    }
}

/// Appends the decimal numeral of `n`, as `{}` formats a signed integer.
pub fn push_signed_decimal(s: &mut String, n: i64)
    ensures
        final(s)@ == old(s)@ + signed_decimal(n as int),
{
    if n < 0 {
        push_char(s, '-');
        let m: u64 = if n == i64::MIN { 9223372036854775808u64 } else { (-n) as u64 };
        push_decimal(s, m);
        proof {
            assert(old(s)@ + signed_decimal(n as int) =~= old(s)@.push('-') + decimal(m as nat));
        }
    } else {
        push_decimal(s, n as u64);
    }
}

/// Whether `c` is an ASCII decimal digit.
pub open spec fn is_digit(c: char) -> bool {
    '0' <= c <= '9'
}

/// The value of a string of decimal digits.
pub open spec fn digits_value(ds: Seq<char>) -> nat
    decreases ds.len(),
{
    if ds.len() == 0 {
        0
    } else {
        digits_value(ds.drop_last()) * 10 + ((ds.last() as u32) - 48) as nat
    }
}

/// Whether `s` starts with a sign.
pub open spec fn has_sign(s: Seq<char>) -> bool {
    s.len() > 0 && (s[0] == '-' || s[0] == '+')
}

/// `s` without its sign, if it has one.
pub open spec fn unsigned_part(s: Seq<char>) -> Seq<char> {
    if has_sign(s) { s.drop_first() } else { s }
}

/// Whether every character of `ds` is an ASCII digit.
pub open spec fn all_digits(ds: Seq<char>) -> bool {
    forall|i: int| 0 <= i < ds.len() ==> is_digit(#[trigger] ds[i])
}

/// The value that `str::parse::<i32>` gives a string: an optional sign and
/// at least one ASCII digit, nothing else, and a value in range.
pub open spec fn parse_i32_spec(s: Seq<char>) -> Option<i32> {
    let ds = unsigned_part(s);
    if ds.len() == 0 || !all_digits(ds) {
        None
    } else {
        let v: int = if s[0] == '-' { -(digits_value(ds) as int) } else { digits_value(ds) as int };
        if i32::MIN <= v <= i32::MAX {
            Some(v as i32)
        } else {
            None
        }
    }
}

/// Parses a decimal `i32` as `str::parse::<i32>` does; `None` where it fails.
pub fn parse_i32(text: &str) -> (r: Option<i32>)
    ensures
        r == parse_i32_spec(text@),
{
    let cs = chars_of(text);
    let n = cs.len();
    let signed = n > 0 && (cs[0] == '-' || cs[0] == '+');
    let negative = n > 0 && cs[0] == '-';
    let start: usize = if signed { 1 } else { 0 };
    let ghost ds = unsigned_part(cs@);
    if start >= n {
        return None;
    }
    let mut acc: u64 = 0;
    let mut big = false;
    let mut i = start;
    while i < n
        invariant
            n == cs@.len(),
            cs@ == text@,
            ds == unsigned_part(text@),
            start <= i <= n,
            start == (if signed { 1int } else { 0int }),
            ds == cs@.subrange(start as int, n as int),
            forall|j: int| 0 <= j < i - start ==> is_digit(#[trigger] ds[j]),
            !big ==> acc == digits_value(ds.take(i - start)),
            !big ==> acc <= 2147483648,
            big ==> digits_value(ds.take(i - start)) > 2147483648,
        decreases n - i,
    {
        let c = cs[i];
        if !('0' <= c && c <= '9') {
            assert(!is_digit(ds[i - start]));
            assert(!all_digits(ds));
            return None;
        }
        let d = (c as u32 - 48) as u64;
        let ghost k = i - start;
        assert(ds.take(k + 1).drop_last() =~= ds.take(k));
        if !big {
            acc = acc * 10 + d;
            if acc > 2147483648 {
                big = true;
            }
        } else {
            assert(digits_value(ds.take(k + 1)) >= digits_value(ds.take(k)));
        }
        i += 1;
    }
    assert(ds.take(n - start) =~= ds);
    assert(all_digits(ds));
    if big {
        return None;
    }
    if negative {
        Some((0i64 - acc as i64) as i32)
    } else if acc <= 2147483647 {
        Some(acc as i32)
    } else {
        None
    }
}

} // verus!

verus! {

/// Whether a string reads `t`.
pub fn text_eq(s: &String, t: &str) -> (r: bool)
    ensures
        r == (s@ == t@),
{
    let u = <String as vstd::string::StringExecFns>::from_str(t);
    *s == u
}

} // verus!
