//! Text measures and small string builders shared by the writers.
//!
//! Widths are counted in bytes of the UTF-8 form, which is what a `str`
//! reports as its length.

use vstd::prelude::*;
use vstd::string::*;
use vstd::utf8::*;

verus! {

/// `String::push` appends one character to the end of the string.
pub assume_specification[ std::string::String::push ](s: &mut std::string::String, ch: char)
    ensures
        final(s)@ == old(s)@.push(ch),
;

/// The characters of a text that may be missing.
pub open spec fn view_opt(s: Option<String>) -> Option<Seq<char>> {
    match s {
        Some(t) => Some(t@),
        None => None,
    }
}

/// The byte that encodes a line break.
pub const LINE_BREAK: u8 = 10;

/// Number of bytes that `s` takes in UTF-8.
#[verifier::opaque]
pub open spec fn width(s: Seq<char>) -> nat {
    encode_utf8(s).len()
}

/// Number of bytes from the last line break of `b` on, the break included;
/// all of `b` where it holds no line break.
pub open spec fn trailing_line(b: Seq<u8>) -> nat
    decreases b.len(),
{
    if b.len() == 0 {
        0
    } else if b.last() == LINE_BREAK {
        1
    } else {
        trailing_line(b.drop_last()) + 1
    }
}

/// The room that `s` takes on the line it ends on: its width, or, where it
/// spans several lines, the width of its last line and the break before it.
#[verifier::opaque]
pub open spec fn line_width(s: Seq<char>) -> nat {
    trailing_line(encode_utf8(s))
}

/// Whether `s` spans more than one line.
#[verifier::opaque]
pub open spec fn has_line_break(s: Seq<char>) -> bool {
    encode_utf8(s).contains(LINE_BREAK)
}

/// A text of ASCII characters takes one byte for each, and as much on
/// its line where it holds no line break.
pub proof fn lemma_ascii_width(s: Seq<char>)
    requires
        is_ascii_chars(s),
    ensures
        width(s) == s.len(),
        (forall|i: int| 0 <= i < s.len() ==> s[i] != '\n') ==> line_width(s) == s.len()
            && !has_line_break(s),
{
    reveal(width);
    reveal(line_width);
    reveal(has_line_break);
    is_ascii_chars_encode_utf8(s);
    let b = encode_utf8(s);
    if forall|i: int| 0 <= i < s.len() ==> s[i] != '\n' {
        assert forall|i: int| 0 <= i < b.len() implies b[i] != LINE_BREAK by {
            assert(s[i] as u8 == b[i]);
            assert(s[i] != '\n');
        }
        lemma_single_line_width(b);
    }
}

/// A text without a line break takes its whole width on the line.
pub proof fn lemma_single_line_width(b: Seq<u8>)
    requires
        !b.contains(LINE_BREAK),
    ensures
        trailing_line(b) == b.len(),
    decreases b.len(),
{
    if b.len() > 0 {
        assert(b[b.len() - 1] == b.last());
        assert forall|i: int| 0 <= i < b.drop_last().len() implies b.drop_last()[i]
            != LINE_BREAK by {
            assert(b[i] == b.drop_last()[i]);
        }
        lemma_single_line_width(b.drop_last());
    }
}

pub fn str_width(s: &str) -> (n: usize)
    ensures
        n == width(s@),
{
    reveal(width);
    s.as_bytes().len()
}

pub fn str_line_width(s: &str) -> (n: usize)
    ensures
        n == line_width(s@),
{
    reveal(line_width);
    let b = s.as_bytes();
    let len = b.len();
    let mut i: usize = len;
    assert(b@.take(len as int) == b@);
    while i > 0 && b[i - 1] != LINE_BREAK
        invariant
            i <= len,
            len == b@.len(),
            trailing_line(b@) == trailing_line(b@.take(i as int)) + (len - i),
        decreases i,
    {
        proof {
            let t = b@.take(i as int);
            assert(t.last() == b@[i - 1]);
            assert(t.drop_last() == b@.take(i - 1));
        }
        i -= 1;
    }
    proof {
        let t = b@.take(i as int);
        if i > 0 {
            assert(t.last() == b@[i - 1]);
        }
        assert(b@.take(len as int) == b@);
    }
    if i == 0 {
        len
    } else {
        len - i + 1
    }
}

pub fn str_has_line_break(s: &str) -> (r: bool)
    ensures
        r == has_line_break(s@),
{
    reveal(has_line_break);
    let b = s.as_bytes();
    let mut i: usize = 0;
    while i < b.len()
        invariant
            i <= b.len(),
            b@ == encode_utf8(s@),
            forall|j: int| 0 <= j < i ==> b@[j] != LINE_BREAK,
        decreases b.len() - i,
    {
        if b[i] == LINE_BREAK {
            proof {
                reveal(has_line_break);
            }
            return true;
        }
        i += 1;
    }
    false
}

/// Whether two texts hold the same characters.
pub fn str_eq(a: &str, b: &str) -> (r: bool)
    ensures
        r == (a@ == b@),
{
    let x = a.as_bytes();
    let y = b.as_bytes();
    proof {
        encode_utf8_decode_utf8(a@);
        encode_utf8_decode_utf8(b@);
    }
    if x.len() != y.len() {
        return false;
    }
    let mut i: usize = 0;
    while i < x.len()
        invariant
            x.len() == y.len(),
            i <= x.len(),
            x@ == encode_utf8(a@),
            y@ == encode_utf8(b@),
            forall|j: int| 0 <= j < i ==> x@[j] == y@[j],
        decreases x.len() - i,
    {
        if x[i] != y[i] {
            return false;
        }
        i += 1;
    }
    assert(x@ =~= y@);
    true
}

/// The decimal digit for `d`, for `d` from 0 to 9.
pub open spec fn digit_char(d: int) -> char {
    ((48 + d) as u8) as char
}

/// The digits of `n` in base 10, without leading zeros.
pub open spec fn decimal_nat(n: nat) -> Seq<char>
    decreases n,
{
    if n < 10 {
        seq![digit_char(n as int)]
    } else {
        decimal_nat(n / 10).push(digit_char((n % 10) as int))
    }
}

/// `i` in base 10, with a minus sign where it is negative.
pub open spec fn decimal(i: int) -> Seq<char> {
    if i < 0 {
        seq!['-'] + decimal_nat((-i) as nat)
    } else {
        decimal_nat(i as nat)
    }
}

fn push_decimal(r: &mut String, n: u64)
    ensures
        final(r)@ == old(r)@ + decimal_nat(n as nat),
    decreases n,
{
    if n >= 10 {
        push_decimal(r, n / 10);
    }
    let d: u8 = (n % 10) as u8;
    r.push((48u8 + d) as char);
    proof {
        if n >= 10 {
            assert(old(r)@ + decimal_nat((n / 10) as nat).push(digit_char((n % 10) as int)) =~= (
            old(r)@ + decimal_nat((n / 10) as nat)).push(digit_char((n % 10) as int)));
        } else {
            assert(old(r)@ + seq![digit_char(n as int)] =~= old(r)@.push(digit_char(n as int)));
        }
    }
}

pub fn i64_to_string(i: i64) -> (r: String)
    ensures
        r@ == decimal(i as int),
{
    let mut r = String::new();
    if i < 0 {
        r.push('-');
        let m: u64 = (-(i as i128)) as u64;
        push_decimal(&mut r, m);
        assert(seq!['-'] =~= Seq::<char>::empty().push('-'));
    } else {
        push_decimal(&mut r, i as u64);
        assert(Seq::<char>::empty() + decimal_nat(i as nat) =~= decimal_nat(i as nat));
    }
    r
}

/// `s` with every brace written twice.
pub open spec fn doubled_braces(s: Seq<char>) -> Seq<char>
    decreases s.len(),
{
    if s.len() == 0 {
        Seq::empty()
    } else if s.last() == '{' {
        doubled_braces(s.drop_last()) + "{{"@
    } else if s.last() == '}' {
        doubled_braces(s.drop_last()) + "}}"@
    } else {
        doubled_braces(s.drop_last()).push(s.last())
    }
}

pub fn double_braces(s: &str) -> (r: String)
    ensures
        r@ == doubled_braces(s@),
{
    let mut r = String::new();
    for c in it: s.chars()
        invariant
            it.seq() == s@,
            r@ == doubled_braces(s@.take(it.index())),
    {
        proof {
            assert(s@.take(it.index() + 1).drop_last() == s@.take(it.index()));
        }
        if c == '{' {
            r.append("{{");
        } else if c == '}' {
            r.append("}}");
        } else {
            r.push(c);
        }
    }
    proof {
        assert(s@.take(s@.len() as int) == s@);
    }
    r
}

/// What stands between the quotes for `s`: a backslash before each
/// backslash and double quote, and `\n`, `\r`, `\t` for the characters they
/// name.
pub open spec fn escaped(s: Seq<char>) -> Seq<char>
    decreases s.len(),
{
    if s.len() == 0 {
        Seq::empty()
    } else {
        let c = s.last();
        let head = escaped(s.drop_last());
        if c == '\\' {
            head + "\\\\"@
        } else if c == '"' {
            head + "\\\""@
        } else if c == '\n' {
            head + "\\n"@
        } else if c == '\r' {
            head + "\\r"@
        } else if c == '\t' {
            head + "\\t"@
        } else {
            head.push(c)
        }
    }
}

/// `s` as a string literal in double quotes.
pub open spec fn quoted(s: Seq<char>) -> Seq<char> {
    "\""@ + escaped(s) + "\""@
}

pub fn quote_string(s: &str) -> (r: String)
    ensures
        r@ == quoted(s@),
{
    let mut r = String::new();
    r.append("\"");
    for c in it: s.chars()
        invariant
            it.seq() == s@,
            r@ == "\""@ + escaped(s@.take(it.index())),
    {
        proof {
            assert(s@.take(it.index() + 1).drop_last() == s@.take(it.index()));
        }
        if c == '\\' {
            r.append("\\\\");
        } else if c == '"' {
            r.append("\\\"");
        } else if c == '\n' {
            r.append("\\n");
        } else if c == '\r' {
            r.append("\\r");
        } else if c == '\t' {
            r.append("\\t");
        } else {
            r.push(c);
        }
    }
    proof {
        assert(s@.take(s@.len() as int) == s@);
    }
    r.append("\"");
    r
}

/// The items of `v` from the last to the first.
pub fn reverse_vec<T>(v: Vec<T>) -> (r: Vec<T>)
    ensures
        r@ == v@.reverse(),
{
    let mut v = v;
    let ghost orig = v@;
    let mut r: Vec<T> = Vec::new();
    while v.len() > 0
        invariant
            r@.len() + v@.len() == orig.len(),
            v@ == orig.take(v@.len() as int),
            forall|j: int| 0 <= j < r@.len() ==> r@[j] == orig[orig.len() - 1 - j],
        decreases v.len(),
    {
        let item = v.pop().unwrap();
        r.push(item);
    }
    assert(r@ =~= orig.reverse());
    r
}

/// What follows the last dot of `s`; all of `s` where it holds no dot.
pub open spec fn last_segment(s: Seq<char>) -> Seq<char>
    decreases s.len(),
{
    if s.len() == 0 {
        Seq::empty()
    } else if s.last() == '.' {
        Seq::empty()
    } else {
        last_segment(s.drop_last()).push(s.last())
    }
}

pub fn str_last_segment(s: &str) -> (r: String)
    ensures
        r@ == last_segment(s@),
{
    let mut r = String::new();
    for c in it: s.chars()
        invariant
            it.seq() == s@,
            r@ == last_segment(s@.take(it.index())),
    {
        proof {
            assert(s@.take(it.index() + 1).drop_last() == s@.take(it.index()));
        }
        if c == '.' {
            r = String::new();
        } else {
            r.push(c);
        }
    }
    proof {
        assert(s@.take(s@.len() as int) == s@);
    }
    r
}

pub open spec fn is_digit(c: char) -> bool {
    '0' <= c && c <= '9'
}

/// The number that the decimal digits `s` stand for.
pub open spec fn digits_value(s: Seq<char>) -> nat
    decreases s.len(),
{
    if s.len() == 0 {
        0
    } else {
        digits_value(s.drop_last()) * 10 + (s.last() as u32 - 48) as nat
    }
}

/// The digits of a number in text, and whether a minus sign stands
/// before them: `s` less one leading sign.
pub open spec fn signed_digits(s: Seq<char>) -> (bool, Seq<char>) {
    if s.len() > 0 && s[0] == '-' {
        (true, s.skip(1))
    } else if s.len() > 0 && s[0] == '+' {
        (false, s.skip(1))
    } else {
        (false, s)
    }
}

/// The 32-bit integer that `s` stands for in base 10: an optional sign
/// and at least one digit, with nothing before, between or after, and a
/// value that fits.
pub open spec fn parsed_i32(s: Seq<char>) -> Option<i32> {
    let (negative, digits) = signed_digits(s);
    let value = if negative {
        -(digits_value(digits) as int)
    } else {
        digits_value(digits) as int
    };
    if digits.len() > 0 && (forall|i: int| 0 <= i < digits.len() ==> is_digit(#[trigger] digits[i]))
        && i32::MIN <= value <= i32::MAX {
        Some(value as i32)
    } else {
        None
    }
}

proof fn lemma_digits_value_grows(s: Seq<char>, k: int)
    requires
        0 <= k <= s.len(),
        forall|i: int| 0 <= i < s.len() ==> is_digit(#[trigger] s[i]),
    ensures
        digits_value(s.take(k)) <= digits_value(s),
    decreases s.len() - k,
{
    if k < s.len() {
        assert(s.take(k + 1).drop_last() == s.take(k));
        assert(is_digit(s[k]));
        lemma_digits_value_grows(s, k + 1);
    } else {
        assert(s.take(k) == s);
    }
}

/// Reads a 32-bit integer in base 10.
pub fn parse_i32(s: &str) -> (r: Option<i32>)
    ensures
        r == parsed_i32(s@),
{
    let mut at_start = true;
    let mut negative = false;
    let mut have_digit = false;
    let mut value: i64 = 0;
    let ghost digits = signed_digits(s@).1;
    let ghost lead: int = s@.len() - digits.len();
    let ghost mut seen: int = 0;
    for c in it: s.chars()
        invariant
            it.seq() == s@,
            digits == signed_digits(s@).1,
            lead == s@.len() - digits.len(),
            0 <= lead <= 1,
            at_start == (it.index() == 0),
            at_start ==> seen == 0 && !negative && value == 0 && !have_digit,
            !at_start ==> negative == signed_digits(s@).0,
            !at_start ==> seen == it.index() - lead,
            have_digit == (seen > 0),
            0 <= seen <= digits.len(),
            forall|i: int| 0 <= i < seen ==> is_digit(#[trigger] digits[i]),
            value == digits_value(digits.take(seen)),
            0 <= value <= 0x8000_0000,
    {
        proof {
            assert(digits.take(0) =~= Seq::<char>::empty());
        }
        if at_start && c == '-' {
            negative = true;
        } else if at_start && c == '+' {
        } else {
            proof {
                assert(digits[seen] == c);
                assert(digits.take(seen + 1).drop_last() == digits.take(seen));
            }
            if !('0' <= c && c <= '9') {
                return None;
            }
            let d: i64 = (c as u32 - 48) as i64;
            value = value * 10 + d;
            if value > 0x8000_0000 {
                proof {
                    if forall|i: int| 0 <= i < digits.len() ==> is_digit(#[trigger] digits[i]) {
                        lemma_digits_value_grows(digits, seen + 1);
                    }
                }
                return None;
            }
            have_digit = true;
            proof {
                seen = seen + 1;
            }
        }
        at_start = false;
    }
    proof {
        assert(digits.take(digits.len() as int) == digits);
    }
    if !have_digit {
        return None;
    }
    let signed: i64 = if negative {
        -value
    } else {
        value
    };
    if signed < -0x8000_0000 || signed > 0x7fff_ffff {
        None
    } else {
        Some(signed as i32)
    }
}

} // verus!
