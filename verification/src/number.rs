//! Integers as text: the numerals that a numeric column accepts, and the
//! canonical decimal form that is written back.

use vstd::prelude::*;
use vstd::string::StringExecFns;

verus! {

/// The value of `c` as a digit: `0` to `9`, then the letters of either case
/// counted from ten. A character that is no digit in any base gets 36.
pub open spec fn digit_of(c: char) -> int {
    if '0' <= c <= '9' {
        c as int - '0' as int
    } else if 'a' <= c <= 'z' {
        c as int - 'a' as int + 10
    } else if 'A' <= c <= 'Z' {
        c as int - 'A' as int + 10
    } else {
        36
    }
}

/// Every character of `s` is a digit in base `radix`.
pub open spec fn all_digits(s: Seq<char>, radix: int) -> bool {
    forall|i: int| 0 <= i < s.len() ==> digit_of(#[trigger] s[i]) < radix
}

/// The number that the digits `s` write in base `radix`, most significant
/// digit first.
pub open spec fn digits_value(s: Seq<char>, radix: int) -> int
    decreases s.len(),
{
    if s.len() == 0 {
        0
    } else {
        digits_value(s.drop_last(), radix) * radix + digit_of(s.last())
    }
}

/// `s` begins with the two characters `0x`, which announce base sixteen.
pub open spec fn has_hex_prefix(s: Seq<char>) -> bool {
    s.len() >= 2 && s[0] == '0' && s[1] == 'x'
}

/// The base in which `s` is read.
pub open spec fn radix_of(s: Seq<char>) -> int {
    if has_hex_prefix(s) {
        16
    } else {
        10
    }
}

/// `s` without its base prefix.
pub open spec fn after_prefix(s: Seq<char>) -> Seq<char> {
    if has_hex_prefix(s) {
        s.skip(2)
    } else {
        s
    }
}

/// `body` starts with a sign: `+` always counts, `-` only for a signed column.
pub open spec fn has_sign(body: Seq<char>, signed: bool) -> bool {
    body.len() > 0 && (body[0] == '+' || (signed && body[0] == '-'))
}

/// The digits of `s`: what follows the base prefix and the sign.
pub open spec fn digits_of(s: Seq<char>, signed: bool) -> Seq<char> {
    let body = after_prefix(s);
    if has_sign(body, signed) {
        body.skip(1)
    } else {
        body
    }
}

/// `s` is written with a minus sign that a signed column honours.
pub open spec fn is_negative(s: Seq<char>, signed: bool) -> bool {
    let body = after_prefix(s);
    signed && body.len() > 0 && body[0] == '-'
}

/// `s` is a numeral: an optional `0x`, an optional sign, then at least one
/// digit of the base and nothing else.
pub open spec fn is_numeral(s: Seq<char>, signed: bool) -> bool {
    digits_of(s, signed).len() > 0 && all_digits(digits_of(s, signed), radix_of(s))
}

/// The size of the number that the numeral `s` writes, sign apart.
pub open spec fn magnitude_of(s: Seq<char>, signed: bool) -> int {
    digits_value(digits_of(s, signed), radix_of(s))
}

/// The integer that `s` writes, if `s` is a numeral.
pub open spec fn integer_value(s: Seq<char>, signed: bool) -> Option<int> {
    if !is_numeral(s, signed) {
        None
    } else if is_negative(s, signed) {
        Some(-magnitude_of(s, signed))
    } else {
        Some(magnitude_of(s, signed))
    }
}

/// A numeral cut down to sign and size, the size within the limit that its
/// sign allows.
pub open spec fn bounded_numeral(
    s: Seq<char>,
    signed: bool,
    positive_limit: u64,
    negative_limit: u64,
) -> Option<(bool, u64)> {
    let limit = if is_negative(s, signed) {
        negative_limit
    } else {
        positive_limit
    };
    if is_numeral(s, signed) && magnitude_of(s, signed) <= limit {
        Some((is_negative(s, signed), magnitude_of(s, signed) as u64))
    } else {
        None
    }
}

/// A digit is never negative.
pub proof fn lemma_digit_of_bounds(c: char)
    ensures
        0 <= digit_of(c) <= 36,
{
}

/// Digits of a base write a number that is not negative, and dropping
/// trailing digits never makes it larger.
pub proof fn lemma_digits_value_grows(s: Seq<char>, k: int, radix: int)
    requires
        radix >= 1,
        0 <= k <= s.len(),
    ensures
        0 <= digits_value(s.take(k), radix) <= digits_value(s, radix),
    decreases s.len() - k,
{
    if k == s.len() {
        assert(s.take(k) =~= s);
        lemma_digits_value_nonnegative(s, radix);
    } else {
        lemma_digits_value_grows(s, k + 1, radix);
        let longer = s.take(k + 1);
        assert(longer.drop_last() =~= s.take(k));
        lemma_digits_value_nonnegative(s.take(k), radix);
        let v = digits_value(s.take(k), radix);
        lemma_digit_of_bounds(longer.last());
        assert(v * radix >= v) by (nonlinear_arith)
            requires
                v >= 0,
                radix >= 1,
        ;
    }
}

/// Digits write a number that is not negative.
pub proof fn lemma_digits_value_nonnegative(s: Seq<char>, radix: int)
    requires
        radix >= 1,
    ensures
        0 <= digits_value(s, radix),
    decreases s.len(),
{
    if s.len() > 0 {
        lemma_digits_value_nonnegative(s.drop_last(), radix);
        let v = digits_value(s.drop_last(), radix);
        assert(v * radix >= 0) by (nonlinear_arith)
            requires
                v >= 0,
                radix >= 1,
        ;
    }
}

/// The value of the byte `b` as a digit, 36 where it is none.
fn digit_of_byte(b: u8) -> (d: u8)
    ensures
        d as int == digit_of(b as char),
{
    if ('0' as u8) <= b && b <= ('9' as u8) {
        b - ('0' as u8)
    } else if ('a' as u8) <= b && b <= ('z' as u8) {
        b - ('a' as u8) + 10
    } else if ('A' as u8) <= b && b <= ('Z' as u8) {
        b - ('A' as u8) + 10
    } else {
        36
    }
}

/// Reads `text` as a numeral and returns its sign and size, or `None` where
/// it is no numeral or its size is over the limit for its sign.
pub fn parse_numeral(text: &str, signed: bool, positive_limit: u64, negative_limit: u64) -> (r:
    Option<(bool, u64)>)
    ensures
        r == bounded_numeral(text@, signed, positive_limit, negative_limit),
{
    if !text.is_ascii() {
        proof {
            if is_numeral(text@, signed) {
                lemma_numeral_is_ascii(text@, signed);
            }
        }
        return None;
    }
    let bytes = text.as_bytes();
    proof {
        vstd::string::is_ascii_spec_bytes(text);
    }
    let n: usize = bytes.len();
    assert(n == text@.len());
    assert(forall|i: int| 0 <= i < n ==> bytes@[i] == #[trigger] text@[i] as u8);
    let hex: bool = n >= 2 && bytes[0] == ('0' as u8) && bytes[1] == ('x' as u8);
    assert(hex == has_hex_prefix(text@));
    let radix: u8 = if hex { 16 } else { 10 };
    let mut at: usize = if hex { 2 } else { 0 };
    let mut negative: bool = false;
    if at < n {
        let b: u8 = bytes[at];
        if b == ('+' as u8) {
            at = at + 1;
        } else if signed && b == ('-' as u8) {
            negative = true;
            at = at + 1;
        }
    }
    let ghost digits = digits_of(text@, signed);
    let start: usize = at;
    assert(digits =~= text@.skip(start as int));
    assert(negative == is_negative(text@, signed));
    if at == n {
        return None;
    }
    let limit: u64 = if negative { negative_limit } else { positive_limit };
    let mut acc: u64 = 0;
    while at < n
        invariant
            start <= at <= n,
            n == text@.len(),
            n == bytes@.len(),
            forall|i: int| 0 <= i < n ==> bytes@[i] == #[trigger] text@[i] as u8,
            text.is_ascii(),
            digits == text@.skip(start as int),
            digits == digits_of(text@, signed),
            negative == is_negative(text@, signed),
            limit == if negative { negative_limit } else { positive_limit },
            radix == radix_of(text@),
            radix == if hex { 16u8 } else { 10u8 },
            all_digits(digits.take(at - start), radix as int),
            acc == digits_value(digits.take(at - start), radix as int),
            acc <= limit,
        decreases n - at,
    {
        let d: u8 = digit_of_byte(bytes[at]);
        let ghost c = text@[at as int];
        assert(digits[at - start] == c);
        assert(bytes@[at as int] as char == c);
        if d >= radix {
            assert(!all_digits(digits, radix as int));
            return None;
        }
        let scaled: u128 = if hex { acc as u128 * 16 } else { acc as u128 * 10 };
        let next: u128 = scaled + d as u128;
        proof {
            let longer = digits.take(at - start + 1);
            assert(longer.drop_last() =~= digits.take(at - start));
            assert(longer.last() == c);
            assert(next == digits_value(longer, radix as int));
            assert forall|i: int| 0 <= i < longer.len() implies digit_of(#[trigger] longer[i])
                < radix by {
                if i < at - start {
                    assert(digits.take(at - start)[i] == longer[i]);
                }
            }
            if next > limit {
                assert(all_digits(digits, radix as int) ==> magnitude_of(text@, signed) > limit) by {
                    lemma_digits_value_grows(digits, at - start + 1, radix as int);
                }
            }
        }
        if next > limit as u128 {
            return None;
        }
        acc = next as u64;
        at = at + 1;
    }
    assert(digits.take(at - start) =~= digits);
    Some((negative, acc))
}

/// A numeral holds ASCII characters only.
proof fn lemma_numeral_is_ascii(s: Seq<char>, signed: bool)
    requires
        is_numeral(s, signed),
    ensures
        vstd::utf8::is_ascii_chars(s),
{
    let body = after_prefix(s);
    let digits = digits_of(s, signed);
    let lead = s.len() - digits.len();
    assert forall|i: int| 0 <= i < s.len() implies '\0' <= #[trigger] s[i] <= '\u{7f}' by {
        if i >= lead {
            assert(digits[i - lead] == s[i]);
            assert(digit_of(digits[i - lead]) < 16);
        }
    }
}

/// What a signed 32-bit column makes of `s`: its value where `s` is a numeral
/// within range.
pub open spec fn i32_of(s: Seq<char>) -> Option<i32> {
    let v = integer_value(s, true);
    if v is Some && i32::MIN <= v->0 <= i32::MAX {
        Some(v->0 as i32)
    } else {
        None
    }
}

/// What an unsigned 32-bit column makes of `s`.
pub open spec fn u32_of(s: Seq<char>) -> Option<u32> {
    let v = integer_value(s, false);
    if v is Some && v->0 <= u32::MAX {
        Some(v->0 as u32)
    } else {
        None
    }
}

/// What an unsigned 64-bit column makes of `s`.
pub open spec fn u64_of(s: Seq<char>) -> Option<u64> {
    let v = integer_value(s, false);
    if v is Some && v->0 <= u64::MAX {
        Some(v->0 as u64)
    } else {
        None
    }
}

/// Reads `text` as a signed 32-bit integer.
pub fn parse_i32(text: &str) -> (r: Option<i32>)
    ensures
        r == i32_of(text@),
{
    proof {
        lemma_digits_value_nonnegative(digits_of(text@, true), radix_of(text@));
    }
    match parse_numeral(text, true, 2147483647, 2147483648) {
        Some((negative, size)) => {
            if negative {
                Some((0 - size as i64) as i32)
            } else {
                Some(size as i32)
            }
        },
        None => None,
    }
}

/// Reads `text` as an unsigned 32-bit integer.
pub fn parse_u32(text: &str) -> (r: Option<u32>)
    ensures
        r == u32_of(text@),
{
    proof {
        lemma_digits_value_nonnegative(digits_of(text@, false), radix_of(text@));
    }
    match parse_numeral(text, false, 4294967295, 0) {
        Some((_, size)) => Some(size as u32),
        None => None,
    }
}

/// Reads `text` as an unsigned 64-bit integer.
pub fn parse_u64(text: &str) -> (r: Option<u64>)
    ensures
        r == u64_of(text@),
{
    proof {
        lemma_digits_value_nonnegative(digits_of(text@, false), radix_of(text@));
    }
    match parse_numeral(text, false, 18446744073709551615, 0) {
        Some((_, size)) => Some(size),
        None => None,
    }
}

/// The character that writes the decimal digit `d`.
pub open spec fn digit_char(d: int) -> char {
    (d + '0' as int) as u8 as char
}

/// `n` in decimal, without sign or leading zeros.
pub open spec fn decimal_digits(n: nat) -> Seq<char>
    decreases n,
{
    if n < 10 {
        seq![digit_char(n as int)]
    } else {
        decimal_digits(n / 10).push(digit_char((n % 10) as int))
    }
}

/// `v` in decimal: a minus sign where it is negative, then its digits.
pub open spec fn decimal_text(v: int) -> Seq<char> {
    if v < 0 {
        seq!['-'] + decimal_digits((-v) as nat)
    } else {
        decimal_digits(v as nat)
    }
}

/// The one-character text of the decimal digit `d`.
fn digit_text(d: u8) -> (t: &'static str)
    requires
        d < 10,
    ensures
        t@ == seq![digit_char(d as int)],
{
    proof {
        reveal_strlit("0");
        reveal_strlit("1");
        reveal_strlit("2");
        reveal_strlit("3");
        reveal_strlit("4");
        reveal_strlit("5");
        reveal_strlit("6");
        reveal_strlit("7");
        reveal_strlit("8");
        reveal_strlit("9");
    }
    let t = if d == 0 {
        "0"
    } else if d == 1 {
        "1"
    } else if d == 2 {
        "2"
    } else if d == 3 {
        "3"
    } else if d == 4 {
        "4"
    } else if d == 5 {
        "5"
    } else if d == 6 {
        "6"
    } else if d == 7 {
        "7"
    } else if d == 8 {
        "8"
    } else {
        "9"
    };
    assert(t@ =~= seq![digit_char(d as int)]);
    t
}

/// Appends the decimal digits of `v` to `out`.
pub fn push_decimal(out: &mut String, v: u64)
    ensures
        final(out)@ == old(out)@ + decimal_digits(v as nat),
    decreases v,
{
    if v >= 10 {
        push_decimal(out, v / 10);
    }
    out.append(digit_text((v % 10) as u8));
    proof {
        let low = digit_char((v % 10) as int);
        if v >= 10 {
            assert(old(out)@ + decimal_digits((v / 10) as nat) + seq![low] =~= old(out)@
                + decimal_digits((v / 10) as nat).push(low));
        }
    }
}

/// `v` in decimal.
pub fn format_u64(v: u64) -> (text: String)
    ensures
        text@ == decimal_text(v as int),
{
    let mut text = String::new();
    push_decimal(&mut text, v);
    assert(Seq::<char>::empty() + decimal_digits(v as nat) =~= decimal_digits(v as nat));
    text
}

/// `v` in decimal.
pub fn format_u32(v: u32) -> (text: String)
    ensures
        text@ == decimal_text(v as int),
{
    format_u64(v as u64)
}

/// `v` in decimal, with a minus sign where it is negative.
pub fn format_i32(v: i32) -> (text: String)
    ensures
        text@ == decimal_text(v as int),
{
    if v < 0 {
        proof {
            reveal_strlit("-");
        }
        let mut text = String::new();
        text.append("-");
        push_decimal(&mut text, (0 - v as i64) as u64);
        assert(Seq::<char>::empty() + "-"@ =~= seq!['-']);
        text
    } else {
        format_u64(v as u64)
    }
}

/// The decimal digits of a number are digits of base ten, at least one of
/// them, and write that number.
pub proof fn lemma_decimal_digits(n: nat)
    ensures
        decimal_digits(n).len() >= 1,
        all_digits(decimal_digits(n), 10),
        digits_value(decimal_digits(n), 10) == n,
    decreases n,
{
    let s = decimal_digits(n);
    if n < 10 {
        assert(s.drop_last() =~= Seq::<char>::empty());
        assert(digits_value(s.drop_last(), 10) == 0);
        assert(digit_of(s.last()) == n);
    } else {
        lemma_decimal_digits(n / 10);
        let head = decimal_digits(n / 10);
        assert(s.drop_last() =~= head);
        assert(digit_of(s.last()) == n % 10);
        assert(digits_value(s, 10) == digits_value(head, 10) * 10 + n % 10);
        assert forall|i: int| 0 <= i < s.len() implies digit_of(#[trigger] s[i]) < 10 by {
            if i < head.len() {
                assert(s[i] == head[i]);
            }
        }
    }
}

/// Writing an integer in decimal and reading the text back gives the
/// integer: in a signed column for every integer, in an unsigned column for
/// every integer that is not negative.
pub proof fn lemma_decimal_reads_back(v: int, signed: bool)
    requires
        signed || v >= 0,
    ensures
        integer_value(decimal_text(v), signed) == Some(v),
{
    let s = decimal_text(v);
    let size: nat = if v < 0 { (-v) as nat } else { v as nat };
    let digits = decimal_digits(size);
    lemma_decimal_digits(size);
    assert(digit_of(digits[0]) < 10);
    if v < 0 {
        assert(s[0] == '-');
        assert(s.skip(1) =~= digits);
    } else {
        assert(s[0] == digits[0]);
        if s.len() >= 2 {
            assert(digit_of(s[1]) < 10);
        }
    }
    assert(!has_hex_prefix(s));
    assert(digits_of(s, signed) =~= digits);
}

} // verus!
