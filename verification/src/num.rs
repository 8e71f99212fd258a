//! Decimal text of integers, both ways.
use vstd::prelude::*;
use crate::text::push_char;

verus! {

pub open spec fn is_digit(c: char) -> bool {
    '0' <= c && c <= '9'
}

pub open spec fn digit_value(c: char) -> int {
    (c as u32) - ('0' as u32)
}

pub open spec fn digit_char(d: int) -> char
    recommends
        0 <= d < 10,
{
    (d + ('0' as u32)) as char
}

pub open spec fn all_digits(s: Seq<char>) -> bool {
    forall|i: int| 0 <= i < s.len() ==> is_digit(#[trigger] s[i])
}

/// The number that a run of decimal digits spells.
pub open spec fn digits_value(s: Seq<char>) -> int
    decreases s.len(),
{
    if s.len() == 0 {
        0
    } else {
        digits_value(s.drop_last()) * 10 + digit_value(s.last())
    }
}

/// The shortest decimal text of a natural number.
pub open spec fn decimal(n: nat) -> Seq<char>
    decreases n,
{
    if n < 10 {
        seq![digit_char(n as int)]
    } else {
        decimal(n / 10).push(digit_char((n % 10) as int))
    }
}

/// The decimal text of an integer (`ToString` for the integer types).
pub open spec fn int_text(i: int) -> Seq<char> {
    if i < 0 {
        seq!['-'] + decimal((-i) as nat)
    } else {
        decimal(i as nat)
    }
}

/// What `str::parse::<i64>` accepts: an optional `+` or `-`, then one or more ASCII digits,
/// and the value must fit in `i64`.
pub open spec fn parse_i64_spec(s: Seq<char>) -> Option<i64> {
    let neg = s.len() > 0 && s[0] == '-';
    let signed = s.len() > 0 && (s[0] == '-' || s[0] == '+');
    let body = if signed { s.drop_first() } else { s };
    let v = if neg { -digits_value(body) } else { digits_value(body) };
    if body.len() == 0 || !all_digits(body) || v < i64::MIN || v > i64::MAX {
        None
    } else {
        Some(v as i64)
    }
}

/// Why `str::parse::<u16>` refused a text (`IntErrorKind`).
#[derive(Debug, Clone, Copy, PartialEq, Eq, Structural)]
pub enum IntError {
    Empty,
    InvalidDigit,
    PosOverflow,
}

/// The digit loop of `u16::from_str`, left to right from `acc`: a non-digit is reported where it
/// stands, a value above 65535 as soon as it arises.
pub open spec fn u16_scan(d: Seq<char>, acc: int) -> Result<int, IntError>
    decreases d.len(),
{
    if d.len() == 0 {
        Ok(acc)
    } else if !is_digit(d[0]) {
        Err(IntError::InvalidDigit)
    } else if acc * 10 > u16::MAX || acc * 10 + digit_value(d[0]) > u16::MAX {
        Err(IntError::PosOverflow)
    } else {
        u16_scan(d.drop_first(), acc * 10 + digit_value(d[0]))
    }
}

/// What `str::parse::<u16>` gives back: empty is its own error, a lone sign is an invalid digit,
/// one leading `+` is skipped, then the digits are scanned.
pub open spec fn parse_u16_spec(s: Seq<char>) -> Result<u16, IntError> {
    if s.len() == 0 {
        Err(IntError::Empty)
    } else if s.len() == 1 && (s[0] == '+' || s[0] == '-') {
        Err(IntError::InvalidDigit)
    } else {
        match u16_scan(if s[0] == '+' { s.drop_first() } else { s }, 0) {
            Ok(v) => Ok(v as u16),
            Err(e) => Err(e),
        }
    }
}

/// The text `ParseIntError` displays for each kind.
pub open spec fn int_error_text(e: IntError) -> Seq<char> {
    match e {
        IntError::Empty => "cannot parse integer from empty string"@,
        IntError::InvalidDigit => "invalid digit found in string"@,
        IntError::PosOverflow => "number too large to fit in target type"@,
    }
}

pub fn int_error_message(e: IntError) -> (s: &'static str)
    ensures
        s@ == int_error_text(e),
{
    match e {
        IntError::Empty => "cannot parse integer from empty string",
        IntError::InvalidDigit => "invalid digit found in string",
        IntError::PosOverflow => "number too large to fit in target type",
    }
}

proof fn lemma_u16_scan_bound(d: Seq<char>, acc: int)
    requires
        0 <= acc <= u16::MAX,
    ensures
        u16_scan(d, acc) matches Ok(v) ==> 0 <= v <= u16::MAX,
    decreases d.len(),
{
    if d.len() > 0 && is_digit(d[0]) && !(acc * 10 > u16::MAX || acc * 10 + digit_value(d[0]) > u16::MAX) {
        lemma_u16_scan_bound(d.drop_first(), acc * 10 + digit_value(d[0]));
    }
}

/// `str::parse::<u16>`.
pub fn parse_u16(s: &Vec<char>) -> (r: Result<u16, IntError>)
    ensures
        r == parse_u16_spec(s@),
{
    let n = s.len();
    if n == 0 {
        return Err(IntError::Empty);
    }
    if n == 1 && (s[0] == '+' || s[0] == '-') {
        return Err(IntError::InvalidDigit);
    }
    let start: usize = if s[0] == '+' { 1 } else { 0 };
    let ghost d = if s@[0] == '+' { s@.drop_first() } else { s@ };
    assert(d =~= s@.skip(start as int));
    let mut acc: u32 = 0;
    let mut i = start;
    while i < n
        invariant
            start <= i <= n == s@.len(),
            n > 0,
            !(n == 1 && (s@[0] == '+' || s@[0] == '-')),
            d == (if s@[0] == '+' { s@.drop_first() } else { s@ }),
            d == s@.skip(start as int),
            acc <= u16::MAX,
            u16_scan(d, 0) == u16_scan(s@.skip(i as int), acc as int),
        decreases n - i,
    {
        let c = s[i];
        proof {
            assert(s@.skip(i as int)[0] == c);
            assert(s@.skip(i as int).drop_first() == s@.skip(i + 1));
        }
        if !('0' <= c && c <= '9') {
            return Err(IntError::InvalidDigit);
        }
        let dv = (c as u32) - 48;
        if acc * 10 > 65535 || acc * 10 + dv > 65535 {
            return Err(IntError::PosOverflow);
        }
        acc = acc * 10 + dv;
        i += 1;
    }
    assert(s@.skip(n as int).len() == 0);
    Ok(acc as u16)
}

pub proof fn lemma_digits_value_nonneg(s: Seq<char>)
    requires
        all_digits(s),
    ensures
        digits_value(s) >= 0,
    decreases s.len(),
{
    if s.len() > 0 {
        lemma_digits_value_nonneg(s.drop_last());
        assert(is_digit(s[s.len() - 1]));
    }
}

/// A longer run of digits never spells a smaller number.
pub proof fn lemma_digits_value_prefix(s: Seq<char>, k: int)
    requires
        all_digits(s),
        0 <= k <= s.len(),
    ensures
        digits_value(s.take(k)) <= digits_value(s),
    decreases s.len() - k,
{
    if k < s.len() {
        let t = s.drop_last();
        assert(all_digits(t)) by {
            assert forall|i: int| 0 <= i < t.len() implies is_digit(#[trigger] t[i]) by {
                assert(t[i] == s[i]);
            }
        }
        lemma_digits_value_prefix(t, k);
        assert(t.take(k) == s.take(k));
        lemma_digits_value_nonneg(t);
        assert(is_digit(s[s.len() - 1]));
    } else {
        assert(s.take(k) == s);
    }
}

proof fn lemma_take_step(s: Seq<char>, i: int)
    requires
        0 <= i < s.len(),
    ensures
        digits_value(s.take(i + 1)) == digits_value(s.take(i)) * 10 + digit_value(s[i]),
{
    assert(s.take(i + 1).drop_last() == s.take(i));
}

pub fn digit(d: u64) -> (c: char)
    requires
        d < 10,
    ensures
        c == digit_char(d as int),
{
    match d {
        0 => '0',
        1 => '1',
        2 => '2',
        3 => '3',
        4 => '4',
        5 => '5',
        6 => '6',
        7 => '7',
        8 => '8',
        _ => '9',
    }
}

fn append_decimal(n: u64, out: &mut String)
    ensures
        final(out)@ == old(out)@ + decimal(n as nat),
    decreases n,
{
    if n >= 10 {
        append_decimal(n / 10, out);
    }
    let c = digit(n % 10);
    push_char(out, c);
    proof {
        assert(c == digit_char((n % 10) as int));
    }
}

/// Decimal text of a `u64`.
pub fn u64_text(n: u64) -> (s: String)
    ensures
        s@ == decimal(n as nat),
{
    let mut s = String::new();
    append_decimal(n, &mut s);
    assert(s@ =~= decimal(n as nat));
    s
}

/// Decimal text of an `i64` (what `i64::to_string` gives).
pub fn i64_text(i: i64) -> (s: String)
    ensures
        s@ == int_text(i as int),
{
    let mut s = String::new();
    if i < 0 {
        push_char(&mut s, '-');
        let m: u64 = if i == i64::MIN { 9223372036854775808u64 } else { (-i) as u64 };
        append_decimal(m, &mut s);
        assert(s@ =~= int_text(i as int));
    } else {
        append_decimal(i as u64, &mut s);
        assert(s@ =~= int_text(i as int));
    }
    s
}

/// `str::parse::<i64>`.
pub fn parse_i64(s: &Vec<char>) -> (r: Option<i64>)
    ensures
        r == parse_i64_spec(s@),
{
    let n = s.len();
    let neg = n > 0 && s[0] == '-';
    let signed = n > 0 && (s[0] == '-' || s[0] == '+');
    let start: usize = if signed { 1 } else { 0 };
    let ghost body = if signed { s@.drop_first() } else { s@ };
    if start == n {
        return None;
    }
    assert(body =~= s@.subrange(start as int, n as int));
    let mut acc: i64 = 0;
    let mut i = start;
    while i < n
        invariant
            start <= i <= n == s@.len(),
            start < n,
            neg == (s@.len() > 0 && s@[0] == '-'),
            signed == (s@.len() > 0 && (s@[0] == '-' || s@[0] == '+')),
            start == (if signed { 1usize } else { 0usize }),
            body == (if signed { s@.drop_first() } else { s@ }),
            body == s@.subrange(start as int, n as int),
            all_digits(body.take(i - start)),
            acc == (if neg { -digits_value(body.take(i - start)) } else { digits_value(body.take(i - start)) }),
        decreases n - i,
    {
        let c = s[i];
        assert(body[i - start] == c);
        if !('0' <= c && c <= '9') {
            assert(!all_digits(body));
            return None;
        }
        let d = ((c as u32) - 48) as i64;
        proof {
            lemma_take_step(body, i - start);
            assert(all_digits(body.take(i - start + 1))) by {
                assert forall|j: int| 0 <= j < i - start + 1 implies is_digit(
                    #[trigger] body.take(i - start + 1)[j],
                ) by {
                    if j < i - start {
                        assert(body.take(i - start + 1)[j] == body.take(i - start)[j]);
                    }
                }
            }
        }
        let next = if neg {
            match acc.checked_mul(10) {
                Some(m) => m.checked_sub(d),
                None => None,
            }
        } else {
            match acc.checked_mul(10) {
                Some(m) => m.checked_add(d),
                None => None,
            }
        };
        match next {
            Some(v) => {
                acc = v;
            },
            None => {
                proof {
                    let k = i - start + 1;
                    lemma_digits_value_nonneg(body.take(i - start));
                    let p = digits_value(body.take(k));
                    assert(p == digits_value(body.take(i - start)) * 10 + (d as int));
                    if neg {
                        assert(-p < i64::MIN);
                    } else {
                        assert(p > i64::MAX);
                    }
                    if all_digits(body) {
                        lemma_digits_value_prefix(body, k);
                    }
                }
                return None;
            },
        }
        i += 1;
    }
    assert(body.take(n - start) == body);
    Some(acc)
}

} // verus!
