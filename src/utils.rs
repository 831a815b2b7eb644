use vstd::prelude::*;
use vstd::string::*;

verus! {

/// The digits of the bases up to 36, lowest first.
pub const BASE36_DIGITS: &'static str = "0123456789abcdefghijklmnopqrstuvwxyz";

/// The numeral of `v` in `base` (2 to 36), most significant digit first, without
/// leading zeros.
pub open spec fn numeral_of(v: nat, base: nat) -> Seq<char>
    decreases v
    via numeral_of_decreases
{
    if v < base || base < 2 {
        seq![BASE36_DIGITS@[v as int]]
    } else {
        numeral_of(v / base, base).push(BASE36_DIGITS@[(v % base) as int])
    }
}

#[via_fn]
proof fn numeral_of_decreases(v: nat, base: nat) {
    if !(v < base || base < 2) {
        assert(v / base < v) by (nonlinear_arith)
            requires
                base >= 2,
                v >= base,
        ;
    }
}

/// The base-36 numeral of `v`, with lower-case digits.
pub open spec fn base36_of(v: nat) -> Seq<char> {
    numeral_of(v, 36)
}

/// The decimal numeral of the integer `v`, with a leading `-` when it is negative.
pub open spec fn decimal_of(v: int) -> Seq<char> {
    if v < 0 {
        seq!['-'] + numeral_of((-v) as nat, 10)
    } else {
        numeral_of(v as nat, 10)
    }
}

/// The one-character string holding digit `d`.
fn digit_text(d: u64) -> (r: &'static str)
    requires
        d < 36,
    ensures
        r@ == seq![BASE36_DIGITS@[d as int]],
{
    proof {
        reveal_strlit("0123456789abcdefghijklmnopqrstuvwxyz");
    }
    let r = BASE36_DIGITS.substring_char(d as usize, d as usize + 1);
    assert(r@ =~= seq![BASE36_DIGITS@[d as int]]);
    r
}

/// Writes `value` in `base` with the digits of `BASE36_DIGITS`.
fn numeral(value: u64, base: u64) -> (r: String)
    requires
        2 <= base <= 36,
    ensures
        r@ == numeral_of(value as nat, base as nat),
{
    let mut v: u64 = value;
    let mut acc = String::new();
    while v >= base
        invariant
            2 <= base <= 36,
            numeral_of(value as nat, base as nat) == numeral_of(v as nat, base as nat) + acc@,
        decreases v,
    {
        let d = digit_text(v % base);
        let next = String::from_str(d).concat(acc.as_str());
        proof {
            assert(numeral_of(v as nat, base as nat) == numeral_of((v / base) as nat, base as nat).push(
                BASE36_DIGITS@[(v % base) as int],
            ));
            assert(numeral_of((v / base) as nat, base as nat) + next@ =~= numeral_of(v as nat, base as nat) + acc@);
        }
        acc = next;
        v = v / base;
    }
    let d = digit_text(v);
    let r = String::from_str(d).concat(acc.as_str());
    assert(r@ =~= numeral_of(value as nat, base as nat));
    r
}

/// Encodes `value` in base 36 with lower-case digits, as used in post permalinks.
pub fn base36_encode(value: u64) -> (r: String)
    ensures
        r@ == base36_of(value as nat),
{
    numeral(value, 36)
}

/// The decimal text of an unsigned integer.
pub fn u64_text(value: u64) -> (r: String)
    ensures
        r@ == decimal_of(value as int),
{
    numeral(value, 10)
}

/// The decimal text of a signed integer.
pub fn i64_text(value: i64) -> (r: String)
    ensures
        r@ == decimal_of(value as int),
{
    if value < 0 {
        let magnitude: u64 = (-(value as i128)) as u64;
        let r = String::from_str("-").concat(numeral(magnitude, 10).as_str());
        proof {
            reveal_strlit("-");
        }
        assert(r@ =~= decimal_of(value as int));
        r
    } else {
        numeral(value as u64, 10)
    }
}

pub open spec fn is_decimal_digit(c: char) -> bool {
    '0' <= c && c <= '9'
}

pub open spec fn all_decimal_digits(s: Seq<char>) -> bool {
    forall|i: int| 0 <= i < s.len() ==> is_decimal_digit(#[trigger] s[i])
}

/// The value of a string of decimal digits, most significant first.
pub open spec fn digits_value(s: Seq<char>) -> int
    decreases s.len(),
{
    if s.len() == 0 {
        0
    } else {
        digits_value(s.drop_last()) * 10 + (s.last() as int - '0' as int)
    }
}

/// The integer that a decimal numeral denotes: an optional `-` or `+`, then one
/// or more digits.
pub open spec fn int_of_decimal(s: Seq<char>) -> Option<int> {
    let signed = s.len() > 0 && (s[0] == '-' || s[0] == '+');
    let digits = if signed {
        s.drop_first()
    } else {
        s
    };
    if digits.len() > 0 && all_decimal_digits(digits) {
        Some(
            if s[0] == '-' {
                -digits_value(digits)
            } else {
                digits_value(digits)
            },
        )
    } else {
        None
    }
}

/// The integer that `s` denotes, where it is a decimal numeral whose value lies
/// in `lo..=hi`.
pub open spec fn decimal_in(s: Seq<char>, lo: int, hi: int) -> Option<int> {
    match int_of_decimal(s) {
        Some(v) => if lo <= v <= hi {
            Some(v)
        } else {
            None
        },
        None => None,
    }
}

proof fn lemma_digits_value_nonneg(s: Seq<char>)
    requires
        all_decimal_digits(s),
    ensures
        digits_value(s) >= 0,
    decreases s.len(),
{
    if s.len() > 0 {
        lemma_digits_value_nonneg(s.drop_last());
    }
}

/// A string of digits is worth at least any of its prefixes.
proof fn lemma_digits_value_prefix(s: Seq<char>, k: int)
    requires
        all_decimal_digits(s),
        0 <= k <= s.len(),
    ensures
        digits_value(s.subrange(0, k)) <= digits_value(s),
    decreases s.len(),
{
    if k < s.len() {
        let t = s.drop_last();
        assert(t.subrange(0, k) =~= s.subrange(0, k));
        lemma_digits_value_prefix(t, k);
        lemma_digits_value_nonneg(t);
    } else {
        assert(s.subrange(0, k) =~= s);
    }
}

const DECIMAL_MAGNITUDE_LIMIT: i128 = 0x1_0000_0000_0000_0000;

/// Reads a decimal numeral whose value lies in `lo..=hi`.
fn parse_decimal(s: &str, lo: i128, hi: i128) -> (r: Option<i128>)
    requires
        -DECIMAL_MAGNITUDE_LIMIT <= lo,
        hi <= DECIMAL_MAGNITUDE_LIMIT,
    ensures
        r is Some <==> decimal_in(s@, lo as int, hi as int) is Some,
        r is Some ==> r->0 as int == decimal_in(s@, lo as int, hi as int)->0,
{
    let n = s.unicode_len();
    if n == 0 {
        return None;
    }
    let first = s.get_char(0);
    let negative = first == '-';
    let start: usize = if first == '-' || first == '+' {
        1
    } else {
        0
    };
    let ghost digits = s@.subrange(start as int, n as int);
    assert(digits =~= if start == 1 { s@.drop_first() } else { s@ });
    if start >= n {
        return None;
    }
    assert(int_of_decimal(s@) == if all_decimal_digits(digits) {
        Some(
            if negative {
                -digits_value(digits)
            } else {
                digits_value(digits)
            },
        )
    } else {
        None::<int>
    });
    let mut m: i128 = 0;
    let mut i: usize = start;
    while i < n
        invariant
            start <= i <= n,
            n == s@.len(),
            -DECIMAL_MAGNITUDE_LIMIT <= lo,
            hi <= DECIMAL_MAGNITUDE_LIMIT,
            digits == s@.subrange(start as int, n as int),
            int_of_decimal(s@) == if all_decimal_digits(digits) {
                Some(
                    if negative {
                        -digits_value(digits)
                    } else {
                        digits_value(digits)
                    },
                )
            } else {
                None::<int>
            },
            0 <= m <= DECIMAL_MAGNITUDE_LIMIT,
            m == digits_value(s@.subrange(start as int, i as int)),
            all_decimal_digits(s@.subrange(start as int, i as int)),
        decreases n - i,
    {
        let c = s.get_char(i);
        if !(c >= '0' && c <= '9') {
            assert(digits[i - start] == s@[i as int]);
            assert(!is_decimal_digit(digits[i - start]));
            return None;
        }
        let ghost before = s@.subrange(start as int, i as int);
        m = m * 10 + (c as u32 - '0' as u32) as i128;
        i = i + 1;
        proof {
            let now = s@.subrange(start as int, i as int);
            assert(now.drop_last() =~= before);
            assert(now.last() == c);
            assert(m == digits_value(now));
            assert(all_decimal_digits(now));
        }
        if m > DECIMAL_MAGNITUDE_LIMIT {
            proof {
                if all_decimal_digits(digits) {
                    assert(digits.subrange(0, i - start) =~= s@.subrange(start as int, i as int));
                    lemma_digits_value_prefix(digits, i - start);
                }
            }
            return None;
        }
    }
    assert(s@.subrange(start as int, i as int) =~= digits);
    let v: i128 = if negative {
        -m
    } else {
        m
    };
    if lo <= v && v <= hi {
        Some(v)
    } else {
        None
    }
}

/// Reads an unsigned 64-bit integer written in decimal.
pub fn parse_u64(s: &str) -> (r: Option<u64>)
    ensures
        match decimal_in(s@, 0, u64::MAX as int) {
            Some(v) => r == Some(v as u64),
            None => r is None,
        },
{
    match parse_decimal(s, 0, u64::MAX as i128) {
        Some(v) => Some(v as u64),
        None => None,
    }
}

/// Reads an unsigned 32-bit integer written in decimal.
pub fn parse_u32(s: &str) -> (r: Option<u32>)
    ensures
        match decimal_in(s@, 0, u32::MAX as int) {
            Some(v) => r == Some(v as u32),
            None => r is None,
        },
{
    match parse_decimal(s, 0, u32::MAX as i128) {
        Some(v) => Some(v as u32),
        None => None,
    }
}

/// Reads a signed 64-bit integer written in decimal.
pub fn parse_i64(s: &str) -> (r: Option<i64>)
    ensures
        match decimal_in(s@, i64::MIN as int, i64::MAX as int) {
            Some(v) => r == Some(v as i64),
            None => r is None,
        },
{
    match parse_decimal(s, i64::MIN as i128, i64::MAX as i128) {
        Some(v) => Some(v as i64),
        None => None,
    }
}

/// The number of characters before the first line break of `s` (all of `s`
/// where it has none).
pub open spec fn line_len(s: Seq<char>) -> nat
    decreases s.len(),
{
    if s.len() == 0 || s[0] == '\n' {
        0
    } else {
        1 + line_len(s.drop_first())
    }
}

/// The marker appended to a shortened text.
pub const READ_MORE: &'static str = " ...<read more> ";

/// At most `limit` characters of the first line of `s`, followed by
/// `READ_MORE` where anything of `s` was left out.
pub open spec fn limited_text(s: Seq<char>, limit: nat) -> Seq<char> {
    let line = line_len(s);
    let kept = s.subrange(0, if limit < line { limit as int } else { line as int });
    if kept.len() < s.len() {
        kept + READ_MORE@
    } else {
        kept
    }
}

/// Shortens `text` for a one-line listing: keeps at most `limit` characters of
/// its first line, and marks the cut with `READ_MORE`.
pub fn limit_str(text: &str, limit: usize) -> (r: String)
    ensures
        r@ == limited_text(text@, limit as nat),
{
    let n = text.unicode_len();
    let mut k: usize = 0;
    assert(text@.subrange(0, n as int) =~= text@);
    while k < n && text.get_char(k) != '\n'
        invariant
            k <= n,
            n == text@.len(),
            line_len(text@) == k + line_len(text@.subrange(k as int, n as int)),
        decreases n - k,
    {
        let ghost rest = text@.subrange(k as int, n as int);
        assert(rest.drop_first() =~= text@.subrange(k + 1, n as int));
        k = k + 1;
    }
    assert(line_len(text@.subrange(k as int, n as int)) == 0);
    let keep: usize = if limit < k {
        limit
    } else {
        k
    };
    let kept = String::from_str(text.substring_char(0, keep));
    if keep < n {
        kept.concat(READ_MORE)
    } else {
        kept
    }
}

} // verus!
