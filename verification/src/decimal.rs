//! Decimal numbers: reading them from text and writing them as text.

use vstd::prelude::*;

use crate::text::lacks;

verus! {

/// Is `c` one of the ASCII digits `0`..`9`?
pub open spec fn is_digit(c: char) -> bool {
    '0' <= c && c <= '9'
}

/// The numeric value of an ASCII digit
pub open spec fn digit_value(c: char) -> nat {
    (c as int - '0' as int) as nat
}

/// Every character of `s` is an ASCII digit
pub open spec fn all_digits(s: Seq<char>) -> bool {
    forall|i: int| 0 <= i < s.len() ==> is_digit(#[trigger] s[i])
}

/// The number written in base 10 by the digits of `s` (most significant first)
pub open spec fn digits_value(s: Seq<char>) -> nat
    decreases s.len(),
{
    if s.len() == 0 {
        0
    } else {
        digits_value(s.drop_last()) * 10 + digit_value(s.last())
    }
}

/// A non-empty run of digits whose value does not exceed `limit`
pub open spec fn spec_magnitude(s: Seq<char>, limit: nat) -> Option<nat> {
    if s.len() > 0 && all_digits(s) && digits_value(s) <= limit {
        Some(digits_value(s))
    } else {
        None
    }
}

/// How an unsigned integer type reads text: an optional `+`, then digits, and the value
/// must not exceed `max`.
pub open spec fn spec_parse_unsigned(s: Seq<char>, max: nat) -> Option<nat> {
    if s.len() > 0 && s[0] == '+' {
        spec_magnitude(s.skip(1), max)
    } else {
        spec_magnitude(s, max)
    }
}

/// How a signed integer type reads text: an optional `+` or `-`, then digits; the value
/// must lie between `-(max + 1)` and `max`.
pub open spec fn spec_parse_signed(s: Seq<char>, max: nat) -> Option<int> {
    if s.len() > 0 && s[0] == '-' {
        match spec_magnitude(s.skip(1), max + 1) {
            Some(m) => Some(-(m as int)),
            None => None,
        }
    } else {
        match spec_parse_unsigned(s, max) {
            Some(m) => Some(m as int),
            None => None,
        }
    }
}

proof fn lemma_digits_value_take_step(s: Seq<char>, i: int)
    requires
        0 <= i < s.len(),
    ensures
        digits_value(s.take(i + 1)) == digits_value(s.take(i)) * 10 + digit_value(s[i]),
{
    assert(s.take(i + 1).drop_last() =~= s.take(i));
}

proof fn lemma_digits_value_monotonic(s: Seq<char>, i: int, j: int)
    requires
        0 <= i <= j <= s.len(),
        all_digits(s),
    ensures
        digits_value(s.take(i)) <= digits_value(s.take(j)),
    decreases j - i,
{
    if i < j {
        lemma_digits_value_monotonic(s, i, j - 1);
        lemma_digits_value_take_step(s, j - 1);
    }
}

/// Reads the characters of `s`
pub fn chars_of(s: &str) -> (v: Vec<char>)
    ensures
        v@ == s@,
{
    let mut v: Vec<char> = Vec::new();
    for c in it: s.chars()
        invariant
            v@ == it.seq().take(it.index() as int),
    {
        v.push(c);
    }
    assert(v@ =~= s@);
    v
}

/// Reads a run of digits from `chars[start..end]`, accepting it only if its value does not
/// exceed `limit`.
fn parse_magnitude(chars: &Vec<char>, start: usize, end: usize, limit: u64) -> (r: Option<u64>)
    requires
        start <= end <= chars.len(),
    ensures
        match r {
            Some(v) => spec_magnitude(chars@.subrange(start as int, end as int), limit as nat)
                == Some(v as nat),
            None => spec_magnitude(chars@.subrange(start as int, end as int), limit as nat) is None,
        },
{
    let ghost s = chars@.subrange(start as int, end as int);
    if start == end {
        return None;
    }
    let mut acc: u64 = 0;
    let mut i: usize = start;
    assert(s.take(0) =~= Seq::<char>::empty());
    while i < end
        invariant
            start <= i <= end <= chars.len(),
            s == chars@.subrange(start as int, end as int),
            all_digits(s.take(i - start)),
            acc as nat == digits_value(s.take(i - start)),
            acc <= limit,
        decreases end - i,
    {
        let c = chars[i];
        assert(s[i - start] == c);
        if !('0' <= c && c <= '9') {
            return None;
        }
        let d: u64 = (c as u32 - '0' as u32) as u64;
        proof {
            lemma_digits_value_take_step(s, i - start);
            assert(all_digits(s.take(i - start + 1))) by {
                assert forall|k: int| 0 <= k < s.take(i - start + 1).len() implies is_digit(
                    #[trigger] s.take(i - start + 1)[k],
                ) by {
                    if k < i - start {
                        assert(s.take(i - start)[k] == s.take(i - start + 1)[k]);
                    }
                }
            }
        }
        if d > limit || acc > (limit - d) / 10 {
            proof {
                assert(acc * 10 + d > limit) by (nonlinear_arith)
                    requires
                        d > limit || acc > (limit - d) / 10,
                        d <= limit ==> limit - d >= 0,
                ;
                if all_digits(s) {
                    lemma_digits_value_monotonic(s, i - start + 1, s.len() as int);
                    assert(s.take(s.len() as int) =~= s);
                }
            }
            return None;
        }
        proof {
            assert(acc * 10 + d <= limit) by (nonlinear_arith)
                requires
                    acc <= (limit - d) / 10,
                    d <= limit,
            ;
        }
        acc = acc * 10 + d;
        i = i + 1;
    }
    assert(s.take(i - start) =~= s);
    Some(acc)
}

/// Reads an unsigned number from `chars[start..end]` as the standard library does for unsigned
/// integer types: an optional `+` sign, then at least one digit, and a value of at most `max`.
pub fn parse_unsigned(chars: &Vec<char>, start: usize, end: usize, max: u64) -> (r: Option<u64>)
    requires
        start <= end <= chars.len(),
    ensures
        match r {
            Some(v) => spec_parse_unsigned(chars@.subrange(start as int, end as int), max as nat)
                == Some(v as nat),
            None => spec_parse_unsigned(chars@.subrange(start as int, end as int), max as nat) is None,
        },
{
    let ghost s = chars@.subrange(start as int, end as int);
    if start < end && chars[start] == '+' {
        assert(s.skip(1) =~= chars@.subrange(start + 1, end as int));
        parse_magnitude(chars, start + 1, end, max)
    } else {
        parse_magnitude(chars, start, end, max)
    }
}

/// Reads a signed number from `chars[start..end]` as the standard library does for signed
/// integer types: an optional `+` or `-` sign, then at least one digit, and a value between
/// `-(max + 1)` and `max`. The result is the sign (`true` when negative) and the magnitude.
pub fn parse_signed(chars: &Vec<char>, start: usize, end: usize, max: u64) -> (r: Option<(bool, u64)>)
    requires
        start <= end <= chars.len(),
        max < u64::MAX,
    ensures
        match r {
            Some((neg, m)) => spec_parse_signed(chars@.subrange(start as int, end as int), max as nat)
                == Some(
                if neg {
                    -(m as int)
                } else {
                    m as int
                },
            ) && (neg ==> m <= max + 1) && (!neg ==> m <= max),
            None => spec_parse_signed(chars@.subrange(start as int, end as int), max as nat) is None,
        },
{
    let ghost s = chars@.subrange(start as int, end as int);
    if start < end && chars[start] == '-' {
        assert(s.skip(1) =~= chars@.subrange(start + 1, end as int));
        match parse_magnitude(chars, start + 1, end, max + 1) {
            Some(m) => Some((true, m)),
            None => None,
        }
    } else {
        match parse_unsigned(chars, start, end, max) {
            Some(m) => Some((false, m)),
            None => None,
        }
    }
}

/// The character of the digit `d`
pub open spec fn digit_char(d: nat) -> char {
    ('0' as int + d) as char
}

/// The base 10 writing of `n`, without leading zeros (`0` is written `"0"`)
pub open spec fn spec_decimal(n: nat) -> Seq<char>
    decreases n,
{
    if n < 10 {
        seq![digit_char(n)]
    } else {
        spec_decimal(n / 10).push(digit_char(n % 10))
    }
}

fn digit_str(d: u64) -> (s: &'static str)
    requires
        d < 10,
    ensures
        s@ == seq![digit_char(d as nat)],
{
    proof {
        reveal_strlit("0");
        reveal_strlit("1");
        reveal_strlit("2");
        reveal_strlit("3");
        reveal_strlit("4");
        reveal_strlit("5");
        reveal_strlit("6");
        reveal_strlit("7");
        reveal_strlit("8");
        reveal_strlit("9");
    }
    match d {
        0 => "0",
        1 => "1",
        2 => "2",
        3 => "3",
        4 => "4",
        5 => "5",
        6 => "6",
        7 => "7",
        8 => "8",
        _ => "9",
    }
}

/// Writes `n` in base 10
pub fn decimal_string(n: u64) -> (s: String)
    ensures
        s@ == spec_decimal(n as nat),
    decreases n,
{
    if n < 10 {
        String::from_str(digit_str(n))
    } else {
        let mut s = decimal_string(n / 10);
        s.append(digit_str(n % 10));
        s
    }
}

/// The writing of `v` in base 10, after a `-` when it is negative
pub open spec fn spec_signed_decimal(v: int) -> Seq<char> {
    if v < 0 {
        seq!['-'] + spec_decimal((-v) as nat)
    } else {
        spec_decimal(v as nat)
    }
}

/// The base 10 writing of `n` is a non-empty run of digits whose value is `n`
pub proof fn lemma_decimal_digits(n: nat)
    ensures
        spec_decimal(n).len() > 0,
        all_digits(spec_decimal(n)),
        digits_value(spec_decimal(n)) == n,
    decreases n,
{
    let s = spec_decimal(n);
    if n < 10 {
        assert(s.drop_last() =~= Seq::<char>::empty());
        assert(is_digit(s[0]));
        assert(digit_value(s.last()) == n);
        assert(digits_value(s.drop_last()) == 0);
        assert(digits_value(s) == digits_value(s.drop_last()) * 10 + digit_value(s.last()));
    } else {
        lemma_decimal_digits(n / 10);
        let front = spec_decimal(n / 10);
        assert(s.drop_last() =~= front);
        assert(digit_value(s.last()) == n % 10);
        assert((n / 10) * 10 + n % 10 == n) by (nonlinear_arith);
        assert(digits_value(s) == digits_value(front) * 10 + digit_value(s.last()));
        assert forall|i: int| 0 <= i < s.len() implies is_digit(#[trigger] s[i]) by {
            if i < front.len() {
                assert(s[i] == front[i]);
            }
        }
    }
}

/// An unsigned integer type reads back the base 10 writing of any value it can hold
pub proof fn lemma_unsigned_reads_back(n: nat, max: nat)
    requires
        n <= max,
    ensures
        spec_parse_unsigned(spec_decimal(n), max) == Some(n),
{
    lemma_decimal_digits(n);
    assert(is_digit(spec_decimal(n)[0]));
}

/// A signed integer type reads back the writing of any value it can hold
pub proof fn lemma_signed_reads_back(v: int, max: nat)
    requires
        -(max + 1) <= v <= max,
    ensures
        spec_parse_signed(spec_signed_decimal(v), max) == Some(v),
{
    if v < 0 {
        let m = (-v) as nat;
        lemma_decimal_digits(m);
        let s = spec_signed_decimal(v);
        assert(s.skip(1) =~= spec_decimal(m));
    } else {
        lemma_decimal_digits(v as nat);
        assert(is_digit(spec_decimal(v as nat)[0]));
        lemma_unsigned_reads_back(v as nat, max);
    }
}

/// The writing of an integer is a single word: not empty, with neither space nor newline
pub proof fn lemma_signed_decimal_is_word(v: int)
    ensures
        spec_signed_decimal(v).len() > 0,
        lacks(spec_signed_decimal(v), ' '),
        lacks(spec_signed_decimal(v), '\n'),
{
    let s = spec_signed_decimal(v);
    let m: nat = if v < 0 { (-v) as nat } else { v as nat };
    lemma_decimal_digits(m);
    let d = spec_decimal(m);
    assert forall|i: int| 0 <= i < s.len() implies #[trigger] s[i] != ' ' && s[i] != '\n' by {
        if v < 0 {
            if i > 0 {
                assert(s[i] == d[i - 1]);
                assert(is_digit(d[i - 1]));
            }
        } else {
            assert(is_digit(d[i]));
        }
    }
}

} // verus!
