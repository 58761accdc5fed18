//! Decimal notation of unsigned numbers: reading and writing.

use crate::text;
use vstd::arithmetic::div_mod::lemma_fundamental_div_mod;
use vstd::prelude::*;

verus! {

/// `c` is one of the digits `0` to `9`.
pub open spec fn is_digit(c: char) -> bool {
    '0' <= c <= '9'
}

/// What the digit `c` stands for.
pub open spec fn digit_value(c: char) -> nat {
    (c as u32 - '0' as u32) as nat
}

/// The digit that stands for `d`.
pub open spec fn digit_char(d: nat) -> char {
    ('0' as u32 + d) as char
}

/// Every character is a digit.
pub open spec fn all_digits(s: Seq<char>) -> bool {
    forall|i: int| 0 <= i < s.len() ==> is_digit(#[trigger] s[i])
}

/// The number that a row of digits stands for.
pub open spec fn number(s: Seq<char>) -> nat
    decreases s.len(),
{
    if s.len() == 0 {
        0
    } else {
        number(s.drop_last()) * 10 + digit_value(s.last())
    }
}

/// A text read as an unsigned number: an optional `+`, then digits only, at
/// least one of them.
pub open spec fn unsigned(s: Seq<char>) -> Option<nat> {
    let digits = if s.len() > 0 && s[0] == '+' {
        s.skip(1)
    } else {
        s
    };
    if digits.len() > 0 && all_digits(digits) {
        Some(number(digits))
    } else {
        None
    }
}

/// A text read as an unsigned number of at most `max`.
pub open spec fn unsigned_up_to(s: Seq<char>, max: nat) -> Option<nat> {
    match unsigned(s) {
        Some(n) => if n <= max {
            Some(n)
        } else {
            None
        },
        None => None,
    }
}

/// The digits of `n`, without leading zeros.
pub open spec fn digits_of(n: nat) -> Seq<char>
    decreases n,
{
    if n < 10 {
        seq![digit_char(n)]
    } else {
        digits_of(n / 10).push(digit_char(n % 10))
    }
}

/// A row of digits stands for at least what each of its beginnings stands for.
proof fn lemma_number_prefix(s: Seq<char>, n: int)
    requires
        0 <= n <= s.len(),
    ensures
        number(s.take(n)) <= number(s),
    decreases s.len(),
{
    if n == s.len() {
        assert(s.take(n) =~= s);
    } else {
        lemma_number_prefix(s.drop_last(), n);
        assert(s.drop_last().take(n) =~= s.take(n));
    }
}

/// What `digits_of` writes are digits, at least one, that stand for the number.
pub proof fn lemma_digits_of(n: nat)
    ensures
        digits_of(n).len() > 0,
        all_digits(digits_of(n)),
        number(digits_of(n)) == n,
    decreases n,
{
    reveal_with_fuel(number, 2);
    if n >= 10 {
        lemma_digits_of(n / 10);
        assert(digits_of(n).drop_last() =~= digits_of(n / 10));
        lemma_fundamental_div_mod(n as int, 10);
    }
}

/// Reading the digits of a number gives the number back.
pub proof fn theorem_digits_read_back(n: nat, max: nat)
    requires
        n <= max,
    ensures
        unsigned_up_to(digits_of(n), max) == Some(n),
{
    lemma_digits_of(n);
}

/// Different numbers have different digits.
pub proof fn theorem_digits_differ(m: nat, n: nat)
    requires
        digits_of(m) == digits_of(n),
    ensures
        m == n,
{
    lemma_digits_of(m);
    lemma_digits_of(n);
}

/// The digit that stands for `d`.
fn digit(d: u64) -> (r: char)
    requires
        d < 10,
    ensures
        r == digit_char(d as nat),
{
    match d {
        0 => '0',
        1 => '1',
        2 => '2',
        3 => '3',
        4 => '4',
        5 => '5',
        6 => '6',
        7 => '7',
        8 => '8',
        _ => '9',
    }
}

/// Writes `n` in decimal notation.
pub fn write(n: u64) -> (r: String)
    ensures
        r@ == digits_of(n as nat),
    decreases n,
{
    if n < 10 {
        let mut s = String::new();
        s.push(digit(n));
        assert(s@ =~= digits_of(n as nat));
        s
    } else {
        let mut s = write(n / 10);
        s.push(digit(n % 10));
        s
    }
}

/// Reads `s` as an unsigned number of at most `max`.
pub fn read(s: &str, max: u64) -> (r: Option<u64>)
    ensures
        match r {
            Some(n) => unsigned_up_to(s@, max as nat) == Some(n as nat),
            None => unsigned_up_to(s@, max as nat) is None,
        },
{
    let cs = text::to_chars(s);
    let from: usize = if cs.len() > 0 && cs[0] == '+' {
        1
    } else {
        0
    };
    let ghost digits = cs@.skip(from as int);
    assert(from == 0 ==> digits == cs@);
    if cs.len() == from {
        return None;
    }
    let mut n: u64 = 0;
    let mut i: usize = from;
    while i < cs.len()
        invariant
            from <= i <= cs@.len(),
            digits == cs@.skip(from as int),
            digits.len() > 0,
            unsigned(s@) == if all_digits(digits) {
                Some(number(digits))
            } else {
                None
            },
            forall|j: int| 0 <= j < i - from ==> is_digit(#[trigger] digits[j]),
            n == number(digits.take(i - from)),
            n <= max,
        decreases cs@.len() - i,
    {
        let c = cs[i];
        if !('0' <= c && c <= '9') {
            return None;
        }
        let d: u64 = (c as u32 - '0' as u32) as u64;
        proof {
            assert(digits.take(i + 1 - from).drop_last() =~= digits.take(i - from));
            lemma_number_prefix(digits, i + 1 - from);
        }
        if d > max || n > max / 10 || n * 10 > max - d {
            return None;
        }
        n = n * 10 + d;
        i += 1;
    }
    assert(digits.take(i - from) =~= digits);
    Some(n)
}

} // verus!
