//! Decimal notation of unsigned integers: the digits behind every numbered
//! key and every length of a playlist.

use vstd::prelude::*;
use vstd::std_specs::iter::IteratorSpec;
use vstd::string::StringExecFns;

verus! {

/// The character that writes the digit `d`.
pub open spec fn digit_char(d: int) -> char {
    ('0' as u8 + d) as char
}

/// Whether `c` is one of the ten decimal digits.
pub open spec fn is_digit(c: char) -> bool {
    '0' <= c <= '9'
}

/// The number that the digit `c` stands for.
pub open spec fn digit_value(c: char) -> int {
    c as int - '0' as int
}

/// The decimal notation of `n`: no sign, no leading zero but for zero itself.
pub open spec fn decimal(n: nat) -> Seq<char>
    decreases n,
{
    if n < 10 {
        seq![digit_char(n as int)]
    } else {
        decimal(n / 10).push(digit_char((n % 10) as int))
    }
}

/// The one-character text of the digit `d`.
fn digit_str(d: u64) -> (r: &'static str)
    requires
        d < 10,
    ensures
        r@ == seq![digit_char(d as int)],
{
    proof {
        reveal_strlit("0");
        reveal_strlit("1");
        reveal_strlit("2");
        reveal_strlit("3");
        reveal_strlit("4");
        reveal_strlit("5");
        reveal_strlit("6");
        reveal_strlit("7");
        reveal_strlit("8");
        reveal_strlit("9");
    }
    let r = match d {
        0 => "0",
        1 => "1",
        2 => "2",
        3 => "3",
        4 => "4",
        5 => "5",
        6 => "6",
        7 => "7",
        8 => "8",
        _ => "9",
    };
    assert(r@ =~= seq![digit_char(d as int)]);
    r
}

/// Writes `n` in decimal notation.
pub fn u64_to_decimal(n: u64) -> (r: String)
    ensures
        r@ == decimal(n as nat),
    decreases n,
{
    if n < 10 {
        String::from_str(digit_str(n))
    } else {
        let mut r = u64_to_decimal(n / 10);
        r.append(digit_str(n % 10));
        assert(r@ =~= decimal(n as nat));
        r
    }
}

/// Why a text is not the decimal notation of a `u64`.
#[derive(Debug, Clone, Copy, PartialEq, Eq, Hash, Structural)]
pub enum IntegerError {
    /// The text is empty.
    Empty,
    /// The text holds a character that is no digit where a digit must stand.
    InvalidDigit,
    /// The digits read so far already exceed `u64::MAX`.
    PosOverflow,
}

/// Whether `s` holds decimal digits only.
pub open spec fn all_digits(s: Seq<char>) -> bool {
    forall|i: int| 0 <= i < s.len() ==> is_digit(#[trigger] s[i])
}

/// The number that the digit string `s` writes, most significant digit first.
pub open spec fn digits_value(s: Seq<char>) -> nat
    decreases s.len(),
{
    if s.len() == 0 {
        0
    } else {
        (digits_value(s.drop_last()) * 10 + digit_value(s.last())) as nat
    }
}

/// `s` without the one `+` that may lead a number.
pub open spec fn unsigned_part(s: Seq<char>) -> Seq<char> {
    if s.len() > 0 && s[0] == '+' {
        s.drop_first()
    } else {
        s
    }
}

/// Whether some run of leading digits of `digits` already exceeds `u64::MAX`.
pub open spec fn overflows(digits: Seq<char>) -> bool {
    exists|k: int|
        0 <= k <= digits.len() && all_digits(#[trigger] digits.take(k)) && digits_value(
            digits.take(k),
        ) > u64::MAX
}

/// The `u64` that `s` writes in decimal notation, or why it writes none.
///
/// A number is one optional `+` followed by one or more digits. Reading from
/// the left, the first obstacle decides the error: a character that is no
/// digit, or a digit with which the number leaves the range of `u64`.
pub open spec fn parse_decimal(s: Seq<char>) -> Result<u64, IntegerError> {
    let digits = unsigned_part(s);
    if s.len() == 0 {
        Err(IntegerError::Empty)
    } else if digits.len() > 0 && all_digits(digits) && digits_value(digits) <= u64::MAX {
        Ok(digits_value(digits) as u64)
    } else if overflows(digits) {
        Err(IntegerError::PosOverflow)
    } else {
        Err(IntegerError::InvalidDigit)
    }
}

/// A run of digits is worth at least as much as each of its leading runs.
pub proof fn lemma_digits_value_monotonic(s: Seq<char>, k: int)
    requires
        all_digits(s),
        0 <= k <= s.len(),
    ensures
        digits_value(s.take(k)) <= digits_value(s),
    decreases s.len(),
{
    if k == s.len() {
        assert(s.take(k) =~= s);
    } else {
        assert(s.drop_last().take(k) =~= s.take(k));
        lemma_digits_value_monotonic(s.drop_last(), k);
    }
}

/// Reads a `u64` in decimal notation.
pub fn parse_u64(s: &str) -> (r: Result<u64, IntegerError>)
    ensures
        r == parse_decimal(s@),
{
    let mut it = s.chars();
    let mut pending = it.next();
    if pending.is_none() {
        return Err(IntegerError::Empty);
    }
    if let Some('+') = pending {
        pending = it.next();
    }
    let ghost digits = unsigned_part(s@);
    let ghost mut k: int = 0;
    let mut acc: u64 = 0;
    proof {
        assert(digits.take(0) =~= Seq::<char>::empty());
        if pending is None {
            assert forall|j: int| 0 <= j <= digits.len() implies digits_value(
                #[trigger] digits.take(j),
            ) <= u64::MAX by {
                assert(digits.take(j) =~= Seq::<char>::empty());
            }
        }
    }
    if pending.is_none() {
        return Err(IntegerError::InvalidDigit);
    }
    while pending.is_some()
        invariant
            it.obeys_prophetic_iter_laws(),
            digits == unsigned_part(s@),
            s@.len() > 0,
            digits.len() > 0,
            0 <= k <= digits.len(),
            all_digits(digits.take(k)),
            acc == digits_value(digits.take(k)),
            pending is None ==> k == digits.len(),
            pending matches Some(c) ==> k < digits.len() && c == digits[k] && it.remaining()
                == digits.skip(k + 1),
        decreases digits.len() - k,
    {
        let c = pending.unwrap();
        if !(c >= '0' && c <= '9') {
            proof {
                lemma_no_overflow_before(digits, k);
            }
            return Err(IntegerError::InvalidDigit);
        }
        let d: u64 = (c as u32 - '0' as u32) as u64;
        proof {
            assert(digits.take(k + 1).drop_last() =~= digits.take(k));
            if acc * 10 + d > u64::MAX {
                if all_digits(digits) {
                    lemma_digits_value_monotonic(digits, k + 1);
                }
            }
        }
        match acc.checked_mul(10) {
            None => {
                return Err(IntegerError::PosOverflow);
            },
            Some(tens) => match tens.checked_add(d) {
                None => {
                    return Err(IntegerError::PosOverflow);
                },
                Some(sum) => {
                    acc = sum;
                },
            },
        }
        pending = it.next();
        proof {
            k = k + 1;
            if k < digits.len() {
                assert(digits.skip(k).drop_first() =~= digits.skip(k + 1));
            }
        }
    }
    proof {
        assert(digits.take(k) =~= digits);
    }
    Ok(acc)
}

/// Where the digits before place `k` stay in range and no digit stands at
/// place `k`, no run of leading digits leaves the range.
proof fn lemma_no_overflow_before(digits: Seq<char>, k: int)
    requires
        0 <= k < digits.len(),
        all_digits(digits.take(k)),
        digits_value(digits.take(k)) <= u64::MAX,
        !is_digit(digits[k]),
    ensures
        !overflows(digits),
        !all_digits(digits),
{
    assert forall|j: int| 0 <= j <= digits.len() && all_digits(
        #[trigger] digits.take(j),
    ) implies digits_value(digits.take(j)) <= u64::MAX by {
        if j > k {
            assert(digits.take(j)[k] == digits[k]);
        } else {
            assert(digits.take(k).take(j) =~= digits.take(j));
            lemma_digits_value_monotonic(digits.take(k), j);
        }
    }
}

/// The decimal notation of a number is a run of digits, one at least.
pub proof fn lemma_decimal_is_digits(n: nat)
    ensures
        decimal(n).len() > 0,
        all_digits(decimal(n)),
    decreases n,
{
    if n >= 10 {
        lemma_decimal_is_digits(n / 10);
    }
}

/// The decimal notation of a number writes that number.
pub proof fn lemma_decimal_value(n: nat)
    ensures
        digits_value(decimal(n)) == n,
    decreases n,
{
    let last = digit_char((n % 10) as int);
    assert(digit_value(last) == n % 10);
    assert(decimal(n).last() == last);
    if n < 10 {
        assert(decimal(n).drop_last() =~= Seq::<char>::empty());
        assert(digits_value(decimal(n).drop_last()) == 0);
    } else {
        lemma_decimal_value(n / 10);
        assert(decimal(n).drop_last() =~= decimal(n / 10));
    }
}

/// Reading what was written gives the number back: the decimal notation of a
/// `u64` is read as that `u64`.
pub proof fn lemma_decimal_round_trip(n: u64)
    ensures
        parse_decimal(decimal(n as nat)) == Ok::<u64, IntegerError>(n),
{
    lemma_decimal_is_digits(n as nat);
    lemma_decimal_value(n as nat);
    assert(is_digit(decimal(n as nat)[0]));
}

/// Two numbers with one decimal notation are one number.
pub proof fn lemma_decimal_injective(a: nat, b: nat)
    requires
        decimal(a) == decimal(b),
    ensures
        a == b,
{
    lemma_decimal_value(a);
    lemma_decimal_value(b);
}

} // verus!
