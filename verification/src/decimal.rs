//! Decimal numerals: printing integers and reading them back.
use vstd::prelude::*;

use crate::text::chars_of;

verus! {

/// The digit for a value below ten.
pub open spec fn digit(value: int) -> char {
    ('0' as int + value) as char
}

/// The value of a digit.
pub open spec fn digit_value(c: char) -> Option<int> {
    if '0' <= c && c <= '9' {
        Some(c as int - '0' as int)
    } else {
        None
    }
}

/// The numeral of a natural number, without leading zeros.
pub open spec fn numeral(n: nat) -> Seq<char>
    decreases n,
{
    if n < 10 {
        seq![digit(n as int)]
    } else {
        numeral(n / 10).push(digit((n % 10) as int))
    }
}

/// The numeral of an integer.
pub open spec fn signed_numeral(i: int) -> Seq<char> {
    if i < 0 {
        seq!['-'] + numeral((-i) as nat)
    } else {
        numeral(i as nat)
    }
}

/// Whether every character is a digit.
pub open spec fn all_digits(s: Seq<char>) -> bool {
    forall|i: int| 0 <= i < s.len() ==> digit_value(#[trigger] s[i]) is Some
}

/// The number that a row of digits stands for.
pub open spec fn digits_number(s: Seq<char>) -> nat
    decreases s.len(),
{
    if s.len() == 0 {
        0
    } else {
        (digits_number(s.drop_last()) * 10 + digit_value(s.last())->0) as nat
    }
}

/// The number that a numeral stands for: one or more digits.
pub open spec fn numeral_number(s: Seq<char>) -> Option<nat> {
    if s.len() > 0 && all_digits(s) {
        Some(digits_number(s))
    } else {
        None
    }
}

/// A text without one leading `+`.
pub open spec fn without_plus(s: Seq<char>) -> Seq<char> {
    if s.len() > 0 && s[0] == '+' {
        s.skip(1)
    } else {
        s
    }
}

/// The unsigned number that a text stands for: digits, and a `+` in front of
/// them if any. `None` also where the number is above `max`.
pub open spec fn parsed_unsigned(s: Seq<char>, max: int) -> Option<nat> {
    match numeral_number(without_plus(s)) {
        Some(n) => if n <= max {
            Some(n)
        } else {
            None
        },
        None => None,
    }
}

/// The `i64` that a text stands for: digits, and a `+` or `-` in front of them
/// if any. `None` also where the number does not fit.
pub open spec fn parsed_i64(s: Seq<char>) -> Option<int> {
    if s.len() > 0 && s[0] == '-' {
        match numeral_number(s.skip(1)) {
            Some(n) => if -n >= i64::MIN {
                Some(-n)
            } else {
                None
            },
            None => None,
        }
    } else {
        match parsed_unsigned(s, i64::MAX as int) {
            Some(n) => Some(n as int),
            None => None,
        }
    }
}

/// The numeral of a number stands for that number.
pub proof fn numeral_is_read_back(n: nat)
    ensures
        numeral_number(numeral(n)) == Some(n),
        numeral(n)[0] != '+',
        numeral(n)[0] != '-',
        digit_value(numeral(n)[0]) is Some,
    decreases n,
{
    if n < 10 {
        reveal_with_fuel(digits_number, 2);
        assert(numeral(n).drop_last() =~= Seq::<char>::empty());
    } else {
        numeral_is_read_back(n / 10);
        let s = numeral(n);
        let t = numeral(n / 10);
        assert(s.drop_last() =~= t);
        assert forall|i: int| 0 <= i < s.len() implies digit_value(#[trigger] s[i]) is Some by {
            if i < t.len() {
                assert(s[i] == t[i]);
            }
        }
    }
}

/// Reading the numeral of an `i64` gives the number back.
pub proof fn i64_is_read_back(i: i64)
    ensures
        parsed_i64(signed_numeral(i as int)) == Some(i as int),
{
    let s = signed_numeral(i as int);
    if i < 0 {
        numeral_is_read_back((-i) as nat);
        assert(s.skip(1) =~= numeral((-i) as nat));
    } else {
        numeral_is_read_back(i as nat);
    }
}

/// Reading the numeral of a number up to `max` gives the number back.
pub proof fn unsigned_is_read_back(n: nat, max: int)
    requires
        n <= max,
    ensures
        parsed_unsigned(numeral(n), max) == Some(n),
{
    numeral_is_read_back(n);
}

/// Appends the numeral of `n`.
fn push_numeral(s: &mut String, n: u64)
    ensures
        final(s)@ == old(s)@ + numeral(n as nat),
    decreases n,
{
    if n >= 10 {
        push_numeral(s, n / 10);
    }
    let d: u8 = (n % 10) as u8;
    s.push((48 + d) as char);
    assert(s@ =~= old(s)@ + numeral(n as nat));
}

/// The numeral of an unsigned number.
pub fn unsigned_text(n: u64) -> (r: String)
    ensures
        r@ == numeral(n as nat),
{
    let mut s = String::new();
    push_numeral(&mut s, n);
    assert(Seq::<char>::empty() + numeral(n as nat) =~= numeral(n as nat));
    s
}

/// The numeral of a signed number.
pub fn signed_text(i: i32) -> (r: String)
    ensures
        r@ == signed_numeral(i as int),
{
    let mut s = String::new();
    let wide: i64 = i as i64;
    if wide < 0 {
        s.push('-');
        push_numeral(&mut s, (-wide) as u64);
        assert(s@ =~= signed_numeral(i as int));
    } else {
        push_numeral(&mut s, wide as u64);
        assert(s@ =~= signed_numeral(i as int));
    }
    s
}

/// The digits only grow the number.
proof fn digits_number_grows(s: Seq<char>, k: int)
    requires
        0 <= k <= s.len(),
        all_digits(s),
    ensures
        digits_number(s.take(k)) <= digits_number(s),
    decreases s.len() - k,
{
    if k < s.len() {
        digits_number_grows(s, k + 1);
        assert(s.take(k + 1).drop_last() =~= s.take(k));
        assert(digit_value(s[k]) is Some);
    } else {
        assert(s.take(k) =~= s);
    }
}

/// The number that the characters from `from` on stand for, if it is at most `max`.
fn number_from(chars: &Vec<char>, from: usize, max: u64) -> (r: Option<u64>)
    requires
        from <= chars@.len(),
    ensures
        ({
            let parsed = numeral_number(chars@.skip(from as int));
            match r {
                Some(n) => parsed == Some(n as nat) && n <= max,
                None => parsed is None || parsed->0 > max,
            }
        }),
{
    let n: usize = chars.len();
    let ghost t = chars@.skip(from as int);
    if from == n {
        return None;
    }
    let mut value: u64 = 0;
    let mut i: usize = from;
    assert(t.take(0) =~= Seq::<char>::empty());
    while i < n
        invariant
            from < n,
            from <= i <= n,
            n == chars@.len(),
            t == chars@.skip(from as int),
            all_digits(t.take(i - from)),
            value == digits_number(t.take(i - from)),
            value <= max,
        decreases n - i,
    {
        let c = chars[i];
        let ghost k = i - from;
        assert(c == t[k]);
        assert(t.take(k + 1).drop_last() =~= t.take(k));
        if !('0' <= c && c <= '9') {
            return None;
        }
        assert forall|j: int| 0 <= j < k + 1 implies digit_value(
            #[trigger] t.take(k + 1)[j],
        ) is Some by {
            if j < k {
                assert(t.take(k)[j] == t.take(k + 1)[j]);
            }
        }
        let d: u64 = (c as u32 - 48) as u64;
        let wide: u128 = value as u128 * 10 + d as u128;
        assert(wide == digits_number(t.take(k + 1)));
        if wide > max as u128 {
            proof {
                if all_digits(t) {
                    digits_number_grows(t, k + 1);
                }
            }
            return None;
        }
        value = wide as u64;
        i = i + 1;
    }
    assert(t.take(n - from) =~= t);
    Some(value)
}

/// Reads a `u64` up to `max`.
fn parse_up_to(s: &str, max: u64) -> (r: Option<u64>)
    ensures
        match r {
            Some(n) => parsed_unsigned(s@, max as int) == Some(n as nat),
            None => parsed_unsigned(s@, max as int) is None,
        },
{
    let chars = chars_of(s);
    if chars.len() > 0 && chars[0] == '+' {
        number_from(&chars, 1, max)
    } else {
        assert(chars@.skip(0) =~= chars@);
        number_from(&chars, 0, max)
    }
}

/// Reads a `u64`.
pub fn parse_u64(s: &str) -> (r: Option<u64>)
    ensures
        match r {
            Some(n) => parsed_unsigned(s@, u64::MAX as int) == Some(n as nat),
            None => parsed_unsigned(s@, u64::MAX as int) is None,
        },
{
    parse_up_to(s, u64::MAX)
}

/// Reads a `usize`.
pub fn parse_usize(s: &str) -> (r: Option<usize>)
    ensures
        match r {
            Some(n) => parsed_unsigned(s@, usize::MAX as int) == Some(n as nat),
            None => parsed_unsigned(s@, usize::MAX as int) is None,
        },
{
    match parse_up_to(s, usize::MAX as u64) {
        Some(n) => Some(n as usize),
        None => None,
    }
}

/// Reads an `i64`.
pub fn parse_i64(s: &str) -> (r: Option<i64>)
    ensures
        match r {
            Some(n) => parsed_i64(s@) == Some(n as int),
            None => parsed_i64(s@) is None,
        },
{
    let chars = chars_of(s);
    if chars.len() > 0 && chars[0] == '-' {
        match number_from(&chars, 1, 0x8000_0000_0000_0000) {
            Some(n) => if n == 0x8000_0000_0000_0000 {
                Some(i64::MIN)
            } else {
                Some(-(n as i64))
            },
            None => None,
        }
    } else {
        match parse_up_to(s, i64::MAX as u64) {
            Some(n) => Some(n as i64),
            None => None,
        }
    }
}

} // verus!
