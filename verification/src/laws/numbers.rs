//! Numbers in the metadata of messages, and decimal numerals.
use vstd::prelude::*;

use crate::decimal::{
    i64_is_read_back, numeral, numeral_is_read_back, numeral_number, parsed_i64, parsed_unsigned,
    signed_numeral,
};
use crate::laws::terms::stands_under;
use crate::types::MessageView;

verus! {

/// Whether a character is a decimal digit.
pub open spec fn is_digit(c: char) -> bool {
    '0' <= c && c <= '9'
}

/// Whether a text holds something else than digits, behind one sign at most, or
/// no digit at all: it is no numeral.
pub open spec fn no_numeral(s: Seq<char>) -> bool {
    ||| s.len() == 0
    ||| s.len() == 1 && (s[0] == '+' || s[0] == '-')
    ||| exists|i: int| 1 <= i < s.len() && !is_digit(#[trigger] s[i])
    ||| !is_digit(s[0]) && s[0] != '+' && s[0] != '-'
}

/// Whether a message has no numeral under a key.
pub open spec fn no_number(msg: MessageView, key: Seq<char>) -> bool {
    !msg.meta.contains_key(key) || no_numeral(msg.meta[key])
}

/// What is no numeral is not read as a number.
pub proof fn what_is_no_numeral_is_not_read(s: Seq<char>, max: int)
    requires
        no_numeral(s),
    ensures
        parsed_unsigned(s, max) is None,
        parsed_i64(s) is None,
{
    if s.len() > 0 {
        let rest = s.skip(1);
        if exists|i: int| 1 <= i < s.len() && !is_digit(#[trigger] s[i]) {
            let i = choose|i: int| 1 <= i < s.len() && !is_digit(#[trigger] s[i]);
            assert(rest[i - 1] == s[i]);
            assert(crate::decimal::digit_value(rest[i - 1]) is None);
            assert(crate::decimal::digit_value(s[i]) is None);
        } else if s.len() == 1 && (s[0] == '+' || s[0] == '-') {
            assert(rest.len() == 0);
            assert(crate::decimal::digit_value(s[0]) is None);
        } else {
            assert(crate::decimal::digit_value(s[0]) is None);
        }
    }
}

/// A number that a message has under a key, as an `i64`.
pub proof fn i64_texts(msg: MessageView, key: Seq<char>, n: int)
    ensures
        stands_under(msg, key, signed_numeral(n)) ==> parsed_i64(msg.get_meta(key)) == (if i64::MIN
            <= n <= i64::MAX {
            Some(n)
        } else {
            None
        }),
        no_number(msg, key) ==> parsed_i64(msg.get_meta(key)) is None,
{
    numeral_is_read_back(if n < 0 { (-n) as nat } else { n as nat });
    if i64::MIN <= n <= i64::MAX {
        i64_is_read_back(n as i64);
    } else if n < 0 {
        assert(signed_numeral(n).skip(1) =~= numeral((-n) as nat));
    }
    if no_number(msg, key) {
        what_is_no_numeral_is_not_read(msg.get_meta(key), 0);
    }
}

/// A number that a message has under a key, up to a bound.
pub proof fn unsigned_texts(msg: MessageView, key: Seq<char>, n: nat, max: int)
    ensures
        stands_under(msg, key, numeral(n)) ==> parsed_unsigned(msg.get_meta(key), max) == (if n
            <= max {
            Some(n)
        } else {
            None
        }),
        stands_under(msg, key, "-"@ + numeral(n)) ==> parsed_unsigned(
            msg.get_meta(key),
            max,
        ) is None,
        no_number(msg, key) ==> parsed_unsigned(msg.get_meta(key), max) is None,
{
    numerals_are_read_with_sign_and_zeros(n, max);
    numeral_is_read_back(n);
    reveal_strlit("-");
    if no_number(msg, key) {
        what_is_no_numeral_is_not_read(msg.get_meta(key), max);
    }
}

/// The numeral of a number is decimal: its last digit is what is left over when
/// the number is divided by ten, and the digits before it, where there are any,
/// are the numeral of the quotient. A negative number has a minus in front.
pub proof fn numerals_are_decimal(n: nat, d: nat)
    requires
        d < 10,
    ensures
        numeral(0) == "0"@,
        n > 0 || d > 0 ==> numeral(n * 10 + d) == (if n > 0 {
            numeral(n)
        } else {
            Seq::empty()
        }).push("0123456789"@[d as int]),
        signed_numeral(n as int) == numeral(n),
        n > 0 ==> signed_numeral(-n) == "-"@ + numeral(n),
{
    reveal_strlit("0");
    reveal_strlit("-");
    reveal_strlit("0123456789");
    assert(numeral(0) =~= "0"@);
    assert("-"@ =~= seq!['-']);
    let m = n * 10 + d;
    if n > 0 {
        assert(m / 10 == n && m % 10 == d);
    } else {
        assert(numeral(d) =~= Seq::<char>::empty().push("0123456789"@[d as int]));
    }
}

/// A numeral is read with a plus in front of it, and with zeros in front, as the
/// same number. One above the bound is not read.
pub proof fn numerals_are_read_with_sign_and_zeros(n: nat, max: int)
    ensures
        n <= max ==> parsed_unsigned("+"@ + numeral(n), max) == Some(n),
        n <= max ==> parsed_unsigned("0"@ + numeral(n), max) == Some(n),
        n > max ==> parsed_unsigned(numeral(n), max) is None,
        n > i64::MAX ==> parsed_i64(numeral(n)) is None,
        -n < i64::MIN ==> parsed_i64("-"@ + numeral(n)) is None,
        parsed_unsigned("-"@ + numeral(n), max) is None,
{
    reveal_strlit("+");
    reveal_strlit("-");
    reveal_strlit("0");
    numeral_is_read_back(n);
    let plus = "+"@ + numeral(n);
    let minus = "-"@ + numeral(n);
    let zero = "0"@ + numeral(n);
    assert(plus.skip(1) =~= numeral(n));
    assert(minus.skip(1) =~= numeral(n));
    assert(minus[0] == '-');
    zero_in_front(numeral(n));
    assert(zero =~= seq!['0'] + numeral(n));
}

/// A zero in front of digits changes nothing.
proof fn zero_in_front(s: Seq<char>)
    ensures
        s.len() > 0 ==> numeral_number(seq!['0'] + s) == numeral_number(s),
        crate::decimal::digits_number(seq!['0'] + s) == crate::decimal::digits_number(s),
    decreases s.len(),
{
    let t = seq!['0'] + s;
    if s.len() > 0 {
        zero_in_front(s.drop_last());
        assert(t.drop_last() =~= seq!['0'] + s.drop_last());
        assert(t.last() == s.last());
        assert forall|i: int| 0 <= i < s.len() implies #[trigger] s[i] == t[i + 1] by {}
        if crate::decimal::all_digits(t) {
            assert forall|i: int| 0 <= i < s.len() implies crate::decimal::digit_value(
                #[trigger] s[i],
            ) is Some by {
                assert(crate::decimal::digit_value(t[i + 1]) is Some);
            }
        }
        if crate::decimal::all_digits(s) {
            assert forall|i: int| 0 <= i < t.len() implies crate::decimal::digit_value(
                #[trigger] t[i],
            ) is Some by {
                if i > 0 {
                    assert(t[i] == s[i - 1]);
                }
            }
        }
    } else {
        reveal_with_fuel(crate::decimal::digits_number, 2);
        assert(t.drop_last() =~= Seq::<char>::empty());
    }
}

/// Digits are read by their place: one more digit behind a number that was read
/// makes it ten times as much and the digit. A minus in front of digits makes the
/// number negative.
pub proof fn digits_are_read_by_place(s: Seq<char>, v: nat, d: nat, max: int)
    requires
        parsed_unsigned(s, max) == Some(v),
        d < 10,
    ensures
        parsed_unsigned(s.push("0123456789"@[d as int]), max) == (if v * 10 + d <= max {
            Some((v * 10 + d) as nat)
        } else {
            None
        }),
        s[0] != '+' && -v >= i64::MIN ==> parsed_i64("-"@ + s) == Some(-v),
        s[0] != '-' && v <= i64::MAX ==> parsed_i64(s) == Some(v as int),
{
    reveal_strlit("0123456789");
    reveal_strlit("-");
    let c = "0123456789"@[d as int];
    let t = s.push(c);
    let body = crate::decimal::without_plus(s);
    let longer = crate::decimal::without_plus(t);
    assert(crate::decimal::digit_value(c) == Some(d as int));
    assert(longer =~= body.push(c));
    assert(longer.drop_last() =~= body);
    assert forall|i: int| 0 <= i < longer.len() implies crate::decimal::digit_value(
        #[trigger] longer[i],
    ) is Some by {
        if i < body.len() {
            assert(longer[i] == body[i]);
        }
    }
    assert(("-"@ + s).skip(1) =~= s);
    assert(("-"@ + s)[0] == '-');
}

} // verus!
