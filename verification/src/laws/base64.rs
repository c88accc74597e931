//! Base64, by the numbers that bytes and characters stand for.
use vstd::prelude::*;

use crate::base64::{
    byte_or_zero, decoded, decoded_byte, decoded_bytes, encoded, in_alphabet,
    is_decode_complaint, symbol, symbol_value, trim_padding,
};

verus! {

/// The characters of the standard alphabet, in the order of their values.
pub open spec fn symbols() -> Seq<char> {
    "ABCDEFGHIJKLMNOPQRSTUVWXYZabcdefghijklmnopqrstuvwxyz0123456789+/"@
}

/// Whether a character is in the alphabet, at the place of its value.
pub open spec fn stands_for(c: char, value: int) -> bool {
    0 <= value < 64 && symbols()[value] == c
}

/// Whether a character is in the alphabet.
pub open spec fn is_symbol(c: char) -> bool {
    exists|value: int| #[trigger] stands_for(c, value)
}

/// A value has the character at its place in the alphabet.
pub proof fn values_have_their_place(value: int)
    requires
        0 <= value < 64,
    ensures
        symbols().len() == 64,
        symbols()[value] == symbol(value),
        symbol_value(symbols()[value]) == Some(value),
{
    reveal_strlit("ABCDEFGHIJKLMNOPQRSTUVWXYZabcdefghijklmnopqrstuvwxyz0123456789+/");
    if value == 0 {
        assert(symbols()[0] == 'A');
    } else if value == 1 {
        assert(symbols()[1] == 'B');
    } else if value == 2 {
        assert(symbols()[2] == 'C');
    } else if value == 3 {
        assert(symbols()[3] == 'D');
    } else if value == 4 {
        assert(symbols()[4] == 'E');
    } else if value == 5 {
        assert(symbols()[5] == 'F');
    } else if value == 6 {
        assert(symbols()[6] == 'G');
    } else if value == 7 {
        assert(symbols()[7] == 'H');
    } else if value == 8 {
        assert(symbols()[8] == 'I');
    } else if value == 9 {
        assert(symbols()[9] == 'J');
    } else if value == 10 {
        assert(symbols()[10] == 'K');
    } else if value == 11 {
        assert(symbols()[11] == 'L');
    } else if value == 12 {
        assert(symbols()[12] == 'M');
    } else if value == 13 {
        assert(symbols()[13] == 'N');
    } else if value == 14 {
        assert(symbols()[14] == 'O');
    } else if value == 15 {
        assert(symbols()[15] == 'P');
    } else if value == 16 {
        assert(symbols()[16] == 'Q');
    } else if value == 17 {
        assert(symbols()[17] == 'R');
    } else if value == 18 {
        assert(symbols()[18] == 'S');
    } else if value == 19 {
        assert(symbols()[19] == 'T');
    } else if value == 20 {
        assert(symbols()[20] == 'U');
    } else if value == 21 {
        assert(symbols()[21] == 'V');
    } else if value == 22 {
        assert(symbols()[22] == 'W');
    } else if value == 23 {
        assert(symbols()[23] == 'X');
    } else if value == 24 {
        assert(symbols()[24] == 'Y');
    } else if value == 25 {
        assert(symbols()[25] == 'Z');
    } else if value == 26 {
        assert(symbols()[26] == 'a');
    } else if value == 27 {
        assert(symbols()[27] == 'b');
    } else if value == 28 {
        assert(symbols()[28] == 'c');
    } else if value == 29 {
        assert(symbols()[29] == 'd');
    } else if value == 30 {
        assert(symbols()[30] == 'e');
    } else if value == 31 {
        assert(symbols()[31] == 'f');
    } else if value == 32 {
        assert(symbols()[32] == 'g');
    } else if value == 33 {
        assert(symbols()[33] == 'h');
    } else if value == 34 {
        assert(symbols()[34] == 'i');
    } else if value == 35 {
        assert(symbols()[35] == 'j');
    } else if value == 36 {
        assert(symbols()[36] == 'k');
    } else if value == 37 {
        assert(symbols()[37] == 'l');
    } else if value == 38 {
        assert(symbols()[38] == 'm');
    } else if value == 39 {
        assert(symbols()[39] == 'n');
    } else if value == 40 {
        assert(symbols()[40] == 'o');
    } else if value == 41 {
        assert(symbols()[41] == 'p');
    } else if value == 42 {
        assert(symbols()[42] == 'q');
    } else if value == 43 {
        assert(symbols()[43] == 'r');
    } else if value == 44 {
        assert(symbols()[44] == 's');
    } else if value == 45 {
        assert(symbols()[45] == 't');
    } else if value == 46 {
        assert(symbols()[46] == 'u');
    } else if value == 47 {
        assert(symbols()[47] == 'v');
    } else if value == 48 {
        assert(symbols()[48] == 'w');
    } else if value == 49 {
        assert(symbols()[49] == 'x');
    } else if value == 50 {
        assert(symbols()[50] == 'y');
    } else if value == 51 {
        assert(symbols()[51] == 'z');
    } else if value == 52 {
        assert(symbols()[52] == '0');
    } else if value == 53 {
        assert(symbols()[53] == '1');
    } else if value == 54 {
        assert(symbols()[54] == '2');
    } else if value == 55 {
        assert(symbols()[55] == '3');
    } else if value == 56 {
        assert(symbols()[56] == '4');
    } else if value == 57 {
        assert(symbols()[57] == '5');
    } else if value == 58 {
        assert(symbols()[58] == '6');
    } else if value == 59 {
        assert(symbols()[59] == '7');
    } else if value == 60 {
        assert(symbols()[60] == '8');
    } else if value == 61 {
        assert(symbols()[61] == '9');
    } else if value == 62 {
        assert(symbols()[62] == '+');
    } else if value == 63 {
        assert(symbols()[63] == '/');
    }
}

/// A character has a value exactly if it is in the alphabet, and the value is its
/// place there.
pub proof fn characters_have_their_value(c: char, value: int)
    ensures
        stands_for(c, value) <==> symbol_value(c) == Some(value),
{
    if 0 <= value < 64 {
        values_have_their_place(value);
        if symbol_value(c) == Some(value) {
            assert(symbol(value) == c);
        }
    }
}

/// Every three bytes are written as four characters that stand for the same
/// number, and an input that does not divide by three is filled up: by `==` where
/// one byte is left, whose eight bits the first two characters begin with, and by
/// `=` where two are.
pub proof fn three_bytes_are_four_characters(data: Seq<u8>, k: int, a: int, b: int, c: int, d: int)
    requires
        0 <= k,
        3 * k < data.len(),
        stands_for(encoded(data)[4 * k], a),
        stands_for(encoded(data)[4 * k + 1], b),
    ensures
        encoded(data).len() == (data.len() + 2) / 3 * 4,
        3 * k + 2 < data.len() && stands_for(encoded(data)[4 * k + 2], c) && stands_for(
            encoded(data)[4 * k + 3],
            d,
        ) ==> a * 262144 + b * 4096 + c * 64 + d == data[3 * k] * 65536 + data[3 * k + 1] * 256
            + data[3 * k + 2],
        3 * k + 1 == data.len() ==> a * 64 + b == data[3 * k] * 16 && encoded(data)[4 * k + 2]
            == '=' && encoded(data)[4 * k + 3] == '=',
        3 * k + 2 == data.len() && stands_for(encoded(data)[4 * k + 2], c) ==> a * 4096 + b * 64
            + c == (data[3 * k] * 256 + data[3 * k + 1]) * 4 && encoded(data)[4 * k + 3] == '=',
{
    let e = encoded(data);
    let b0 = byte_or_zero(data, 3 * k);
    let b1 = byte_or_zero(data, 3 * k + 1);
    let b2 = byte_or_zero(data, 3 * k + 2);
    assert((4 * k) / 4 == k && (4 * k) % 4 == 0);
    assert((4 * k + 1) / 4 == k && (4 * k + 1) % 4 == 1);
    assert((4 * k + 2) / 4 == k && (4 * k + 2) % 4 == 2);
    assert((4 * k + 3) / 4 == k && (4 * k + 3) % 4 == 3);
    assert(e[4 * k] == symbol(b0 / 4));
    assert(e[4 * k + 1] == symbol(b0 % 4 * 16 + b1 / 16));
    characters_have_their_value(e[4 * k], a);
    characters_have_their_value(e[4 * k + 1], b);
    characters_have_their_value(e[4 * k + 2], c);
    characters_have_their_value(e[4 * k + 3], d);
    values_have_their_place(b0 / 4);
    values_have_their_place(b0 % 4 * 16 + b1 / 16);
    assert(a == b0 / 4 && b == b0 % 4 * 16 + b1 / 16);
    if 3 * k + 1 < data.len() {
        values_have_their_place(b1 % 16 * 4 + b2 / 64);
    }
    if 3 * k + 2 < data.len() {
        values_have_their_place(b2 % 64);
    }
}

/// A character that is written stands for a value, or is `=`.
pub proof fn written_characters_are_in_the_alphabet(data: Seq<u8>, j: int)
    requires
        0 <= j < encoded(data).len(),
    ensures
        encoded(data)[j] != '=' ==> is_symbol(encoded(data)[j]),
{
    let i = 3 * (j / 4);
    let b0 = byte_or_zero(data, i);
    let b1 = byte_or_zero(data, i + 1);
    let b2 = byte_or_zero(data, i + 2);
    let c = encoded(data)[j];
    let value = if j % 4 == 0 {
        b0 / 4
    } else if j % 4 == 1 {
        b0 % 4 * 16 + b1 / 16
    } else if j % 4 == 2 {
        b1 % 16 * 4 + b2 / 64
    } else {
        b2 % 64
    };
    values_have_their_place(value);
    if c != '=' {
        assert(c == symbol(value));
        assert(stands_for(c, value));
    }
}

/// A text of the alphabet is left as it is when padding is trimmed.
proof fn nothing_to_trim(t: Seq<char>)
    requires
        in_alphabet(t),
    ensures
        trim_padding(t) == t,
        decoded(t) == Some(decoded_bytes(t)),
{
    if t.len() > 0 {
        assert(symbol_value(t[t.len() - 1]) is Some);
    }
}

/// Every four characters of a text in the alphabet are read as three bytes that
/// stand for the same number. Of two or three characters that are left, one or
/// two bytes are read, and the bits that do not fill a byte are dropped.
pub proof fn four_characters_are_three_bytes(
    text: Seq<char>,
    k: int,
    a: int,
    b: int,
    c: int,
    d: int,
)
    requires
        forall|i: int| 0 <= i < text.len() ==> is_symbol(#[trigger] text[i]),
        0 <= k,
        4 * k + 1 < text.len(),
        stands_for(text[4 * k], a),
        stands_for(text[4 * k + 1], b),
    ensures
        decoded(text) matches Some(bytes) && {
            &&& bytes.len() == text.len() * 3 / 4
            &&& bytes[3 * k] == (a * 64 + b) / 16
            &&& 4 * k + 2 < text.len() && stands_for(text[4 * k + 2], c) ==> bytes[3 * k] * 256
                + bytes[3 * k + 1] == (a * 4096 + b * 64 + c) / 4
            &&& 4 * k + 3 < text.len() && stands_for(text[4 * k + 2], c) && stands_for(
                text[4 * k + 3],
                d,
            ) ==> bytes[3 * k] * 65536 + bytes[3 * k + 1] * 256 + bytes[3 * k + 2] == a * 262144 + b
                * 4096 + c * 64 + d
        },
{
    assert forall|i: int| 0 <= i < text.len() implies symbol_value(#[trigger] text[i]) is Some by {
        let value = choose|value: int| #[trigger] stands_for(text[i], value);
        characters_have_their_value(text[i], value);
    }
    nothing_to_trim(text);
    characters_have_their_value(text[4 * k], a);
    characters_have_their_value(text[4 * k + 1], b);
    assert((3 * k) / 3 == k && (3 * k) % 3 == 0);
    assert((3 * k + 1) / 3 == k && (3 * k + 1) % 3 == 1);
    assert((3 * k + 2) / 3 == k && (3 * k + 2) % 3 == 2);
    let bytes = decoded_bytes(text);
    assert(bytes[3 * k] == decoded_byte(text, 3 * k));
    if 4 * k + 2 < text.len() {
        characters_have_their_value(text[4 * k + 2], c);
        assert(bytes[3 * k + 1] == decoded_byte(text, 3 * k + 1));
    }
    if 4 * k + 3 < text.len() {
        characters_have_their_value(text[4 * k + 3], d);
        assert(bytes[3 * k + 2] == decoded_byte(text, 3 * k + 2));
    }
}

/// What is left of a text without the `=` at its end.
proof fn trimming_leaves_a_beginning(s: Seq<char>)
    ensures
        trim_padding(s).len() <= s.len(),
        trim_padding(s) == s.take(trim_padding(s).len() as int),
        forall|i: int| trim_padding(s).len() <= i < s.len() ==> #[trigger] s[i] == '=',
    decreases s.len(),
{
    if s.len() > 0 && s.last() == '=' {
        trimming_leaves_a_beginning(s.drop_last());
        let n = trim_padding(s).len() as int;
        assert(s.drop_last().take(n) =~= s.take(n));
        assert forall|i: int| n <= i < s.len() implies #[trigger] s[i] == '=' by {
            if i < s.len() - 1 {
                assert(s.drop_last()[i] == s[i]);
            }
        }
    } else {
        assert(s.take(s.len() as int) =~= s);
    }
}

/// A text is refused if it has a character outside the alphabet that is
/// not part of the `=` at its end.
pub proof fn foreign_characters_are_refused(s: Seq<char>, k: int)
    requires
        0 <= k < s.len(),
        !is_symbol(s[k]),
        exists|j: int| k <= j < s.len() && #[trigger] s[j] != '=',
    ensures
        decoded(s) is None,
{
    trimming_leaves_a_beginning(s);
    let t = trim_padding(s);
    let j = choose|j: int| k <= j < s.len() && #[trigger] s[j] != '=';
    assert(t.len() > j);
    assert(t[k] == s[k]);
    if symbol_value(t[k]) is Some {
        characters_have_their_value(t[k], symbol_value(t[k])->0);
        assert(stands_for(s[k], symbol_value(t[k])->0));
    }
}

/// The complaint about a text names the first character in it that is outside
/// the alphabet.
pub proof fn complaints_name_the_first_foreign_character(s: Seq<char>, message: Seq<char>)
    requires
        is_decode_complaint(s, message),
    ensures
        exists|k: int|
            0 <= k < s.len() && message == "invalid base64 character: "@ + seq![#[trigger] s[k]]
                && !is_symbol(s[k]) && (forall|i: int|
                0 <= i < k ==> is_symbol(#[trigger] s[i])),
{
    trimming_leaves_a_beginning(s);
    let t = trim_padding(s);
    let k = choose|k: int|
        0 <= k < t.len() && in_alphabet(t.take(k)) && symbol_value(#[trigger] t[k]) is None
            && message == "invalid base64 character: "@.push(t[k]);
    assert(t[k] == s[k]);
    assert forall|value: int| !#[trigger] stands_for(s[k], value) by {
        characters_have_their_value(s[k], value);
    }
    assert forall|i: int| 0 <= i < k implies is_symbol(#[trigger] s[i]) by {
        assert(t.take(k)[i] == s[i]);
        characters_have_their_value(s[i], symbol_value(s[i])->0);
        assert(stands_for(s[i], symbol_value(s[i])->0));
    }
    assert(message =~= "invalid base64 character: "@ + seq![s[k]]);
}

} // verus!
