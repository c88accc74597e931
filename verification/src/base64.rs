//! Base64 in the standard alphabet with padding, the form in which byte
//! strings travel inside JSON.
use vstd::prelude::*;

use crate::text::chars_of;

verus! {

/// The character that stands for a value below 64.
pub open spec fn symbol(value: int) -> char {
    if value < 26 {
        ('A' as int + value) as char
    } else if value < 52 {
        ('a' as int + value - 26) as char
    } else if value < 62 {
        ('0' as int + value - 52) as char
    } else if value == 62 {
        '+'
    } else {
        '/'
    }
}

/// The value that a character of the alphabet stands for.
pub open spec fn symbol_value(c: char) -> Option<int> {
    if 'A' <= c && c <= 'Z' {
        Some(c as int - 'A' as int)
    } else if 'a' <= c && c <= 'z' {
        Some(c as int - 'a' as int + 26)
    } else if '0' <= c && c <= '9' {
        Some(c as int - '0' as int + 52)
    } else if c == '+' {
        Some(62)
    } else if c == '/' {
        Some(63)
    } else {
        None
    }
}

/// The byte at `i`, or zero behind the end of the input.
pub open spec fn byte_or_zero(data: Seq<u8>, i: int) -> int {
    if i < data.len() {
        data[i] as int
    } else {
        0
    }
}

/// The `j`-th character of the encoding: every three bytes are written as four
/// groups of six bits, and a group that holds no bit of the input as `=`.
pub open spec fn encoded_char(data: Seq<u8>, j: int) -> char {
    let i = 3 * (j / 4);
    let b0 = byte_or_zero(data, i);
    let b1 = byte_or_zero(data, i + 1);
    let b2 = byte_or_zero(data, i + 2);
    if j % 4 == 0 {
        symbol(b0 / 4)
    } else if j % 4 == 1 {
        symbol(b0 % 4 * 16 + b1 / 16)
    } else if j % 4 == 2 {
        if i + 1 < data.len() {
            symbol(b1 % 16 * 4 + b2 / 64)
        } else {
            '='
        }
    } else {
        if i + 2 < data.len() {
            symbol(b2 % 64)
        } else {
            '='
        }
    }
}

/// The encoding of a byte string.
pub open spec fn encoded(data: Seq<u8>) -> Seq<char> {
    Seq::new(((data.len() + 2) / 3 * 4) as nat, |j: int| encoded_char(data, j))
}

/// A text without the `=` signs at its end.
pub open spec fn trim_padding(s: Seq<char>) -> Seq<char>
    decreases s.len(),
{
    if s.len() > 0 && s.last() == '=' {
        trim_padding(s.drop_last())
    } else {
        s
    }
}

/// Whether every character belongs to the alphabet.
pub open spec fn in_alphabet(s: Seq<char>) -> bool {
    forall|i: int| 0 <= i < s.len() ==> symbol_value(#[trigger] s[i]) is Some
}

/// The six bits at position `i` of an unpadded text.
pub open spec fn sextet(s: Seq<char>, i: int) -> int {
    symbol_value(s[i])->0
}

/// The `j`-th byte that an unpadded text stands for.
pub open spec fn decoded_byte(s: Seq<char>, j: int) -> u8 {
    let i = 4 * (j / 3);
    if j % 3 == 0 {
        (sextet(s, i) * 4 + sextet(s, i + 1) / 16) as u8
    } else if j % 3 == 1 {
        (sextet(s, i + 1) % 16 * 16 + sextet(s, i + 2) / 4) as u8
    } else {
        (sextet(s, i + 2) % 4 * 64 + sextet(s, i + 3)) as u8
    }
}

/// The bytes that an unpadded text stands for: as many as its bits fill.
/// Left-over bits are dropped.
pub open spec fn decoded_bytes(s: Seq<char>) -> Seq<u8> {
    Seq::new((s.len() * 6 / 8) as nat, |j: int| decoded_byte(s, j))
}

/// What a text decodes to; `None` where a character outside the alphabet is
/// left in it once the padding is off.
pub open spec fn decoded(s: Seq<char>) -> Option<Seq<u8>> {
    let t = trim_padding(s);
    if in_alphabet(t) {
        Some(decoded_bytes(t))
    } else {
        None
    }
}

/// The complaint about the first character outside the alphabet.
pub open spec fn is_decode_complaint(s: Seq<char>, message: Seq<char>) -> bool {
    exists|k: int|
        0 <= k < trim_padding(s).len() && in_alphabet(trim_padding(s).take(k)) && symbol_value(
            #[trigger] trim_padding(s)[k],
        ) is None && message == "invalid base64 character: "@.push(trim_padding(s)[k])
}

/// A value below 64 is read back from its character.
pub proof fn symbol_is_read_back(value: int)
    requires
        0 <= value < 64,
    ensures
        symbol_value(symbol(value)) == Some(value),
        symbol(value) != '=',
{
}

/// Padding at the end of a text is trimmed away, and nothing else.
proof fn trim_of_padded(s: Seq<char>, n: nat)
    requires
        n <= s.len(),
        forall|i: int| n <= i < s.len() ==> s[i] == '=',
        n > 0 ==> s[n - 1] != '=',
    ensures
        trim_padding(s) == s.take(n as int),
    decreases s.len(),
{
    if s.len() > n {
        trim_of_padded(s.drop_last(), n);
        assert(s.drop_last().take(n as int) =~= s.take(n as int));
    } else {
        assert(s.take(n as int) =~= s);
    }
}

/// The characters of an encoding that are not padding.
proof fn trim_of_encoded(data: Seq<u8>)
    ensures
        trim_padding(encoded(data)) == encoded(data).take(((data.len() * 8 + 5) / 6) as int),
{
    let e = encoded(data);
    let n = ((data.len() * 8 + 5) / 6) as nat;
    assert forall|i: int| n <= i < e.len() implies e[i] == '=' by {}
    if n > 0 {
        let j = n - 1;
        let i = 3 * (j / 4);
        let b0 = byte_or_zero(data, i);
        let b1 = byte_or_zero(data, i + 1);
        let b2 = byte_or_zero(data, i + 2);
        symbol_is_read_back(b0 / 4);
        symbol_is_read_back(b0 % 4 * 16 + b1 / 16);
        symbol_is_read_back(b1 % 16 * 4 + b2 / 64);
        symbol_is_read_back(b2 % 64);
        assert(e[j] != '=');
    }
    trim_of_padded(e, n);
}

/// The six bits that the `j`-th character of an encoding carries.
spec fn carried(data: Seq<u8>, j: int) -> int {
    let i = 3 * (j / 4);
    let b0 = byte_or_zero(data, i);
    let b1 = byte_or_zero(data, i + 1);
    let b2 = byte_or_zero(data, i + 2);
    if j % 4 == 0 {
        b0 / 4
    } else if j % 4 == 1 {
        b0 % 4 * 16 + b1 / 16
    } else if j % 4 == 2 {
        b1 % 16 * 4 + b2 / 64
    } else {
        b2 % 64
    }
}

/// A character of an encoding that is not padding is read back as its bits.
proof fn encoded_char_is_read_back(data: Seq<u8>, j: int)
    requires
        0 <= j < (data.len() * 8 + 5) / 6,
    ensures
        symbol_value(encoded_char(data, j)) == Some(carried(data, j)),
{
    symbol_is_read_back(carried(data, j));
}

/// The bytes put together from the bits that the characters carry.
proof fn carried_bits_make_the_byte(data: Seq<u8>, j: int)
    requires
        0 <= j < data.len(),
    ensures
        ({
            let i = 4 * (j / 3);
            data[j] == if j % 3 == 0 {
                carried(data, i) * 4 + carried(data, i + 1) / 16
            } else if j % 3 == 1 {
                carried(data, i + 1) % 16 * 16 + carried(data, i + 2) / 4
            } else {
                carried(data, i + 2) % 4 * 64 + carried(data, i + 3)
            }
        }),
{
    let i = 4 * (j / 3);
    assert(i / 4 == j / 3 && (i + 1) / 4 == j / 3 && (i + 2) / 4 == j / 3 && (i + 3) / 4 == j / 3);
    assert(i % 4 == 0 && (i + 1) % 4 == 1 && (i + 2) % 4 == 2 && (i + 3) % 4 == 3);
}

/// Decoding an encoding gives the bytes back.
pub proof fn decode_inverts_encode(data: Seq<u8>)
    ensures
        decoded(encoded(data)) == Some(data),
{
    let t = trim_padding(encoded(data));
    trim_of_encoded(data);
    assert forall|j: int| 0 <= j < t.len() implies symbol_value(#[trigger] t[j]) == Some(
        carried(data, j),
    ) by {
        encoded_char_is_read_back(data, j);
    }
    let d = decoded_bytes(t);
    assert(d.len() == data.len());
    assert forall|j: int| 0 <= j < d.len() implies d[j] == data[j] by {
        let i = 4 * (j / 3);
        carried_bits_make_the_byte(data, j);
        if j % 3 == 0 {
            assert(sextet(t, i) == carried(data, i));
            assert(sextet(t, i + 1) == carried(data, i + 1));
        } else if j % 3 == 1 {
            assert(sextet(t, i + 1) == carried(data, i + 1));
            assert(sextet(t, i + 2) == carried(data, i + 2));
        } else {
            assert(sextet(t, i + 2) == carried(data, i + 2));
            assert(sextet(t, i + 3) == carried(data, i + 3));
        }
        assert(d[j] == decoded_byte(t, j));
    }
    assert(d =~= data);
}

/// Padding is optional when decoding.
pub proof fn padding_is_optional(s: Seq<char>)
    ensures
        decoded(s.push('=')) == decoded(s),
{
    assert(s.push('=').drop_last() =~= s);
}

/// The character that stands for a value below 64.
fn symbol_of(value: u32) -> (c: char)
    requires
        value < 64,
    ensures
        c == symbol(value as int),
{
    let v = value as u8;
    if v < 26 {
        (65 + v) as char
    } else if v < 52 {
        (97 + (v - 26)) as char
    } else if v < 62 {
        (48 + (v - 52)) as char
    } else if v == 62 {
        '+'
    } else {
        '/'
    }
}

/// Encodes bytes in the standard alphabet, padded to a multiple of four.
pub fn base64_encode(data: &[u8]) -> (r: String)
    ensures
        r@ == encoded(data@),
{
    let n: usize = data.len();
    let mut result = String::new();
    let mut i: usize = 0;
    while i < n
        invariant
            n == data@.len(),
            i <= n,
            i % 3 == 0 || i == n,
            result@ =~= encoded(data@).take((i + 2) / 3 * 4),
        decreases n - i,
    {
        let left: usize = n - i;
        let b0: u32 = data[i] as u32;
        let b1: u32 = if left > 1 { data[i + 1] as u32 } else { 0 };
        let b2: u32 = if left > 2 { data[i + 2] as u32 } else { 0 };
        let triple: u32 = (b0 << 16) | (b1 << 8) | b2;
        proof {
            assert(b0 < 256 && b1 < 256 && b2 < 256 ==> {
                let triple = (b0 << 16) | (b1 << 8) | b2;
                &&& (triple >> 18) & 0x3F == b0 / 4
                &&& (triple >> 12) & 0x3F == b0 % 4 * 16 + b1 / 16
                &&& (triple >> 6) & 0x3F == b1 % 16 * 4 + b2 / 64
                &&& triple & 0x3F == b2 % 64
            }) by (bit_vector);
        }
        result.push(symbol_of((triple >> 18) & 0x3F));
        result.push(symbol_of((triple >> 12) & 0x3F));
        if left > 1 {
            result.push(symbol_of((triple >> 6) & 0x3F));
        } else {
            result.push('=');
        }
        if left > 2 {
            result.push(symbol_of(triple & 0x3F));
        } else {
            result.push('=');
        }
        proof {
            let e = encoded(data@);
            let k = (i + 2) / 3 * 4;
            assert(i % 3 == 0);
            assert(k == i / 3 * 4);
            assert(k / 4 * 3 == i);
            assert((k + 1) / 4 == k / 4 && (k + 2) / 4 == k / 4 && (k + 3) / 4 == k / 4);
            assert(result@ =~= e.take(k).push(e[k]).push(e[k + 1]).push(e[k + 2]).push(e[k + 3]));
            assert(result@ =~= e.take(k + 4));
        }
        if left < 3 {
            i = n;
        } else {
            i = i + 3;
        }
    }
    result
}

/// The value of a character of the alphabet.
fn value_of(c: char) -> (r: Option<u32>)
    ensures
        match r {
            Some(v) => v < 64 && symbol_value(c) == Some(v as int),
            None => symbol_value(c) is None,
        },
{
    let code: u32 = c as u32;
    if 'A' <= c && c <= 'Z' {
        Some(code - 65)
    } else if 'a' <= c && c <= 'z' {
        Some(code - 97 + 26)
    } else if '0' <= c && c <= '9' {
        Some(code - 48 + 52)
    } else if c == '+' {
        Some(62)
    } else if c == '/' {
        Some(63)
    } else {
        None
    }
}

/// The bits that are still unread once `n` characters were taken in.
spec fn pending_bits(n: int) -> int {
    n * 6 % 8
}

/// Decodes a text in the standard alphabet. `=` signs at the end are ignored,
/// and so are the bits that do not fill a byte.
pub fn base64_decode(input: &str) -> (r: Result<Vec<u8>, String>)
    ensures
        match r {
            Ok(bytes) => decoded(input@) == Some(bytes@),
            Err(message) => decoded(input@) is None && is_decode_complaint(input@, message@),
        },
{
    let chars = chars_of(input);
    let mut n: usize = chars.len();
    assert(input@.take(n as int) =~= input@);
    while n > 0 && chars[n - 1] == '='
        invariant
            n <= chars@.len(),
            chars@ == input@,
            trim_padding(input@) == trim_padding(input@.take(n as int)),
        decreases n,
    {
        assert(input@.take(n as int).drop_last() =~= input@.take(n - 1));
        n = n - 1;
    }
    let ghost t = input@.take(n as int);
    assert(trim_padding(input@) == t);
    let mut output: Vec<u8> = Vec::new();
    let mut buf: u32 = 0;
    let mut bits: u32 = 0;
    let mut i: usize = 0;
    while i < n
        invariant
            i <= n,
            n <= chars@.len(),
            chars@ == input@,
            t == input@.take(n as int),
            trim_padding(input@) == t,
            in_alphabet(t.take(i as int)),
            bits == pending_bits(i as int),
            output@ =~= decoded_bytes(t.take(i as int)),
            i % 4 == 1 ==> buf % 64 == sextet(t, i - 1),
            i % 4 == 2 ==> buf % 16 == sextet(t, i - 1) % 16,
            i % 4 == 3 ==> buf % 4 == sextet(t, i - 1) % 4,
        decreases n - i,
    {
        let c = chars[i];
        assert(c == t[i as int]);
        let val: u32 = match value_of(c) {
            Some(v) => v,
            None => {
                let mut message = "invalid base64 character: ".to_owned();
                message.push(c);
                assert(message@ == "invalid base64 character: "@.push(t[i as int]));
                return Err(message);
            },
        };
        let ghost before = buf;
        let ghost out_before = output@;
        buf = (buf << 6) | val;
        bits = bits + 6;
        proof {
            assert(val < 64 ==> {
                let after = (before << 6) | val;
                &&& after % 64 == val
                &&& after % 16 == val % 16
                &&& after % 4 == val % 4
                &&& (after >> 4) & 0xFF == before % 64 * 4 + val / 16
                &&& (after >> 2) & 0xFF == before % 16 * 16 + val / 4
                &&& (after >> 0) & 0xFF == before % 4 * 64 + val
            }) by (bit_vector);
        }
        let ghost prefix = t.take(i as int);
        let ghost longer = t.take(i + 1);
        assert forall|k: int| 0 <= k < longer.len() implies symbol_value(
            #[trigger] longer[k],
        ) is Some by {
            if k < i {
                assert(prefix[k] == longer[k]);
            }
        }
        assert forall|j: int| 0 <= j < decoded_bytes(prefix).len() implies decoded_bytes(
            prefix,
        )[j] == #[trigger] decoded_bytes(longer)[j] by {
            let k = 4 * (j / 3);
            assert(j % 3 == 0 ==> prefix[k] == longer[k] && prefix[k + 1] == longer[k + 1]);
            assert(j % 3 == 1 ==> prefix[k + 1] == longer[k + 1] && prefix[k + 2] == longer[k
                + 2]);
            assert(j % 3 == 2 ==> prefix[k + 2] == longer[k + 2] && prefix[k + 3] == longer[k
                + 3]);
        }
        if bits >= 8 {
            bits = bits - 8;
            let byte: u32 = (buf >> bits) & 0xFF;
            proof {
                let j = decoded_bytes(prefix).len() as int;
                assert(i % 4 != 0);
                assert(j == i / 4 * 3 + i % 4 - 1);
                assert(j / 3 == i / 4 && j % 3 == i % 4 - 1);
                assert(longer[i - 1] == t[i - 1] && longer[i as int] == t[i as int]);
                if i % 4 == 1 {
                    assert(bits == 4);
                } else if i % 4 == 2 {
                    assert(bits == 2);
                } else {
                    assert(bits == 0);
                }
                assert(byte == decoded_byte(longer, j));
            }
            output.push(byte as u8);
        }
        i = i + 1;
    }
    assert(t.take(n as int) =~= t);
    Ok(output)
}

/// The text that stands for a byte string inside a JSON document.
pub fn serialize(bytes: &Vec<u8>) -> (r: String)
    ensures
        r@ == encoded(bytes@),
{
    base64_encode(bytes.as_slice())
}

/// The byte string that a text inside a JSON document stands for.
pub fn deserialize(text: &str) -> (r: Result<Vec<u8>, String>)
    ensures
        match r {
            Ok(bytes) => decoded(text@) == Some(bytes@),
            Err(message) => decoded(text@) is None && is_decode_complaint(text@, message@),
        },
{
    if text.is_empty() {
        assert(decoded_bytes(trim_padding(text@)) =~= Seq::<u8>::empty());
        return Ok(Vec::new());
    }
    base64_decode(text)
}

} // verus!
