use wafer::base64::{base64_decode, base64_encode, deserialize, serialize};
use wafer::decimal::{parse_i64, parse_u64, parse_usize, signed_text, unsigned_text};
use wafer::meta::Meta;
use wafer::text::{chars_of, copy_bytes, join, strip_prefix, text_eq, utf8_bytes};
use wafer::wasm::packed::{pack_i64, unpack_i64};

#[test]
fn base64_encodes_with_padding() {
    assert_eq!(base64_encode(b""), "");
    assert_eq!(base64_encode(b"f"), "Zg==");
    assert_eq!(base64_encode(b"fo"), "Zm8=");
    assert_eq!(base64_encode(b"foo"), "Zm9v");
    assert_eq!(base64_encode(b"foob"), "Zm9vYg==");
    assert_eq!(base64_encode(b"fooba"), "Zm9vYmE=");
    assert_eq!(base64_encode(b"foobar"), "Zm9vYmFy");
    assert_eq!(base64_encode(&[0xfb, 0xff, 0xbf]), "+/+/");
    assert_eq!(base64_encode(&[0, 16, 131]), "ABCD");
}

#[test]
fn base64_decodes_with_and_without_padding() {
    assert_eq!(base64_decode("Zg=="), Ok(b"f".to_vec()));
    assert_eq!(base64_decode("Zg"), Ok(b"f".to_vec()));
    assert_eq!(base64_decode("Zm8="), Ok(b"fo".to_vec()));
    assert_eq!(base64_decode("Zm9vYmFy"), Ok(b"foobar".to_vec()));
    assert_eq!(base64_decode("+/+/"), Ok(vec![0xfb, 0xff, 0xbf]));
    assert_eq!(base64_decode(""), Ok(vec![]));
    assert_eq!(base64_decode("===="), Ok(vec![]));
}

#[test]
fn base64_decode_drops_bits_that_fill_no_byte() {
    assert_eq!(base64_decode("Z"), Ok(vec![]));
    assert_eq!(base64_decode("Zm9vY"), Ok(b"foo".to_vec()));
    assert_eq!(base64_decode("Zh"), Ok(b"f".to_vec()));
}

#[test]
fn base64_decode_names_the_first_foreign_character() {
    assert_eq!(base64_decode("Zm9v!Yg*"), Err("invalid base64 character: !".to_string()));
    assert_eq!(base64_decode("Zm=9"), Err("invalid base64 character: =".to_string()));
    assert_eq!(base64_decode("é"), Err("invalid base64 character: é".to_string()));
    assert_eq!(base64_decode(" "), Err("invalid base64 character:  ".to_string()));
}

#[test]
fn base64_decoding_inverts_encoding() {
    for n in 0..300usize {
        let data: Vec<u8> = (0..n).map(|i| (i * 37 + n) as u8).collect();
        assert_eq!(base64_decode(&base64_encode(&data)), Ok(data));
    }
}

#[test]
fn long_inputs_decode() {
    let data: Vec<u8> = (0..100_000u32).map(|i| (i % 251) as u8).collect();
    assert_eq!(base64_decode(&base64_encode(&data)), Ok(data));
}

#[test]
fn bytes_are_written_and_read_as_text() {
    assert_eq!(serialize(&b"hello".to_vec()), "aGVsbG8=");
    assert_eq!(deserialize("aGVsbG8="), Ok(b"hello".to_vec()));
    assert_eq!(deserialize(""), Ok(vec![]));
    assert_eq!(deserialize("?"), Err("invalid base64 character: ?".to_string()));
}

#[test]
fn numerals_are_written() {
    assert_eq!(unsigned_text(0), "0");
    assert_eq!(unsigned_text(16_777_216), "16777216");
    assert_eq!(unsigned_text(u64::MAX), "18446744073709551615");
    assert_eq!(signed_text(0), "0");
    assert_eq!(signed_text(-1), "-1");
    assert_eq!(signed_text(i32::MIN), "-2147483648");
    assert_eq!(signed_text(i32::MAX), "2147483647");
}

#[test]
fn numerals_are_read() {
    assert_eq!(parse_u64("18446744073709551615"), Some(u64::MAX));
    assert_eq!(parse_u64("18446744073709551616"), None);
    assert_eq!(parse_u64("+7"), Some(7));
    assert_eq!(parse_u64("007"), Some(7));
    assert_eq!(parse_u64(""), None);
    assert_eq!(parse_u64("+"), None);
    assert_eq!(parse_u64("-1"), None);
    assert_eq!(parse_u64(" 1"), None);
    assert_eq!(parse_u64("1x"), None);
    assert_eq!(parse_usize("64"), Some(64));
    assert_eq!(parse_usize("many"), None);
    assert_eq!(parse_i64("-9223372036854775808"), Some(i64::MIN));
    assert_eq!(parse_i64("9223372036854775807"), Some(i64::MAX));
    assert_eq!(parse_i64("9223372036854775808"), None);
    assert_eq!(parse_i64("-9223372036854775809"), None);
    assert_eq!(parse_i64("-"), None);
    assert_eq!(parse_i64("-0"), Some(0));
    assert_eq!(parse_i64("+-1"), None);
}

#[test]
fn numerals_are_read_as_std_reads_them() {
    for text in [
        "", "+", "-", "0", "-0", "+0", "00", "1", "-1", "+1", "--1", "++1", "12a", "a", " 1", "1 ",
        "99999999999999999999999", "-99999999999999999999999", "18446744073709551615",
        "18446744073709551616", "9223372036854775807", "9223372036854775808",
        "-9223372036854775808", "-9223372036854775809", "\u{661}", "1\u{0}",
    ] {
        assert_eq!(parse_u64(text), text.parse::<u64>().ok(), "{:?}", text);
        assert_eq!(parse_usize(text), text.parse::<usize>().ok(), "{:?}", text);
        assert_eq!(parse_i64(text), text.parse::<i64>().ok(), "{:?}", text);
    }
}

#[test]
fn written_numerals_are_read_back() {
    for n in [0u64, 9, 10, 999, 1_000_000, u64::MAX] {
        assert_eq!(parse_u64(&unsigned_text(n)), Some(n));
    }
    for n in [0i32, -1, 42, i32::MIN, i32::MAX] {
        assert_eq!(parse_i64(&signed_text(n)), Some(n as i64));
    }
}

#[test]
fn texts_are_compared_and_cut() {
    assert!(text_eq("grün", "grün"));
    assert!(!text_eq("a", "b"));
    assert!(!text_eq("a", "ab"));
    assert_eq!(strip_prefix("svc.config.get", "svc."), Some("config.get"));
    assert_eq!(strip_prefix("svc.", "svc."), Some(""));
    assert_eq!(strip_prefix("svc", "svc."), None);
    assert_eq!(strip_prefix("log", "svc."), None);
    assert_eq!(strip_prefix("éa", "é"), Some("a"));
    assert_eq!(join("über", "all"), "überall");
    assert_eq!(chars_of("aé"), vec!['a', 'é']);
    assert_eq!(utf8_bytes("é"), vec![0xc3, 0xa9]);
    assert_eq!(copy_bytes(&[1, 2, 3]), vec![1, 2, 3]);
}

#[test]
fn metadata_keeps_one_value_per_key() {
    let mut meta = Meta::new();
    assert!(meta.get("a").is_none());
    meta.insert("a".to_string(), "1".to_string());
    meta.insert("b".to_string(), "2".to_string());
    meta.insert("a".to_string(), "3".to_string());
    assert_eq!(meta.get("a").map(|v| v.as_str()), Some("3"));
    assert_eq!(meta.get("b").map(|v| v.as_str()), Some("2"));
    let mut pairs = meta.to_pairs();
    pairs.sort();
    assert_eq!(
        pairs,
        vec![["a".to_string(), "3".to_string()], ["b".to_string(), "2".to_string()]]
    );
    let copy = meta.clone();
    assert_eq!(copy.get("a").map(|v| v.as_str()), Some("3"));
}

#[test]
fn of_two_pairs_with_one_key_the_later_counts() {
    let meta = Meta::from_pairs(&vec![
        ["k".to_string(), "first".to_string()],
        ["other".to_string(), "x".to_string()],
        ["k".to_string(), "last".to_string()],
    ]);
    assert_eq!(meta.get("k").map(|v| v.as_str()), Some("last"));
    assert_eq!(meta.to_pairs().len(), 2);
}

#[test]
fn pointer_and_length_are_packed() {
    assert_eq!(pack_i64(1, 2), 0x1_0000_0002);
    assert_eq!(pack_i64(0, 0), 0);
    assert_eq!(pack_i64(-1, 0), -0x1_0000_0000);
    assert_eq!(pack_i64(0, -1), 0xffff_ffff);
    assert_eq!(unpack_i64(0x1_0000_0002), (1, 2));
    assert_eq!(unpack_i64(-1), (-1, -1));
    for (ptr, len) in [(0, 0), (7, -7), (i32::MIN, i32::MAX), (-1, 1), (65536, 12)] {
        assert_eq!(unpack_i64(pack_i64(ptr, len)), (ptr, len));
    }
}
