use xege::utf16::decode_utf16;
use xege::utf16::decode_utf16_string;
use xege::utf16::encode_utf16_str;
use xege::utf16::to_wide;

#[test]
fn encode_matches_std() {
    for s in ["", "hello", "héllo", "宋体", "a𝔉b", "\u{10FFFF}"] {
        let ours = encode_utf16_str(s);
        let std_units: Vec<u16> = s.encode_utf16().collect();
        assert_eq!(ours, std_units);
    }
}

#[test]
fn to_wide_appends_nul() {
    let w = to_wide("ab");
    assert_eq!(w, vec![97, 98, 0]);
    assert_eq!(to_wide(""), vec![0]);
}

#[test]
fn decode_roundtrip() {
    for s in ["", "hello", "héllo", "宋体", "a𝔉b"] {
        let units = encode_utf16_str(s);
        let back = decode_utf16_string(&units).unwrap();
        assert_eq!(back, s);
    }
}

#[test]
fn decode_chars() {
    let units = encode_utf16_str("a𝔉");
    let chars = decode_utf16(&units).unwrap();
    assert_eq!(chars, vec!['a', '𝔉']);
}

#[test]
fn lone_high_surrogate_is_invalid() {
    assert!(decode_utf16(&[0xD800]).is_none());
    assert!(decode_utf16(&[97, 0xD800]).is_none());
}

#[test]
fn lone_low_surrogate_is_invalid() {
    assert!(decode_utf16(&[0xDC00]).is_none());
    assert!(decode_utf16(&[0xDFFF, 97]).is_none());
}

#[test]
fn high_surrogate_followed_by_non_low_is_invalid() {
    assert!(decode_utf16(&[0xD800, 97]).is_none());
    assert!(decode_utf16(&[0xD800, 0xD800]).is_none());
}

#[test]
fn surrogate_pair_decodes_to_supplementary_char() {
    let mut expected = [0u16; 2];
    '𝔉'.encode_utf16(&mut expected);
    let chars = decode_utf16(&expected).unwrap();
    assert_eq!(chars, vec!['𝔉']);
}
