use winsafe::wstring::{WString, create_wstr_vecs, parse_multi_z_str, utf16_to_string};

#[test]
fn ascii_encodes_one_unit_per_char() {
    let w = WString::from_str("Hi!");
    assert_eq!(w.as_units().as_slice(), &[0x48, 0x69, 0x21]);
}

#[test]
fn astral_chars_encode_as_surrogate_pairs() {
    // U+1D11E musical symbol G clef
    let w = WString::from_str("\u{1D11E}");
    assert_eq!(w.as_units().as_slice(), &[0xD834, 0xDD1E]);
}

#[test]
fn terminated_units_append_one_zero() {
    let w = WString::from_str("a");
    assert_eq!(w.as_units_z(), vec![0x61, 0]);
}

#[test]
fn decoding_reverses_encoding() {
    let text = "caf\u{e9} \u{1D11E} \u{4E2D}";
    let w = WString::from_str(text);
    assert_eq!(w.to_string(), text);
}

#[test]
fn unpaired_surrogates_decode_as_replacement() {
    assert_eq!(utf16_to_string(&[0xD834, 0x41]), "\u{FFFD}A");
    assert_eq!(utf16_to_string(&[0xDD1E]), "\u{FFFD}");
}

#[test]
fn wchars_slice_is_kept_verbatim() {
    let w = WString::from_wchars_slice(&[0x41, 0x42]);
    assert_eq!(w.to_string(), "AB");
}

#[test]
fn multi_string_splits_at_single_zeros() {
    let units = [0x61, 0x62, 0, 0x63, 0x64, 0, 0, 0x65];
    assert_eq!(parse_multi_z_str(&units), vec!["ab", "cd"]);
}

#[test]
fn multi_string_without_final_terminator_keeps_last_run() {
    let units = [0x61, 0x62, 0, 0x63, 0x64];
    assert_eq!(parse_multi_z_str(&units), vec!["ab", "cd"]);
}

#[test]
fn multi_string_with_leading_zero_is_empty() {
    assert_eq!(parse_multi_z_str(&[0, 0x61, 0]), Vec::<String>::new());
    assert_eq!(parse_multi_z_str(&[]), Vec::<String>::new());
}

#[test]
fn wstr_vecs_encode_each_text() {
    let texts = vec![String::from("a"), String::from("bc")];
    let ws = create_wstr_vecs(Some(&texts));
    assert_eq!(ws.len(), 2);
    assert_eq!(ws[0].as_units().as_slice(), &[0x61]);
    assert_eq!(ws[1].as_units().as_slice(), &[0x62, 0x63]);
    assert!(create_wstr_vecs(None).is_empty());
}
