use dexrs::error::DexError;
use dexrs::utf::{
    mutf8_len, mutf8_to_str, mutf8_to_str_lossy, mutf8_to_utf16, mutf8_to_utf16_lossy,
    str_to_mutf8, str_to_mutf8_lossy, str_to_utf16, utf16_to_mutf8, Options,
};

#[test]
fn test_str_to_mutf8() {
    let data = "foobar";
    assert_eq!(str_to_mutf8(data), b"foobar\0");
}

#[test]
fn test_mutf8_to_str() {
    let data = &[102, 111, 111, 98, 97, 114, 0];
    assert_eq!(mutf8_to_str_lossy(data), "foobar".to_string());
}

#[test]
fn nul_and_ascii_round_trip() {
    let input = [0xC0u8, 0x80, 0x41, 0x00];
    assert_eq!(mutf8_to_str(&input), Ok("\u{0}A".to_string()));
    assert_eq!(str_to_mutf8("\u{0}A"), input.to_vec());
    assert_eq!(mutf8_to_utf16(&input), Ok(vec![0x0000, 0x0041]));
}

#[test]
fn two_and_three_byte_sequences() {
    // U+00E9, U+20AC
    assert_eq!(str_to_mutf8("\u{e9}\u{20ac}"), vec![0xC3, 0xA9, 0xE2, 0x82, 0xAC, 0x00]);
    assert_eq!(
        mutf8_to_str(&[0xC3, 0xA9, 0xE2, 0x82, 0xAC, 0x00]),
        Ok("\u{e9}\u{20ac}".to_string())
    );
    assert_eq!(mutf8_to_utf16(&[0xDF, 0xBF, 0xEF, 0xBF, 0xBF, 0x00]), Ok(vec![0x07FF, 0xFFFF]));
}

#[test]
fn supplementary_is_pair_of_three_byte_sequences() {
    // U+1F600 is the surrogate pair D83D DE00.
    let encoded = str_to_mutf8("\u{1F600}");
    assert_eq!(encoded, vec![0xED, 0xA0, 0xBD, 0xED, 0xB8, 0x80, 0x00]);
    assert_eq!(mutf8_to_utf16(&encoded), Ok(vec![0xD83D, 0xDE00]));
    assert_eq!(mutf8_to_str(&encoded), Ok("\u{1F600}".to_string()));
    assert_eq!(str_to_utf16("a\u{1F600}"), vec![0x61, 0xD83D, 0xDE00]);
}

#[test]
fn empty_inputs() {
    assert_eq!(mutf8_to_str(&[]), Ok(String::new()));
    assert_eq!(mutf8_to_str(&[0x00]), Ok(String::new()));
    assert_eq!(str_to_mutf8(""), vec![0x00]);
    assert_eq!(mutf8_to_str_lossy(&[]), String::new());
}

#[test]
fn last_byte_is_dropped_whatever_it_is() {
    assert_eq!(mutf8_to_str(&[0x41, 0x42]), Ok("A".to_string()));
}

#[test]
fn strict_rejects_truncated_sequence() {
    assert_eq!(
        mutf8_to_utf16(&[0x41, 0xE2, 0x82, 0x00]),
        Err(DexError::MalformedMUTF8Sequence { idx: 1, len: 3 })
    );
    assert_eq!(
        mutf8_to_str(&[0xC3, 0x00]),
        Err(DexError::MalformedMUTF8Sequence { idx: 0, len: 1 })
    );
}

#[test]
fn strict_rejects_bad_lead_and_continuation() {
    assert_eq!(
        mutf8_to_utf16(&[0x80, 0x00]),
        Err(DexError::MalformedMUTF8Sequence { idx: 0, len: 1 })
    );
    assert_eq!(
        mutf8_to_utf16(&[0x41, 0x42, 0xF0, 0x9F, 0x98, 0x80, 0x00]),
        Err(DexError::MalformedMUTF8Sequence { idx: 2, len: 6 })
    );
    assert_eq!(
        mutf8_to_utf16(&[0xC3, 0x41, 0x00]),
        Err(DexError::MalformedMUTF8Sequence { idx: 0, len: 2 })
    );
}

#[test]
fn strict_rejects_unpaired_surrogate() {
    // a lone lead surrogate D83D, well formed as bytes
    assert_eq!(mutf8_to_utf16(&[0xED, 0xA0, 0xBD, 0x00]), Ok(vec![0xD83D]));
    assert_eq!(mutf8_to_str(&[0xED, 0xA0, 0xBD, 0x00]), Err(DexError::Mutf8DecodeError));
    // a lone trail surrogate
    assert_eq!(mutf8_to_str(&[0xED, 0xB8, 0x80, 0x41, 0x00]), Err(DexError::Mutf8DecodeError));
}

#[test]
fn lossy_replaces_what_is_malformed() {
    assert_eq!(mutf8_to_utf16_lossy(&[0x41, 0x80, 0x42, 0x00]), vec![0x41, 0xFFFD, 0x42]);
    assert_eq!(mutf8_to_str_lossy(&[0x41, 0xE2, 0x82, 0x00]), "A\u{FFFD}\u{FFFD}".to_string());
    assert_eq!(mutf8_to_str_lossy(&[0xED, 0xA0, 0xBD, 0x41, 0x00]), "\u{FFFD}A".to_string());
}

#[test]
fn encoder_options() {
    let units = [0x0000u16, 0x0041];
    assert_eq!(utf16_to_mutf8(&units, &Options::new()), vec![0xC0, 0x80, 0x41, 0x00]);
    assert_eq!(
        utf16_to_mutf8(&units, &Options::new().use_short_zero(true)),
        vec![0x00, 0x41, 0x00]
    );
    let lone = [0x0041u16, 0xD83D, 0x0042, 0xDE00];
    assert_eq!(
        utf16_to_mutf8(&lone, &Options::new().replace_bad_surrogates(true)),
        vec![0x41, 0x3F, 0x42, 0x3F, 0x00]
    );
    assert_eq!(
        utf16_to_mutf8(&lone, &Options::new()),
        vec![0x41, 0xED, 0xA0, 0xBD, 0x42, 0xED, 0xB8, 0x80, 0x00]
    );
    let pair = [0xD83Du16, 0xDE00];
    assert_eq!(
        utf16_to_mutf8(&pair, &Options::new().replace_bad_surrogates(true)),
        vec![0xED, 0xA0, 0xBD, 0xED, 0xB8, 0x80, 0x00]
    );
    assert_eq!(str_to_mutf8_lossy("a\u{1F600}"), vec![0x61, 0xED, 0xA0, 0xBD, 0xED, 0xB8, 0x80, 0x00]);
}

#[test]
fn options_builders() {
    let o = Options::new();
    assert!(!o.short_zero && !o.replace_bad_surrogates);
    let o = o.use_short_zero(true).replace_bad_surrogates(true);
    assert!(o.short_zero && o.replace_bad_surrogates);
    let o = o.use_short_zero(false);
    assert!(!o.short_zero && o.replace_bad_surrogates);
}

#[test]
fn utf16_round_trip_on_samples() {
    let samples: [&[u16]; 6] = [
        &[],
        &[0x0000],
        &[0x0001, 0x007f, 0x0080, 0x07ff, 0x0800, 0xffff],
        &[0xD83D, 0xDE00],
        &[0xDE00, 0xD83D],
        &[0xD800, 0x0041],
    ];
    for units in samples {
        let bytes = utf16_to_mutf8(units, &Options::new());
        assert_eq!(mutf8_to_utf16(&bytes), Ok(units.to_vec()));
    }
}

#[test]
fn string_round_trip_on_samples() {
    for text in ["", "foobar", "\u{0}", "Hi \u{e9}\u{20ac} \u{1F600}!", "\u{10FFFF}\u{FFFF}"] {
        assert_eq!(mutf8_to_str(&str_to_mutf8(text)), Ok(text.to_string()));
    }
}

#[test]
fn length_counts_by_lead_byte() {
    assert_eq!(mutf8_len(&[0x41, 0x42, 0x00], 2), 2);
    assert_eq!(mutf8_len(&[0xC3, 0xA9, 0xE2, 0x82, 0xAC, 0x00], 5), 2);
    assert_eq!(mutf8_len(&[0xF0, 0x9F, 0x98, 0x80, 0x00], 4), 2);
    assert_eq!(mutf8_len(&[0xF0, 0x00], 1), 2);
    assert_eq!(mutf8_len(&[], 0), 0);
}

#[test]
fn hello_world_both_ways() {
    let data = b"Hello, World!\0";
    let name = mutf8_to_str(data).unwrap();
    assert_eq!(name, "Hello, World!");
    assert_eq!(mutf8_to_str_lossy(data), name);
    assert_eq!(str_to_mutf8(&name), data.to_vec());
}
