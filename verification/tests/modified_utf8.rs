use steele::class::modified_utf8::{ModifiedUtf8Error, ModifiedUtf8String};

#[test]
fn test_simple_ascii() {
    let input = b"abcde";
    let output = ModifiedUtf8String::new(input.to_vec()).parse().unwrap();
    assert_eq!(String::from_utf8_lossy(input), output);
}

#[test]
fn test_lower_utf_8() {
    let input = [
        '%' as u8,
        0b110_00010,
        0b10_10_0011,
        0b110_00010,
        0b10_10_0011,
        0b110_00010,
        0b10_10_0011,
        '$' as u8,
    ];
    let output = ModifiedUtf8String::new(input.to_vec()).parse().unwrap();
    assert_eq!("%£££$", output);
}

#[test]
fn test_upper_utf_8() {
    let input = [
        0b1110_0010,
        0b10_000100,
        0b10_111011,
        'M' as u8,
        'A' as u8,
        'R' as u8,
        'I' as u8,
        'O' as u8,
        0b1110_0010,
        0b10_000100,
        0b10_111011,
    ];
    let output = ModifiedUtf8String::new(input.to_vec()).parse().unwrap();
    assert_eq!("℻MARIO℻", output);
}

#[test]
fn test_supplementary() {
    let input = [
        '$' as u8,
        '$' as u8,
        0b110_00010,
        0b10_100011,
        ModifiedUtf8String::WIDE_CHARACTER_PADDING,
        0b10_100000,
        0b10_111100,
        ModifiedUtf8String::WIDE_CHARACTER_PADDING,
        0b10_110010,
        0b10_100001,
        0b110_00010,
        0b10_100011,
        '$' as u8,
        '$' as u8,
    ];
    let output = ModifiedUtf8String::new(input.to_vec()).parse().unwrap();
    assert_eq!("$$£🂡£$$", output);
}

/// The playing-card ace U+1F0A1 in its six-byte surrogate form.
#[test]
fn test_supplementary_code_point() {
    let input = [0xED, 0xA0, 0xBC, 0xED, 0xB2, 0xA1];
    let output = ModifiedUtf8String::new(input.to_vec()).parse().unwrap();
    assert_eq!("\u{1F0A1}", output);
}

/// NUL is encoded as the two-byte sequence C0 80.
#[test]
fn test_encoded_nul() {
    let input = [0xC0, 0x80];
    let output = ModifiedUtf8String::new(input.to_vec()).parse().unwrap();
    assert_eq!("\u{0}", output);
}

/// A bare 0x00 is never taken for a literal NUL.
#[test]
fn test_bare_nul_rejected() {
    let result = ModifiedUtf8String::new(vec![0x00]).parse();
    assert_eq!(result, Err(ModifiedUtf8Error::UnexpectedNul));
    let result = ModifiedUtf8String::new(vec![b'a', 0x00, b'b']).parse();
    assert_eq!(result, Err(ModifiedUtf8Error::UnexpectedNul));
}

/// A multi-byte sequence that runs past the end of the input is a
/// truncation fault; a continuation byte in lead position is a
/// disallowed lead byte.
#[test]
fn test_malformed_sequences() {
    let result = ModifiedUtf8String::new(vec![0b110_00010]).parse();
    assert_eq!(result, Err(ModifiedUtf8Error::Truncated));
    let result = ModifiedUtf8String::new(vec![0xED, 0xA0, 0xBC]).parse();
    assert_eq!(result, Err(ModifiedUtf8Error::Truncated));
    let result = ModifiedUtf8String::new(vec![0b10_000000]).parse();
    assert_eq!(result, Err(ModifiedUtf8Error::DisallowedLeadByte(0b10_000000)));
    let result = ModifiedUtf8String::new(vec![0xF0, 0x90, 0x80, 0x80]).parse();
    assert_eq!(result, Err(ModifiedUtf8Error::DisallowedLeadByte(0xF0)));
}

/// The lead-byte classifiers partition the byte space as JVMS 4.4.7
/// describes.
#[test]
fn test_lead_byte_ranges() {
    assert!(ModifiedUtf8String::is_ascii_range(0x01));
    assert!(ModifiedUtf8String::is_ascii_range(0x7F));
    assert!(!ModifiedUtf8String::is_ascii_range(0x00));
    assert!(!ModifiedUtf8String::is_ascii_range(0x80));
    assert!(ModifiedUtf8String::is_null_or_80_to_7ff(0xC0));
    assert!(ModifiedUtf8String::is_null_or_80_to_7ff(0xDF));
    assert!(!ModifiedUtf8String::is_null_or_80_to_7ff(0xE0));
    assert!(ModifiedUtf8String::is_0800_to_ffff(0xE0));
    assert!(ModifiedUtf8String::is_0800_to_ffff(0xEF));
    assert!(!ModifiedUtf8String::is_0800_to_ffff(0xED));
}

/// Decoding the individual forms reconstructs the code points.
#[test]
fn test_form_decoders() {
    assert_eq!(ModifiedUtf8String::get_null_or_80_to_7ff(0xC2, 0xA3), '£');
    assert_eq!(ModifiedUtf8String::get_0800_to_ffff(0xE2, 0x84, 0xBB), '℻');
    assert_eq!(
        ModifiedUtf8String::get_supplementary(0xED, 0xA0, 0xBC, 0xED, 0xB2, 0xA1),
        '\u{1F0A1}'
    );
}
