use tor_circuits::error::{CircuitError, ErrorKind};
use tor_circuits::identity::{char_is_whitespace, strip_fingerprint, RelayIdentity};
use tor_circuits::text::chars_of;

const FP_A: &str = "FFA72BD683BC2FCF988356E6BEC1E490F313FB07";

const BYTES_A: [u8; 20] = [
    0xFF, 0xA7, 0x2B, 0xD6, 0x83, 0xBC, 0x2F, 0xCF, 0x98, 0x83, 0x56, 0xE6, 0xBE, 0xC1, 0xE4, 0x90,
    0xF3, 0x13, 0xFB, 0x07,
];

#[test]
fn fingerprint_decodes_to_its_bytes() {
    let id = RelayIdentity::from_fingerprint(FP_A).unwrap();
    assert_eq!(id.as_bytes(), &BYTES_A[..]);
}

#[test]
fn fingerprint_reads_both_cases() {
    let lower = RelayIdentity::from_fingerprint("00194c4feceb999cf8c7ef1d202ae9bf24d17545").unwrap();
    let upper = RelayIdentity::from_fingerprint("00194C4FECEB999CF8C7EF1D202AE9BF24D17545").unwrap();
    let mixed = RelayIdentity::from_fingerprint("00194c4FECEB999cf8c7EF1D202ae9bf24D17545").unwrap();
    assert_eq!(lower, upper);
    assert_eq!(lower, mixed);
    assert_eq!(lower.as_bytes()[0], 0x00);
    assert_eq!(lower.as_bytes()[1], 0x19);
    assert_eq!(lower.as_bytes()[19], 0x45);
}

#[test]
fn fingerprint_ignores_spaces() {
    let plain = RelayIdentity::from_fingerprint(FP_A).unwrap();
    let spaced =
        RelayIdentity::from_fingerprint("FFA7 2BD6 83BC 2FCF 9883 56E6 BEC1 E490 F313 FB07").unwrap();
    let ragged = RelayIdentity::from_fingerprint("  F FA72BD683BC2FCF988356E6BEC1E490F313FB0   7 ")
        .unwrap();
    assert_eq!(plain, spaced);
    assert_eq!(plain, ragged);
}

#[test]
fn fingerprint_ignores_other_whitespace() {
    let plain = RelayIdentity::from_fingerprint(FP_A).unwrap();
    let odd = RelayIdentity::from_fingerprint("FFA72BD683\tBC2FCF9883\n56E6BEC1E4\r\n90F313FB07\n")
        .unwrap();
    assert_eq!(plain, odd);
}

#[test]
fn strip_keeps_everything_else_in_order() {
    let digits = strip_fingerprint(" a b\tc\nd ");
    assert_eq!(digits, vec!['a', 'b', 'c', 'd']);
    assert_eq!(strip_fingerprint(""), Vec::<char>::new());
    assert_eq!(strip_fingerprint("x-y"), vec!['x', '-', 'y']);
}

#[test]
fn fingerprint_of_wrong_length_is_refused() {
    let cases = [
        "",
        "FF",
        "FFA72BD683BC2FCF988356E6BEC1E490F313FB0",
        "FFA72BD683BC2FCF988356E6BEC1E490F313FB070",
        "FFA72BD683BC2FCF988356E6BEC1E490F313FB0700",
        "FFA72BD683BC2FCF988356E6BEC1E490F313FB",
    ];
    for text in cases {
        assert_eq!(
            RelayIdentity::from_fingerprint(text),
            Err(CircuitError::InvalidFingerprint)
        );
    }
}

#[test]
fn fingerprint_with_other_characters_is_refused() {
    let cases = [
        "GFA72BD683BC2FCF988356E6BEC1E490F313FB07",
        "FFA72BD683BC2FCF988356E6BEC1E490F313FB0-",
        "0xA72BD683BC2FCF988356E6BEC1E490F313FB07",
        "FFA72BD683BC2FCF988356E6BEC1E490F313FB0\u{e9}",
        "\u{ff26}FA72BD683BC2FCF988356E6BEC1E490F313FB07",
    ];
    for text in cases {
        assert_eq!(
            RelayIdentity::from_fingerprint(text),
            Err(CircuitError::InvalidFingerprint)
        );
    }
}

#[test]
fn invalid_fingerprint_is_a_configuration_error() {
    let error = RelayIdentity::from_fingerprint("not a fingerprint").unwrap_err();
    assert_eq!(error.kind(), ErrorKind::Configuration);
}

#[test]
fn identity_prints_as_lower_case_hex() {
    let id = RelayIdentity::from_fingerprint(FP_A).unwrap();
    assert_eq!(id.to_hex(), "ffa72bd683bc2fcf988356e6bec1e490f313fb07");
    let zero = RelayIdentity::from_bytes(&[0u8; 20]).unwrap();
    assert_eq!(zero.to_hex(), "0000000000000000000000000000000000000000");
}

#[test]
fn hex_text_reads_back_as_the_same_identity() {
    let mut bytes = [0u8; 20];
    for (i, byte) in bytes.iter_mut().enumerate() {
        *byte = (i * 13 + 7) as u8;
    }
    let id = RelayIdentity::from_bytes(&bytes).unwrap();
    let again = RelayIdentity::from_fingerprint(&id.to_hex()).unwrap();
    assert_eq!(id, again);
    assert_eq!(again.as_bytes(), &bytes[..]);
    assert!(id.same_as(&again));
}

#[test]
fn identity_takes_exactly_twenty_bytes() {
    assert!(RelayIdentity::from_bytes(&[1u8; 19]).is_none());
    assert!(RelayIdentity::from_bytes(&[1u8; 21]).is_none());
    assert!(RelayIdentity::from_bytes(&[]).is_none());
    let id = RelayIdentity::from_bytes(&BYTES_A).unwrap();
    assert_eq!(id.as_bytes(), &BYTES_A[..]);
}

#[test]
fn different_identities_are_told_apart() {
    let a = RelayIdentity::from_fingerprint(FP_A).unwrap();
    let b = RelayIdentity::from_fingerprint("FFA72BD683BC2FCF988356E6BEC1E490F313FB08").unwrap();
    assert!(!a.same_as(&b));
    assert!(a.same_as(&a));
    assert_ne!(a.to_hex(), b.to_hex());
}

#[test]
fn text_gives_its_characters_in_order() {
    assert_eq!(chars_of("a.b"), vec!['a', '.', 'b']);
    assert_eq!(chars_of(""), Vec::<char>::new());
    assert_eq!(chars_of("\u{e9}t\u{e9}"), vec!['\u{e9}', 't', '\u{e9}']);
}

#[test]
fn long_fingerprint_text_is_read_quickly() {
    let mut text = " ".repeat(200_000);
    text.push_str("FFA72BD683BC2FCF988356E6BEC1E490F313FB07");
    text.push_str(&"\n".repeat(200_000));
    let id = RelayIdentity::from_fingerprint(&text).unwrap();
    assert_eq!(id.to_hex(), "ffa72bd683bc2fcf988356e6bec1e490f313fb07");
}

#[test]
fn whitespace_is_what_unicode_says() {
    for code in 0..=0x10ffffu32 {
        if let Some(c) = char::from_u32(code) {
            assert_eq!(char_is_whitespace(c), c.is_whitespace(), "U+{:04X}", code);
        }
    }
}

#[test]
fn fingerprint_ignores_unicode_whitespace() {
    let plain = RelayIdentity::from_fingerprint(FP_A).unwrap();
    let odd = RelayIdentity::from_fingerprint(
        "FFA72BD683\u{a0}BC2FCF9883\u{2003}56E6BEC1E4\u{3000}90F313FB07\u{85}",
    )
    .unwrap();
    assert_eq!(plain, odd);
    assert_eq!(
        RelayIdentity::from_fingerprint("FFA72BD683\u{200b}BC2FCF988356E6BEC1E490F313FB07"),
        Err(CircuitError::InvalidFingerprint)
    );
}
