use totp::{decode_secret, Secret, TotpError};

fn encode(bytes: &[u8]) -> String {
    base32::encode(base32::Alphabet::RFC4648 { padding: true }, bytes)
}

#[test]
fn decodes_rfc4648_examples() {
    let cases: [(&str, &[u8]); 7] = [
        ("", b""),
        ("MY======", b"f"),
        ("MZXQ====", b"fo"),
        ("MZXW6===", b"foo"),
        ("MZXW6YQ=", b"foob"),
        ("MZXW6YTB", b"fooba"),
        ("MZXW6YTBOI======", b"foobar"),
    ];
    for (text, bytes) in cases {
        assert_eq!(Secret::from_base32(text).unwrap().as_bytes(), bytes);
        assert_eq!(decode_secret(text).unwrap().as_bytes(), bytes);
    }
}

#[test]
fn decodes_a_typical_shared_secret() {
    let secret = Secret::from_base32("JBSWY3DPEHPK3PXP").unwrap();
    assert_eq!(secret.as_bytes(), b"Hello!\xde\xad\xbe\xef");
}

#[test]
fn encode_then_decode_gives_the_bytes_back() {
    let mut bytes: Vec<u8> = Vec::new();
    for length in 0usize..70 {
        let text = encode(&bytes);
        assert_eq!(decode_secret(&text).unwrap().as_bytes(), &bytes[..]);
        assert_eq!(Secret::from_base32(&text).unwrap().as_bytes(), &bytes[..]);
        bytes.push((length * 37 + 11) as u8);
    }
    let every_byte: Vec<u8> = (0u8..=255).collect();
    assert_eq!(
        decode_secret(&encode(&every_byte)).unwrap().as_bytes(),
        &every_byte[..]
    );
}

#[test]
fn invalid_characters_are_rejected() {
    for text in ["not base32!", "MZXW6YT1", "MZXW6YT8", "MZ XW6YQ", "MZXW6YQ\u{e9}", "*"] {
        assert!(Secret::from_base32(text).is_none());
        assert!(matches!(decode_secret(text), Err(TotpError::Decode)));
    }
}

#[test]
fn exactly_the_base32_symbols_are_accepted() {
    for code in 0u32..=0x2ff {
        let c = char::from_u32(code).unwrap();
        let symbol = c.is_ascii_alphabetic() || ('2'..='7').contains(&c);
        let first = format!("{}ZXW6YTB", c);
        let inside = format!("MZXW{}YTB", c);
        for text in [first, inside] {
            assert_eq!(Secret::from_base32(&text).is_some(), symbol);
            assert_eq!(decode_secret(&text).is_ok(), symbol);
        }
        // In the last place `=` is a closing run of one.
        let last = format!("MZXW6YT{}", c);
        assert_eq!(Secret::from_base32(&last).is_some(), symbol || c == '=');
        assert_eq!(decode_secret(&last).is_ok(), symbol || c == '=');
    }
}

#[test]
fn letters_count_in_either_case() {
    assert_eq!(Secret::from_base32("mzxw6ytb").unwrap().as_bytes(), b"fooba");
    assert_eq!(Secret::from_base32("MzXw6yTb").unwrap().as_bytes(), b"fooba");
    assert_eq!(Secret::from_base32("mzxw6yq=").unwrap().as_bytes(), b"foob");
}

#[test]
fn malformed_length_is_rejected() {
    for text in [
        "A",
        "MZXW6",
        "MZXW6YT",
        "MZXW6YTBO",
        "MY=====",
        "MY=======",
        "MZXW6YTBMZXW",
        "AAAAAAAAAAAAAAAAAAAAAAAA====",
    ] {
        assert!(Secret::from_base32(text).is_none());
        assert!(matches!(decode_secret(text), Err(TotpError::Decode)));
    }
}

#[test]
fn malformed_padding_is_rejected() {
    for text in [
        "=",
        "========",
        "M=======",
        "MZX=====",
        "MZXW6Y==",
        "MZ=W6YTB",
        "=ZXW6YTB",
        "MY=====A",
        "MY====A=",
        "MZXW6YTB========",
        "MY======MZXW6YTB",
    ] {
        assert!(Secret::from_base32(text).is_none());
        assert!(matches!(decode_secret(text), Err(TotpError::Decode)));
    }
}

#[test]
fn every_closing_run_of_padding_is_accepted() {
    let cases: [(&str, usize); 6] = [
        ("MZXW6YTB", 5),
        ("MZXW6YQ=", 4),
        ("MZXW6===", 3),
        ("MZXQ====", 2),
        ("MY======", 1),
        ("MZXW6YTBMZXW6YQ=", 9),
    ];
    for (text, length) in cases {
        assert_eq!(Secret::from_base32(text).unwrap().as_bytes().len(), length);
    }
}

#[test]
fn twenty_zero_bytes_from_base32() {
    let secret = Secret::from_base32("AAAAAAAAAAAAAAAAAAAAAAAAAAAAAAAA").unwrap();
    assert_eq!(secret.as_bytes(), &[0u8; 20]);
    assert_eq!(encode(&[0u8; 20]), "AAAAAAAAAAAAAAAAAAAAAAAAAAAAAAAA");
}

#[test]
fn error_messages_differ() {
    let errors = [
        TotpError::Decode,
        TotpError::Clock,
        TotpError::Config,
        TotpError::Crypto,
    ];
    for (i, a) in errors.iter().enumerate() {
        assert!(!a.message().is_empty());
        for b in errors.iter().skip(i + 1) {
            assert_ne!(a, b);
            assert_ne!(a.message(), b.message());
        }
    }
    assert_eq!(TotpError::Decode.message(), "secret is not valid base32");
}
