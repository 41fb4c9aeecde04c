use totp::{counter_bytes, get_hotp, get_hotp_dt, hotp_from_digest, Secret, TotpError};

const RFC_KEY_BASE32: &str = "GEZDGNBVGY3TQOJQGEZDGNBVGY3TQOJQ";

fn rfc_secret() -> Secret {
    Secret::from_base32(RFC_KEY_BASE32).expect("the key is valid base32")
}

fn digest_from_hex(hex: &str) -> Vec<u8> {
    let digits: Vec<u8> = hex
        .bytes()
        .map(|c| match c {
            b'0'..=b'9' => c - b'0',
            _ => c - b'a' + 10,
        })
        .collect();
    digits.chunks(2).map(|pair| pair[0] * 16 + pair[1]).collect()
}

#[test]
fn rfc_key_decodes_to_ascii_digits() {
    assert_eq!(rfc_secret().as_bytes(), b"12345678901234567890");
}

#[test]
fn rfc4226_six_digit_vectors() {
    let secret = rfc_secret();
    let expected: [u32; 10] = [
        755224, 287082, 359152, 969429, 338314, 254676, 287922, 162583, 399871, 520489,
    ];
    for (counter, code) in expected.iter().enumerate() {
        assert_eq!(get_hotp(&secret, counter as u64, 6), Ok(*code));
    }
}

#[test]
fn rfc_vectors_at_eight_digits() {
    let secret = rfc_secret();
    assert_eq!(get_hotp(&secret, 0, 8), Ok(84755224));
    assert_eq!(get_hotp(&secret, 1, 8), Ok(94287082));
    assert_eq!(get_hotp(&secret, 37037036, 8), Ok(7081804));
}

#[test]
fn code_keeps_its_value_when_it_has_fewer_digits_than_the_width() {
    // RFC 6238 prints this code as 07081804.
    let code = get_hotp(&rfc_secret(), 37037036, 8).unwrap();
    assert_eq!(code, 7081804);
    assert_eq!(format!("{:08}", code), "07081804");
}

#[test]
fn large_counter_uses_all_eight_message_bytes() {
    // HMAC-SHA1 of the RFC key over 666666666 = 0x27bc86aa, computed independently.
    assert_eq!(get_hotp(&rfc_secret(), 666666666, 8), Ok(65353130));
}

#[test]
fn repeated_calls_give_the_same_code() {
    let secret = rfc_secret();
    for counter in [0u64, 1, 2, 1 << 40, u64::MAX] {
        for width in 1u8..=9 {
            let first = get_hotp(&secret, counter, width);
            let second = get_hotp(&secret, counter, width);
            assert!(first.is_ok());
            assert_eq!(first, second);
        }
    }
}

#[test]
fn code_is_below_ten_to_the_width() {
    let secret = rfc_secret();
    for counter in 0u64..200 {
        for width in 1u8..=9 {
            let code = get_hotp(&secret, counter, width).unwrap();
            assert!(code < 10u32.pow(width as u32));
        }
    }
}

#[test]
fn widths_share_their_low_digits() {
    let secret = rfc_secret();
    let nine = get_hotp(&secret, 3, 9).unwrap();
    for width in 1u8..=9 {
        assert_eq!(get_hotp(&secret, 3, width), Ok(nine % 10u32.pow(width as u32)));
    }
}

#[test]
fn zero_width_is_a_configuration_error() {
    assert_eq!(get_hotp(&rfc_secret(), 0, 0), Err(TotpError::Config));
    assert_eq!(hotp_from_digest(&[0u8; 20], 0), Err(TotpError::Config));
}

#[test]
fn width_above_nine_is_a_configuration_error() {
    assert_eq!(get_hotp(&rfc_secret(), 0, 10), Err(TotpError::Config));
    assert_eq!(get_hotp(&rfc_secret(), 0, 255), Err(TotpError::Config));
    assert_eq!(hotp_from_digest(&[0u8; 20], 10), Err(TotpError::Config));
}

#[test]
fn empty_key_gives_its_code_or_a_hash_error() {
    let secret = Secret::from_base32("").unwrap();
    assert_eq!(secret.as_bytes().len(), 0);
    // HMAC-SHA1 with an empty key over counter 5, computed independently, gives 435986.
    // Some OpenSSL versions take no empty key: then the hash fails, and no code comes out.
    let code = get_hotp(&secret, 5, 6);
    assert!(code == Ok(435986) || code == Err(TotpError::Crypto));
    assert_eq!(get_hotp(&secret, 5, 6), code);
}

#[test]
fn dynamic_truncation_of_the_rfc_example() {
    // RFC 4226, section 5.4: offset 10, bytes 50 ef 7f 19.
    let digest = digest_from_hex("1f8698690e02ca16618550ef7f19da8e945b555a");
    assert_eq!(get_hotp_dt(&digest), 0x50ef7f19);
    assert_eq!(hotp_from_digest(&digest, 6), Ok(872921));
}

#[test]
fn dynamic_truncation_clears_the_top_bit() {
    // Offset 0, bytes cc 93 cf 18: the RFC's counter 0.
    let digest = digest_from_hex("cc93cf18508d94934c64b65d8ba7667fb7cde4b0");
    assert_eq!(get_hotp_dt(&digest), 0x4c93cf18);
    assert_eq!(get_hotp_dt(&digest), 1284755224);
    assert_eq!(hotp_from_digest(&digest, 6), Ok(755224));
}

#[test]
fn dynamic_truncation_at_the_last_offset() {
    let mut digest = [0u8; 20];
    digest[15] = 0xff;
    digest[16] = 0x01;
    digest[17] = 0x02;
    digest[18] = 0x03;
    digest[19] = 0xaf;
    assert_eq!(get_hotp_dt(&digest), 0x7f010203);
    digest[19] = 0xa0;
    digest[0] = 0x12;
    digest[3] = 0x34;
    assert_eq!(get_hotp_dt(&digest), 0x12000034);
}

#[test]
fn digest_of_wrong_length_is_a_hash_error() {
    assert_eq!(hotp_from_digest(&[0u8; 19], 6), Err(TotpError::Crypto));
    assert_eq!(hotp_from_digest(&[0u8; 21], 6), Err(TotpError::Crypto));
    assert_eq!(hotp_from_digest(&[], 6), Err(TotpError::Crypto));
    assert_eq!(hotp_from_digest(&[0u8; 20], 6), Ok(0));
}

#[test]
fn counter_bytes_are_big_endian() {
    assert_eq!(counter_bytes(0), [0u8; 8]);
    assert_eq!(counter_bytes(1), [0, 0, 0, 0, 0, 0, 0, 1]);
    assert_eq!(
        counter_bytes(0x0102030405060708),
        [1, 2, 3, 4, 5, 6, 7, 8]
    );
    assert_eq!(counter_bytes(u64::MAX), [0xff; 8]);
    for counter in [37037036u64, 1 << 63, 0xdead_beef_0000_cafe] {
        assert_eq!(counter_bytes(counter), counter.to_be_bytes());
    }
}
