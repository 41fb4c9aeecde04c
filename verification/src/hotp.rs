//! HMAC-based one-time passwords (RFC 4226): from a key and a counter to a
//! decimal code.

use vstd::prelude::*;
use vstd::arithmetic::power::pow;
use crate::error::TotpError;
use crate::hmac::{hmac_sha1, hmac_sha1_tag, MAX_KEY_LEN};
use crate::secret::Secret;

verus! {

/// The length of an HMAC-SHA1 tag, in bytes.
pub const DIGEST_LEN: usize = 20;

/// The widest code: the truncated value has 31 bits, and `10^9 < 2^31`.
pub const MAX_CODE_WIDTH: u8 = 9;

/// A code has between one and nine digits.
pub open spec fn valid_code_width(code_width: u8) -> bool {
    1 <= code_width <= MAX_CODE_WIDTH
}

/// The counter as the hashed message: eight bytes, most significant first.
pub open spec fn counter_message(counter: u64) -> Seq<u8> {
    Seq::new(8, |i: int| (counter as int / pow(256, (7 - i) as nat) % 256) as u8)
}

/// Where the four selected bytes start: the low four bits of the last byte.
pub open spec fn dt_offset(digest: Seq<u8>) -> int {
    digest[DIGEST_LEN - 1] as int % 16
}

/// The four bytes at the offset, read as a number, most significant first.
pub open spec fn dt_word(digest: Seq<u8>) -> int {
    let o = dt_offset(digest);
    digest[o] * 0x100_0000 + digest[o + 1] * 0x1_0000 + digest[o + 2] * 0x100 + digest[o + 3]
}

/// Dynamic truncation: the last 31 bits of the selected word.
pub open spec fn dynamic_truncation(digest: Seq<u8>) -> int {
    dt_word(digest) % 0x8000_0000
}

/// The code that a digest gives at a width: the truncated value modulo
/// `10^code_width`.
pub open spec fn hotp_value(digest: Seq<u8>, code_width: u8) -> int {
    dynamic_truncation(digest) % pow(10, code_width as nat)
}

/// What a digest and a width lead to: a configuration error for a width
/// outside `1..=9`, a hash error for a digest that is not 20 bytes long, else
/// the code.
pub open spec fn hotp_of_digest(digest: Seq<u8>, code_width: u8) -> Result<u32, TotpError> {
    if !valid_code_width(code_width) {
        Err(TotpError::Config)
    } else if digest.len() != DIGEST_LEN {
        Err(TotpError::Crypto)
    } else {
        Ok(hotp_value(digest, code_width) as u32)
    }
}

/// The results that computing a code may have. A width outside `1..=9` is
/// always a configuration error and a key that the hash cannot take always a
/// hash error. Otherwise the hash decides: it fails, or its tag gives the
/// code.
pub open spec fn hotp_outcome(
    key: Seq<u8>,
    counter: u64,
    code_width: u8,
    r: Result<u32, TotpError>,
) -> bool {
    if !valid_code_width(code_width) {
        r == Err::<u32, TotpError>(TotpError::Config)
    } else if key.len() > MAX_KEY_LEN {
        r == Err::<u32, TotpError>(TotpError::Crypto)
    } else {
        r == Err::<u32, TotpError>(TotpError::Crypto) || r == hotp_of_digest(
            hmac_sha1(key, counter_message(counter)),
            code_width,
        )
    }
}

/// The powers of 256 that place the eight bytes of a counter.
pub proof fn lemma_pow256()
    ensures
        pow(256, 0) == 1,
        pow(256, 1) == 0x100,
        pow(256, 2) == 0x1_0000,
        pow(256, 3) == 0x100_0000,
        pow(256, 4) == 0x1_0000_0000,
        pow(256, 5) == 0x100_0000_0000,
        pow(256, 6) == 0x1_0000_0000_0000,
        pow(256, 7) == 0x100_0000_0000_0000,
{
    reveal_with_fuel(pow, 8);
}

/// The powers of ten up to the widest code.
pub proof fn lemma_pow10(n: nat)
    requires
        n <= MAX_CODE_WIDTH,
    ensures
        1 <= pow(10, n) <= 1_000_000_000,
        n == 0 ==> pow(10, n) == 1,
        n >= 1 ==> pow(10, n) == 10 * pow(10, (n - 1) as nat),
        n >= 1 ==> pow(10, n) >= 10,
{
    reveal_with_fuel(pow, 10);
}

/// A code is never negative and has at most `code_width` digits: it lies in
/// `0 .. 10^code_width`, whatever the digest.
pub proof fn lemma_code_in_range(digest: Seq<u8>, code_width: u8)
    requires
        valid_code_width(code_width),
    ensures
        0 <= hotp_value(digest, code_width) < pow(10, code_width as nat),
        hotp_value(digest, code_width) <= 999_999_999,
{
    lemma_pow10(code_width as nat);
}

/// Computing a code twice for one key, counter and width gives one result,
/// unless the hash itself failed on one of the two occasions. In particular
/// two codes that were both produced are the same code.
pub proof fn lemma_hotp_deterministic(
    key: Seq<u8>,
    counter: u64,
    code_width: u8,
    first: Result<u32, TotpError>,
    second: Result<u32, TotpError>,
)
    requires
        hotp_outcome(key, counter, code_width, first),
        hotp_outcome(key, counter, code_width, second),
    ensures
        first == second || first == Err::<u32, TotpError>(TotpError::Crypto) || second == Err::<
            u32,
            TotpError,
        >(TotpError::Crypto),
        first.is_ok() && second.is_ok() ==> first == second,
{
}

/// Every code that may be produced lies in `0 .. 10^code_width`, and the
/// only errors are a configuration error, for a width outside `1..=9` and for
/// nothing else, and a hash error.
pub proof fn lemma_hotp_outcome_in_range(
    key: Seq<u8>,
    counter: u64,
    code_width: u8,
    r: Result<u32, TotpError>,
)
    requires
        hotp_outcome(key, counter, code_width, r),
    ensures
        r matches Ok(c) ==> valid_code_width(code_width) && 0 <= c < pow(10, code_width as nat),
        r matches Err(e) ==> e == TotpError::Config || e == TotpError::Crypto,
        r == Err::<u32, TotpError>(TotpError::Config) <==> !valid_code_width(code_width),
{
    if valid_code_width(code_width) {
        lemma_code_in_range(hmac_sha1(key, counter_message(counter)), code_width);
    }
}

/// The eight bytes of a counter, most significant first.
pub fn counter_bytes(counter: u64) -> (bytes: [u8; 8])
    ensures
        bytes@ == counter_message(counter),
{
    let bytes: [u8; 8] = [
        (counter >> 56) as u8,
        ((counter >> 48) & 0xff) as u8,
        ((counter >> 40) & 0xff) as u8,
        ((counter >> 32) & 0xff) as u8,
        ((counter >> 24) & 0xff) as u8,
        ((counter >> 16) & 0xff) as u8,
        ((counter >> 8) & 0xff) as u8,
        (counter & 0xff) as u8,
    ];
    proof {
        lemma_pow256();
        assert(counter >> 56 == counter / 0x100_0000_0000_0000 % 256) by (bit_vector);
        assert((counter >> 48) & 0xff == counter / 0x1_0000_0000_0000 % 256) by (bit_vector);
        assert((counter >> 40) & 0xff == counter / 0x100_0000_0000 % 256) by (bit_vector);
        assert((counter >> 32) & 0xff == counter / 0x1_0000_0000 % 256) by (bit_vector);
        assert((counter >> 24) & 0xff == counter / 0x100_0000 % 256) by (bit_vector);
        assert((counter >> 16) & 0xff == counter / 0x1_0000 % 256) by (bit_vector);
        assert((counter >> 8) & 0xff == counter / 0x100 % 256) by (bit_vector);
        assert(counter & 0xff == counter / 1 % 256) by (bit_vector);
        assert(bytes@ =~= counter_message(counter));
    }
    bytes
}

/// Dynamic truncation of an HMAC-SHA1 tag: the low four bits of the last
/// byte choose four bytes, whose last 31 bits are the result.
pub fn get_hotp_dt(hmac_bytes: &[u8]) -> (truncated: u32)
    requires
        hmac_bytes@.len() == DIGEST_LEN,
    ensures
        truncated == dynamic_truncation(hmac_bytes@),
        truncated < 0x8000_0000,
{
    let last: u8 = hmac_bytes[19];
    let offset: usize = (last & 0xf) as usize;
    assert(last & 0xf == last % 16) by (bit_vector);
    let b0: u8 = hmac_bytes[offset];
    let b1: u8 = hmac_bytes[offset + 1];
    let b2: u8 = hmac_bytes[offset + 2];
    let b3: u8 = hmac_bytes[offset + 3];
    let word: u32 = ((b0 as u32) << 24) | ((b1 as u32) << 16) | ((b2 as u32) << 8) | (b3 as u32);
    assert(word == b0 * 0x100_0000 + b1 * 0x1_0000 + b2 * 0x100 + b3) by (bit_vector)
        requires
            word == ((b0 as u32) << 24) | ((b1 as u32) << 16) | ((b2 as u32) << 8) | (b3 as u32),
    ;
    assert(word & 0x7fff_ffff == word % 0x8000_0000) by (bit_vector);
    word & 0x7fff_ffff
}

/// Ten to the power of a code width.
fn ten_to(code_width: u8) -> (power: u32)
    requires
        code_width <= MAX_CODE_WIDTH,
    ensures
        power == pow(10, code_width as nat),
{
    let mut power: u32 = 1;
    let mut done: u8 = 0;
    proof {
        lemma_pow10(0);
    }
    while done < code_width
        invariant
            done <= code_width <= MAX_CODE_WIDTH,
            power == pow(10, done as nat),
        decreases code_width - done,
    {
        proof {
            lemma_pow10(done as nat);
            lemma_pow10((done + 1) as nat);
        }
        power = power * 10;
        done = done + 1;
    }
    power
}

/// The code that a computed tag gives: the part of [`get_hotp`] that comes
/// after the hash.
///
/// A width outside `1..=9` is a configuration error; a tag that is not 20
/// bytes long is a hash error.
pub fn hotp_from_digest(digest: &[u8], code_width: u8) -> (code: Result<u32, TotpError>)
    ensures
        code == hotp_of_digest(digest@, code_width),
        code matches Ok(c) ==> c < pow(10, code_width as nat),
{
    if code_width < 1 || code_width > MAX_CODE_WIDTH {
        return Err(TotpError::Config);
    }
    if digest.len() != DIGEST_LEN {
        return Err(TotpError::Crypto);
    }
    let truncated: u32 = get_hotp_dt(digest);
    let modulus: u32 = ten_to(code_width);
    proof {
        lemma_code_in_range(digest@, code_width);
    }
    Ok(truncated % modulus)
}

/// The one-time password of a counter under a secret (RFC 4226): the
/// HMAC-SHA1 tag of the counter's eight bytes, truncated and reduced to
/// `code_width` decimal digits.
///
/// A width outside `1..=9` is rejected before anything is hashed. Whether the
/// hash succeeds is OpenSSL's to say; where it does, the code is the one that
/// [`hotp_from_digest`] gives for its tag.
pub fn get_hotp(secret: &Secret, time_step: u64, code_width: u8) -> (code: Result<u32, TotpError>)
    ensures
        hotp_outcome(secret@, time_step, code_width, code),
        code matches Ok(c) ==> c < pow(10, code_width as nat),
{
    if code_width < 1 || code_width > MAX_CODE_WIDTH {
        return Err(TotpError::Config);
    }
    let key: &[u8] = secret.as_bytes();
    if key.len() > MAX_KEY_LEN {
        return Err(TotpError::Crypto);
    }
    let message: [u8; 8] = counter_bytes(time_step);
    match hmac_sha1_tag(key, message.as_slice()) {
        Ok(tag) => hotp_from_digest(tag.as_slice(), code_width),
        Err(_) => Err(TotpError::Crypto),
    }
}

} // verus!
