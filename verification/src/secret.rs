//! The shared secret and its decoding from base32 text.

use vstd::prelude::*;
use vstd::string::is_ascii_spec_bytes;
use vstd::utf8::is_ascii_chars;
use crate::error::TotpError;

verus! {

/// What `base32::decode`, with the RFC 4648 alphabet and padding, makes of a
/// text: the decoded bytes, or nothing where it rejects the text.
pub uninterp spec fn base32_decoding(text: Seq<char>) -> Option<Seq<u8>>;

/// The characters that the decoder takes: the letters `A` to `Z` in either
/// case, the digits `2` to `7`, and `=`.
pub open spec fn base32_symbol(c: char) -> bool {
    ||| 'A' <= c <= 'Z'
    ||| 'a' <= c <= 'z'
    ||| '2' <= c <= '7'
    ||| c == '='
}

/// A text made of such characters alone. The decoder takes exactly these
/// texts, in any length and with `=` in any place; a secret asks for more,
/// see [`well_formed_base32`].
pub open spec fn base32_text(text: Seq<char>) -> bool {
    forall|i: int| 0 <= i < text.len() ==> base32_symbol(#[trigger] text[i])
}

/// The padding character.
pub const PAD: u8 = 0x3d;

/// The numbers of `=` that can close a padded text: a last group of 8
/// characters stands for 5, 4, 3, 2 or 1 bytes.
pub open spec fn valid_padding_len(pad: int) -> bool {
    pad == 0 || pad == 1 || pad == 3 || pad == 4 || pad == 6
}

/// The last `pad` characters of the text are `=`, and no other is.
pub open spec fn padded_by(text: Seq<char>, pad: int) -> bool {
    &&& 0 <= pad <= text.len()
    &&& forall|i: int|
        0 <= i < text.len() ==> ((#[trigger] text[i] == '=') <==> i >= text.len() - pad)
}

/// The shape of padded base32 (RFC 4648): whole groups of 8 characters, with
/// `=` only as a closing run of 0, 1, 3, 4 or 6.
pub open spec fn well_formed_base32(text: Seq<char>) -> bool {
    &&& text.len() % 8 == 0
    &&& exists|pad: int| valid_padding_len(pad) && #[trigger] padded_by(text, pad)
}

/// A text of base32 symbols is ASCII.
pub proof fn lemma_base32_text_is_ascii(text: Seq<char>)
    requires
        base32_text(text),
    ensures
        is_ascii_chars(text),
{
    assert forall|i: int| 0 <= i < text.len() implies '\0' <= #[trigger] text[i] <= '\u{7f}' by {
        assert(base32_symbol(text[i]));
    }
}

/// A text has at most one closing run of `=`: two paddings that fit it are
/// the same.
pub proof fn lemma_padding_unique(text: Seq<char>, pad: int, other: int)
    requires
        padded_by(text, pad),
        padded_by(text, other),
    ensures
        pad == other,
{
    if pad < other {
        assert(text[text.len() - other] == '=');
    } else if other < pad {
        assert(text[text.len() - pad] == '=');
    }
}

/// Whether an ASCII text has the shape of padded base32.
fn has_base32_shape(text: &str) -> (ok: bool)
    requires
        text.is_ascii(),
    ensures
        ok == well_formed_base32(text@),
{
    broadcast use is_ascii_spec_bytes;

    let bytes: &[u8] = text.as_bytes();
    let n: usize = bytes.len();
    assert(bytes@.len() == text@.len());
    assert(forall|i: int| 0 <= i < n ==> ((#[trigger] text@[i] == '=') <==> bytes@[i] == PAD));
    if n % 8 != 0 {
        return false;
    }
    let mut pad: usize = 0;
    while pad < n && bytes[n - 1 - pad] == PAD
        invariant
            n == bytes@.len(),
            pad <= n,
            forall|i: int| n - pad <= i < n ==> bytes@[i] == PAD,
        decreases n - pad,
    {
        pad = pad + 1;
    }
    let mut i: usize = 0;
    while i < n - pad
        invariant
            n == bytes@.len(),
            n == text@.len(),
            forall|j: int| 0 <= j < n ==> ((#[trigger] text@[j] == '=') <==> bytes@[j] == PAD),
            pad <= n,
            pad < n ==> bytes@[n - 1 - pad] != PAD,
            forall|j: int| n - pad <= j < n ==> bytes@[j] == PAD,
            i <= n - pad,
            forall|j: int| 0 <= j < i ==> bytes@[j] != PAD,
        decreases n - pad - i,
    {
        if bytes[i] == PAD {
            proof {
                assert forall|p: int| valid_padding_len(p) implies !#[trigger] padded_by(
                    text@,
                    p,
                ) by {
                    if padded_by(text@, p) {
                        assert(text@[i as int] == '=');
                        if pad < n {
                            assert(text@[n - 1 - pad] != '=');
                        }
                    }
                }
            }
            return false;
        }
        i = i + 1;
    }
    proof {
        assert(padded_by(text@, pad as int));
        if !valid_padding_len(pad as int) {
            assert forall|p: int| valid_padding_len(p) implies !#[trigger] padded_by(text@, p) by {
                if padded_by(text@, p) {
                    lemma_padding_unique(text@, p, pad as int);
                }
            }
        }
    }
    pad == 0 || pad == 1 || pad == 3 || pad == 4 || pad == 6
}

/// Whether a text is short enough for the decoder, which multiplies the
/// text's length in bytes by five.
pub open spec fn decodable_length(len: usize) -> bool {
    len * 5 <= usize::MAX
}

/// Calls `base32::decode` with `Alphabet::RFC4648 { padding: true }`.
///
/// Trusted: the result is the decoder's, under the name [`base32_decoding`],
/// and the decoder rejects a text exactly where one of its characters is
/// none of [`base32_symbol`]: it looks each character up in a table, after
/// turning away any text that is not ASCII, and rejects nothing else. It
/// checks neither the length nor the place of `=`.
/// Texts on which the decoder's length arithmetic would overflow are left out.
#[verifier::external_body]
fn decode_base32(text: &str) -> (bytes: Option<Vec<u8>>)
    requires
        decodable_length(text.len()),
    ensures
        match bytes {
            Some(b) => base32_decoding(text@) == Some(b@),
            None => base32_decoding(text@).is_none(),
        },
        bytes.is_some() <==> base32_text(text@),
{
    base32::decode(base32::Alphabet::RFC4648 { padding: true }, text)
}

/// A shared key: the raw bytes that a base32 text stood for.
#[derive(Debug)]
pub struct Secret {
    buffer: Vec<u8>,
}

impl View for Secret {
    type V = Seq<u8>;

    /// The key bytes.
    closed spec fn view(&self) -> Seq<u8> {
        self.buffer@
    }
}

impl Secret {
    /// The secret that a padded base32 text (RFC 4648) encodes.
    ///
    /// The result is `None` where the text holds a character that is no
    /// base32 symbol, where its length is no multiple of 8, where `=` stands
    /// anywhere but in a closing run of 0, 1, 3, 4 or 6, or where the text is
    /// too long to decode; it is a secret otherwise. Letters count in either
    /// case: `a` to `z` stand for `A` to `Z`.
    pub fn from_base32(secret: &str) -> (decoded: Option<Secret>)
        ensures
            decoded.is_some() <==> decodable_length(secret.len()) && base32_text(secret@)
                && well_formed_base32(secret@),
            decoded matches Some(s) ==> base32_decoding(secret@) == Some(s@),
    {
        if secret.len() > usize::MAX / 5 {
            return None;
        }
        if !secret.is_ascii() {
            proof {
                if base32_text(secret@) {
                    lemma_base32_text_is_ascii(secret@);
                }
            }
            return None;
        }
        if !has_base32_shape(secret) {
            return None;
        }
        match decode_base32(secret) {
            Some(buffer) => Some(Secret { buffer }),
            None => None,
        }
    }

    /// The key bytes.
    pub fn as_bytes(&self) -> (bytes: &[u8])
        ensures
            bytes@ == self@,
    {
        self.buffer.as_slice()
    }
}

/// Decodes a padded base32 text into a secret, or reports
/// [`TotpError::Decode`] where [`Secret::from_base32`] gives none: for a
/// character that is no base32 symbol, and for a malformed length or padding.
pub fn decode_secret(text: &str) -> (decoded: Result<Secret, TotpError>)
    ensures
        decoded.is_ok() <==> decodable_length(text.len()) && base32_text(text@)
            && well_formed_base32(text@),
        decoded matches Ok(s) ==> base32_decoding(text@) == Some(s@),
        decoded matches Err(e) ==> e == TotpError::Decode,
{
    match Secret::from_base32(text) {
        Some(secret) => Ok(secret),
        None => Err(TotpError::Decode),
    }
}

} // verus!
