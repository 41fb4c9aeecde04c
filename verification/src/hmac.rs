//! The keyed hash, computed by OpenSSL.

use vstd::prelude::*;

verus! {

/// OpenSSL's error report.
#[verifier::external_type_specification]
#[verifier::external_body]
pub struct ExErrorStack(openssl::error::ErrorStack);

/// The HMAC-SHA1 tag of a message under a key, as OpenSSL computes it.
pub uninterp spec fn hmac_sha1(key: Seq<u8>, message: Seq<u8>) -> Seq<u8>;

/// The longest key that `PKey::hmac` takes: it asserts that the length fits
/// in a C `int`.
pub const MAX_KEY_LEN: usize = 0x7fff_ffff;

/// Signs `message` with an HMAC key over SHA-1: `PKey::hmac`, `MdCtx::new`,
/// `digest_sign_init` with `Md::sha1`, `digest_sign_update` and
/// `digest_sign_final_to_vec`, in that order.
///
/// Trusted: where OpenSSL reports no error, the bytes it wrote are the tag
/// named [`hmac_sha1`]. Nothing is claimed of the tag's length, nor of when
/// OpenSSL fails. Keys longer than [`MAX_KEY_LEN`] are left out.
#[verifier::external_body]
pub(crate) fn hmac_sha1_tag(key: &[u8], message: &[u8]) -> (tag: Result<
    Vec<u8>,
    openssl::error::ErrorStack,
>)
    requires
        key@.len() <= MAX_KEY_LEN,
    ensures
        tag matches Ok(t) ==> t@ == hmac_sha1(key@, message@),
{
    let pkey = openssl::pkey::PKey::hmac(key)?;
    let mut ctx = openssl::md_ctx::MdCtx::new()?;
    ctx.digest_sign_init(Some(openssl::md::Md::sha1()), &pkey)?;
    ctx.digest_sign_update(message)?;
    let mut tag = Vec::new();
    ctx.digest_sign_final_to_vec(&mut tag)?;
    Ok(tag)
}

} // verus!
