//! The two cryptographic primitives of the pipeline, reached through trusted
//! wrappers: the memory-hard key-stretching function and the keyed hash.
//! Their results are functions of their arguments alone; each is given a name
//! that the callers' contracts speak of.

use vstd::prelude::*;
use hmac::Mac;
use sha2::Sha256;

verus! {

/// The 64 bytes that the scrypt key-derivation function computes from a
/// password and a salt under cost parameters `(2^log_n, r, p)`.
pub uninterp spec fn scrypt_of(password: Seq<u8>, salt: Seq<u8>, log_n: u8, r: u32, p: u32) -> Seq<
    u8,
>;

/// Relies on scrypt::Params::new and scrypt::scrypt: under the admitted cost
/// parameters the parameter check passes (`log_n < 64`, `r > 0`, `p > 0`,
/// `r * p < 2^30`, and `128 * r * 2^log_n` fits in memory), a 64-byte output
/// buffer is accepted, and the function fills it with a value determined by
/// the password, the salt and the parameters alone.
#[verifier::external_body]
pub(crate) fn scrypt_stretch(password: &[u8], salt: &[u8], log_n: u8, r: u32, p: u32) -> (out: Vec<
    u8,
>)
    requires
        1 <= log_n <= 20,
        1 <= r <= 64,
        1 <= p <= 16,
    ensures
        out@ == scrypt_of(password@, salt@, log_n, r, p),
        out@.len() == 64,
{
    let params = scrypt::Params::new(log_n, r, p).expect("cost parameters in the admitted range");
    let mut out = [0u8; 64];
    scrypt::scrypt(password, salt, &params, &mut out).expect("64 is a valid output length");
    out.to_vec()
}

/// The 32 bytes of the HMAC-SHA-256 tag of a message under a key.
pub uninterp spec fn hmac_sha256_of(key: Seq<u8>, msg: Seq<u8>) -> Seq<u8>;

/// Relies on hmac::Hmac over sha2::Sha256: a key of any length is accepted,
/// and the finalized tag is 32 bytes determined by the key and the message
/// alone.
#[verifier::external_body]
pub(crate) fn hmac_sha256(key: &[u8], msg: &[u8]) -> (tag: Vec<u8>)
    ensures
        tag@ == hmac_sha256_of(key@, msg@),
        tag@.len() == 32,
{
    let mut mac = <hmac::Hmac<Sha256> as hmac::KeyInit>::new_from_slice(key).expect(
        "HMAC accepts keys of any length",
    );
    mac.update(msg);
    mac.finalize().into_bytes().to_vec()
}

} // verus!
