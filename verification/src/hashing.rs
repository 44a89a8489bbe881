use vstd::prelude::*;
use sha2::{Digest, Sha256};

verus! {

/// The SHA-256 digest of the bytes `data`, as 64 lowercase hexadecimal
/// digits.
pub uninterp spec fn sha256_bytes_text(data: Seq<u8>) -> Seq<char>;

/// Hashes the bytes `data` with `sha2::Sha256` and formats the 32-byte
/// digest with `LowerHex` (two lowercase digits per byte). The contract
/// claims the result is `sha256_bytes_text` of the bytes and has 64
/// characters.
#[verifier::external_body]
pub(crate) fn sha256_bytes_hex(data: &[u8]) -> (r: String)
    ensures
        r@ == sha256_bytes_text(data@),
        r@.len() == 64,
{
    let mut hasher = Sha256::new();
    hasher.update(data);
    format!("{:x}", hasher.finalize())
}

/// The SHA-256 digest of the UTF-8 bytes of `text`, as 64 lowercase
/// hexadecimal digits.
pub open spec fn sha256_text(text: Seq<char>) -> Seq<char> {
    sha256_bytes_text(vstd::utf8::encode_utf8(text))
}

/// The SHA-256 digest of the UTF-8 bytes of `text`, in lowercase hex.
pub(crate) fn sha256_hex(text: &str) -> (r: String)
    ensures
        r@ == sha256_text(text@),
        r@.len() == 64,
{
    sha256_bytes_hex(text.as_bytes())
}

} // verus!
