//! Encodings and digests computed by outside code: base64 (crate `base64`),
//! SHA-256 (crate `sha2`) and UTF-8 checking (std). Each is a trusted item whose
//! contract is stated below; nothing here is proved.
use vstd::prelude::*;
use vstd::utf8::{encode_utf8, valid_utf8};
use crate::encoding::{base64_decoding, base64_text};
use base64::DecodeError;
use sha2::{Digest, Sha256};

verus! {

/// The error that `base64::decode` reports for input that is not base64.
#[verifier::external_type_specification]
#[verifier::external_body]
pub struct ExDecodeError(DecodeError);

/// The SHA-256 digest of `data`, as `sha2::Sha256` computes it.
pub uninterp spec fn sha256_digest(data: Seq<u8>) -> Seq<u8>;

/// Calls `base64::encode`, the crate's `STANDARD` engine: standard alphabet, padding on.
/// Claimed: the result is the RFC 4648 base64 text of the input, as `base64_text` states it.
#[verifier::external_body]
#[allow(deprecated)]
pub(crate) fn base64_encode(data: &[u8]) -> (text: String)
    ensures
        text@ == base64_text(data@),
{
    base64::encode(data)
}

/// Calls `base64::decode`, the crate's `STANDARD` engine, whose configuration requires
/// canonical padding and rejects set trailing bits. Claimed: it succeeds exactly on text
/// that is the base64 form of some bytes, and then gives those bytes.
#[verifier::external_body]
#[allow(deprecated)]
pub(crate) fn base64_decode(text: &[u8]) -> (res: Result<Vec<u8>, DecodeError>)
    ensures
        match res {
            Ok(bytes) => base64_decoding(text@) == Some(bytes@),
            Err(_) => base64_decoding(text@) is None,
        },
{
    base64::decode(text)
}

/// Calls `Sha256::new`, `update` and `finalize` of the crate `sha2`. Claimed: the result
/// is the named digest of the input, and it is 32 bytes long (SHA-256 yields 256 bits).
#[verifier::external_body]
pub(crate) fn sha256(data: &[u8]) -> (digest: Vec<u8>)
    ensures
        digest@ == sha256_digest(data@),
        digest@.len() == 32,
{
    let mut hasher = Sha256::new();
    hasher.update(data);
    hasher.finalize().to_vec()
}

/// Calls `std::str::from_utf8`. Claimed, as std documents it: the call succeeds exactly
/// when the bytes are valid UTF-8, and the text it gives has exactly those bytes.
#[verifier::external_body]
pub(crate) fn utf8_text(bytes: &[u8]) -> (res: Option<String>)
    ensures
        res is Some <==> valid_utf8(bytes@),
        res matches Some(s) ==> encode_utf8(s@) == bytes@,
{
    match std::str::from_utf8(bytes) {
        Ok(s) => Some(s.to_string()),
        Err(_) => None,
    }
}

} // verus!
