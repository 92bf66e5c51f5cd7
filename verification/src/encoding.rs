//! Base64, as the campaign's long texts travel: standard alphabet, with
//! padding. The encoding itself is done by the `base64` crate.
use vstd::prelude::*;

use crate::error::ContractError;

verus! {

/// The base64 text of a byte string.
pub uninterp spec fn base64_text(bytes: Seq<u8>) -> Seq<char>;

/// The byte string that a base64 text stands for, or `None` where the text
/// is not base64.
pub uninterp spec fn base64_bytes(text: Seq<char>) -> Option<Seq<u8>>;

/// Why a text is not base64.
#[verifier::external_type_specification]
#[verifier::external_body]
pub struct ExDecodeError(base64::DecodeError);

/// `base64::encode`: the standard base64 text of `bytes`.
#[verifier::external_body]
fn base64_encode(bytes: &[u8]) -> (r: String)
    ensures
        r@ == base64_text(bytes@),
{
    base64::encode(bytes)
}

/// `base64::decode`: the bytes that `text` stands for in standard base64, or
/// the reason why it stands for none.
#[verifier::external_body]
fn base64_decode(text: &str) -> (r: Result<Vec<u8>, base64::DecodeError>)
    ensures
        match r {
            Ok(bytes) => base64_bytes(text@) == Some(bytes@),
            Err(_) => base64_bytes(text@) is None,
        },
{
    base64::decode(text)
}

/// The base64 text of `bytes`.
pub fn encode(bytes: &[u8]) -> (r: String)
    ensures
        r@ == base64_text(bytes@),
{
    base64_encode(bytes)
}

/// The bytes that `text` stands for, or `InvalidBase64` exactly when it is
/// not base64.
pub fn decode(text: &str) -> (r: Result<Vec<u8>, ContractError>)
    ensures
        match r {
            Ok(bytes) => base64_bytes(text@) == Some(bytes@),
            Err(e) => e == ContractError::InvalidBase64 && base64_bytes(text@) is None,
        },
{
    match base64_decode(text) {
        Ok(bytes) => Ok(bytes),
        Err(_) => Err(ContractError::InvalidBase64),
    }
}

} // verus!
