//! Text encodings of keys and signatures, each backed by the crate that the wallet uses.

use base64::Engine as _;
use vstd::prelude::*;

verus! {

/// What `solana_pubkey::Pubkey::from_str` gives for a string: the 32 address bytes, or the
/// text of the parse error.
pub uninterp spec fn pubkey_from_str(s: Seq<char>) -> Result<Seq<u8>, Seq<char>>;

/// The base58 text that `Display` of `solana_pubkey::Pubkey` writes for 32 address bytes.
pub uninterp spec fn pubkey_base58(bytes: Seq<u8>) -> Seq<char>;

/// What `solana_signature::Signature::from_str` gives for a string: the 64 signature bytes,
/// or the text of the parse error.
pub uninterp spec fn signature_from_str(s: Seq<char>) -> Result<Seq<u8>, Seq<char>>;

/// The string that `bs58::encode(bytes).into_string()` gives.
pub uninterp spec fn base58_encode(bytes: Seq<u8>) -> Seq<char>;

/// The string that `base64::engine::general_purpose::STANDARD.encode(bytes)` gives.
pub uninterp spec fn base64_standard_encode(bytes: Seq<u8>) -> Seq<char>;

/// The two texts that `solana_pubkey::ParsePubkeyError` displays.
pub open spec fn is_pubkey_parse_error_text(e: Seq<char>) -> bool {
    e == "String is the wrong size"@ || e == "Invalid Base58 string"@
}

/// The two texts that `solana_signature::ParseSignatureError` displays.
pub open spec fn is_signature_parse_error_text(e: Seq<char>) -> bool {
    e == "string decoded to wrong size for signature"@ || e == "failed to decode string to signature"@
}

/// Parses `s` with `solana_pubkey::Pubkey::from_str` (base58, at most 44 bytes, 32 decoded
/// bytes). Claimed: the outcome is a function of `s` alone (`pubkey_from_str`), and an error is
/// displayed as one of the two texts of `ParsePubkeyError`.
#[verifier::external_body]
pub(crate) fn parse_pubkey_bytes(s: &str) -> (res: Result<[u8; 32], String>)
    ensures
        match res {
            Ok(bytes) => pubkey_from_str(s@) == Ok::<Seq<u8>, Seq<char>>(bytes@),
            Err(e) => pubkey_from_str(s@) == Err::<Seq<u8>, Seq<char>>(e@)
                && is_pubkey_parse_error_text(e@),
        },
{
    match s.parse::<solana_pubkey::Pubkey>() {
        Ok(pubkey) => Ok(pubkey.to_bytes()),
        Err(e) => Err(e.to_string()),
    }
}

/// Formats 32 address bytes with `Display` of `solana_pubkey::Pubkey` (base58). Claimed: the
/// text is a function of the bytes alone (`pubkey_base58`).
#[verifier::external_body]
pub(crate) fn pubkey_to_base58(bytes: &[u8; 32]) -> (res: String)
    ensures
        res@ == pubkey_base58(bytes@),
{
    solana_pubkey::Pubkey::new_from_array(*bytes).to_string()
}

/// Parses `s` with `solana_signature::Signature::from_str` (base58, at most 88 bytes, 64
/// decoded bytes). Claimed: the outcome is a function of `s` alone (`signature_from_str`), and
/// an error is displayed as one of the two texts of `ParseSignatureError`.
#[verifier::external_body]
pub(crate) fn parse_signature_bytes(s: &str) -> (res: Result<[u8; 64], String>)
    ensures
        match res {
            Ok(bytes) => signature_from_str(s@) == Ok::<Seq<u8>, Seq<char>>(bytes@),
            Err(e) => signature_from_str(s@) == Err::<Seq<u8>, Seq<char>>(e@)
                && is_signature_parse_error_text(e@),
        },
{
    match s.parse::<solana_signature::Signature>() {
        Ok(signature) => Ok(<[u8; 64]>::from(signature)),
        Err(e) => Err(e.to_string()),
    }
}

/// Encodes bytes with `bs58::encode(..).into_string()`. Claimed: the text is a function of the
/// bytes alone (`base58_encode`).
#[verifier::external_body]
pub(crate) fn bs58_encode(bytes: &[u8]) -> (res: String)
    ensures
        res@ == base58_encode(bytes@),
{
    bs58::encode(bytes).into_string()
}

/// Encodes bytes with the standard padded base64 engine of the `base64` crate. Claimed: the
/// text is a function of the bytes alone (`base64_standard_encode`). The crate panics when the
/// encoded length overflows `usize`; `requires` keeps the input well below that.
#[verifier::external_body]
pub(crate) fn base64_encode(bytes: &[u8]) -> (res: String)
    requires
        bytes@.len() <= usize::MAX / 2,
    ensures
        res@ == base64_standard_encode(bytes@),
{
    base64::engine::general_purpose::STANDARD.encode(bytes)
}

} // verus!
