use vstd::prelude::*;

verus! {

/// Whether a piece of text is a well-formed base58 rendering of a 64-byte
/// transaction signature. The exact shape of that set of strings belongs to
/// the signature type's parser; contracts here only ever test membership.
pub uninterp spec fn is_signature_text(s: Seq<char>) -> bool;

/// Whether a piece of text is a well-formed base58 rendering of a 32-byte
/// on-chain address, such as a token mint.
pub uninterp spec fn is_address_text(s: Seq<char>) -> bool;

#[verifier::external_type_specification]
#[verifier::external_body]
pub struct ExTryFromSliceError(core::array::TryFromSliceError);

#[verifier::external_type_specification]
#[verifier::external_body]
pub struct ExSignature(solana_signature::Signature);

/// Relies on `solana_signature::Signature::from_str`: it decodes base58 text
/// into exactly 64 signature bytes and fails on any other input, so success
/// is a function of the text alone.
#[verifier::external_body]
pub(crate) fn parse_signature_text(s: &str) -> (r: Option<solana_signature::Signature>)
    ensures
        r is Some <==> is_signature_text(s@),
{
    s.parse::<solana_signature::Signature>().ok()
}

/// Relies on `solana_pubkey::Pubkey::from_str`: it decodes base58 text into
/// exactly 32 address bytes and fails on any other input, so success is a
/// function of the text alone.
#[verifier::external_body]
pub(crate) fn address_text_ok(s: &str) -> (b: bool)
    ensures
        b == is_address_text(s@),
{
    s.parse::<solana_pubkey::Pubkey>().is_ok()
}

} // verus!
