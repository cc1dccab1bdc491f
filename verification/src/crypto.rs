//! The cryptographic primitives the gateway takes from `sp_core`, and its source of
//! fresh entropy. Nothing in this module is proved: each function states what the
//! outside code is relied on to do.

use vstd::prelude::*;

verus! {

/// The sr25519 public key that the secret URI `suri` stands for, or `None` where the
/// URI does not describe a key.
pub uninterp spec fn sr25519_public(suri: Seq<char>) -> Option<Seq<u8>>;

/// Whether sr25519 verification under the key `public` accepts `signature` for `message`.
pub uninterp spec fn sr25519_accepts(public: Seq<u8>, message: Seq<u8>, signature: Seq<u8>) -> bool;

/// The SS58 text of a 32-byte account identifier under the generic Substrate prefix.
pub uninterp spec fn ss58_text(account: Seq<u8>) -> Seq<char>;

/// The 256-bit Blake2b digest of `data`.
pub uninterp spec fn blake2_256(data: Seq<u8>) -> Seq<u8>;

/// A key pair of `sp_core`, carried from derivation to signing. Nothing is known of
/// what it holds.
#[verifier::external_type_specification]
#[verifier::external_body]
pub struct ExPair(sp_core::sr25519::Pair);

/// Calls `sp_core::sr25519::Pair::from_string` without a password override, and
/// `public` on the pair it gives. The public key is a function of the URI alone:
/// parsing, the development phrase and hard and soft derivation draw on nothing else.
#[verifier::external_body]
pub(crate) fn pair_from_suri(suri: &str) -> (derived: Option<(sp_core::sr25519::Pair, [u8; 32])>)
    ensures
        match derived {
            Some((_, key)) => sr25519_public(suri@) == Some(key@),
            None => sr25519_public(suri@) is None,
        },
{
    match <sp_core::sr25519::Pair as sp_core::Pair>::from_string(suri, None) {
        Ok(pair) => {
            let key = <sp_core::sr25519::Pair as sp_core::Pair>::public(&pair).0;
            Some((pair, key))
        },
        Err(_) => None,
    }
}

/// Calls `sign` of `sp_core::sr25519::Pair`. Signing draws a random witness, so
/// nothing is claimed of the signature.
#[verifier::external_body]
pub(crate) fn sign_with_pair(pair: &sp_core::sr25519::Pair, message: &[u8]) -> (signature: [u8; 64]) {
    <sp_core::sr25519::Pair as sp_core::Pair>::sign(pair, message).0
}

/// Calls `sp_core::sr25519::Pair::verify`, which decides from key, message and
/// signature alone.
#[verifier::external_body]
pub(crate) fn signature_accepted(public: &[u8; 32], message: &[u8], signature: &[u8; 64]) -> (accepted:
    bool)
    ensures
        accepted == sr25519_accepts(public@, message@, signature@),
{
    <sp_core::sr25519::Pair as sp_core::Pair>::verify(
        &sp_core::sr25519::Signature::from_raw(*signature),
        message,
        &sp_core::sr25519::Public::from_raw(*public),
    )
}

/// Calls `sp_core::crypto::Ss58Codec::to_ss58check_with_version` on the account
/// identifier, with the prefix of generic Substrate accounts.
#[verifier::external_body]
pub(crate) fn ss58_encode(account: &[u8; 32]) -> (text: String)
    ensures
        text@ == ss58_text(account@),
{
    sp_core::crypto::Ss58Codec::to_ss58check_with_version(
        &sp_core::crypto::AccountId32::new(*account),
        sp_core::crypto::Ss58AddressFormatRegistry::SubstrateAccount.into(),
    )
}

/// Calls `hash` of `sp_core::Blake2Hasher`, which is Blake2b with a 32-byte digest.
#[verifier::external_body]
pub(crate) fn blake2_256_of(data: &[u8]) -> (digest: [u8; 32])
    ensures
        digest@ == blake2_256(data@),
{
    <sp_core::Blake2Hasher as sp_core::Hasher>::hash(data).0
}

/// Draws 32 bytes from `rand::thread_rng`. They differ from call to call.
#[verifier::external_body]
pub(crate) fn fresh_entropy() -> (bytes: [u8; 32]) {
    rand::Rng::gen::<[u8; 32]>(&mut rand::thread_rng())
}

} // verus!
