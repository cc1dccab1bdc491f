//! Transaction composition: from a call and the chain's metadata to a signed envelope.

use vstd::prelude::*;
use crate::account::{AccountId, KeyPair};
use crate::crypto::{blake2_256, blake2_256_of, sr25519_accepts};
use crate::era::Era;
use crate::error::GatewayError;
use crate::hexcode::{hex_string, prefixed_hex_text};
use crate::scale::{
    byte_string, compact, le_bytes, lemma_le_bytes_len, push_byte_string, push_compact, push_raw,
    push_u32, push_u64, MAX_BYTE_STRING,
};

verus! {

/// Where the runtime dispatches a call: the index of its subsystem and of the call in it.
#[derive(Clone, Copy, Debug)]
pub struct CallIndex {
    pub pallet: u8,
    pub call: u8,
}

/// The dispatch indices of the calls the gateway makes, as the runtime in use has them.
#[derive(Clone, Copy, Debug)]
pub struct CallTable {
    pub transfer: CallIndex,
    pub create_collection: CallIndex,
    pub mint: CallIndex,
}

/// What a session has learnt of the chain. All of it must stem from one observed
/// finalized head: a transaction that mixes heads is refused by the node.
#[derive(Clone, Copy, Debug)]
pub struct ChainMetadata {
    pub genesis_hash: [u8; 32],
    pub finalized_head_hash: [u8; 32],
    pub finalized_head_number: u64,
    pub spec_version: u32,
    pub transaction_version: u32,
    /// For how many blocks after the head a transaction stays valid.
    pub mortality_period: u64,
    pub calls: CallTable,
}

/// A ledger operation with its arguments.
#[derive(Debug)]
pub enum CallPayload {
    /// Move `amount` to the account `to`.
    Transfer { to: AccountId, amount: u128 },
    /// Create a collection of the given name.
    CreateCollection { name: Vec<u8> },
    /// Mint `quantity` tokens in a collection, all with the same metadata.
    Mint { collection_id: u64, metadata: Vec<u8>, quantity: u32 },
}

impl CallPayload {
    /// Where the runtime dispatches this call.
    pub open spec fn index(self, calls: CallTable) -> CallIndex {
        match self {
            CallPayload::Transfer { .. } => calls.transfer,
            CallPayload::CreateCollection { .. } => calls.create_collection,
            CallPayload::Mint { .. } => calls.mint,
        }
    }

    /// The call's arguments on the wire, in the order of their declaration. A transfer
    /// names its target by its identifier (marker 0) and carries a compact amount.
    pub open spec fn arguments(self) -> Seq<u8> {
        match self {
            CallPayload::Transfer { to, amount } => seq![0u8] + to@ + compact(amount as nat),
            CallPayload::CreateCollection { name } => byte_string(name@),
            CallPayload::Mint { collection_id, metadata, quantity } => le_bytes(
                collection_id as nat,
                8,
            ) + byte_string(metadata@) + le_bytes(quantity as nat, 4),
        }
    }

    /// The call on the wire: its two dispatch indices, then its arguments.
    pub open spec fn bytes(self, calls: CallTable) -> Seq<u8> {
        seq![self.index(calls).pallet, self.index(calls).call] + self.arguments()
    }

    /// Whether the call can be written at all: its byte strings must not be longer
    /// than the encoding's length prefix allows.
    pub open spec fn encodable(self) -> bool {
        match self {
            CallPayload::Transfer { .. } => true,
            CallPayload::CreateCollection { name } => name@.len() <= MAX_BYTE_STRING,
            CallPayload::Mint { metadata, .. } => metadata@.len() <= MAX_BYTE_STRING,
        }
    }

    /// Writes the call as the runtime reads it, or gives `None` for a call that cannot
    /// be written.
    pub fn encode(&self, calls: &CallTable) -> (encoded: Option<Vec<u8>>)
        ensures
            encoded is Some <==> self.encodable(),
            encoded matches Some(bytes) ==> bytes@ == self.bytes(*calls),
    {
        let mut out: Vec<u8> = Vec::new();
        match self {
            CallPayload::Transfer { to, amount } => {
                out.push(calls.transfer.pallet);
                out.push(calls.transfer.call);
                out.push(0u8);
                push_raw(&mut out, to.bytes.as_slice());
                push_compact(&mut out, *amount);
                assert(out@ =~= self.bytes(*calls));
                Some(out)
            },
            CallPayload::CreateCollection { name } => {
                out.push(calls.create_collection.pallet);
                out.push(calls.create_collection.call);
                if !push_byte_string(&mut out, name.as_slice()) {
                    return None;
                }
                assert(out@ =~= self.bytes(*calls));
                Some(out)
            },
            CallPayload::Mint { collection_id, metadata, quantity } => {
                out.push(calls.mint.pallet);
                out.push(calls.mint.call);
                push_u64(&mut out, *collection_id);
                if !push_byte_string(&mut out, metadata.as_slice()) {
                    return None;
                }
                push_u32(&mut out, *quantity);
                assert(out@ =~= self.bytes(*calls));
                Some(out)
            },
        }
    }
}

/// What rides along with a signed call: the era, the signer's nonce and a tip of zero.
pub open spec fn extra_bytes(era: Era, nonce: u32) -> Seq<u8> {
    era.bytes() + compact(nonce as nat) + compact(0)
}

/// What is signed but not sent: both versions of the runtime, the genesis hash and the
/// hash of the head the era counts from.
pub open spec fn additional_bytes(meta: ChainMetadata) -> Seq<u8> {
    le_bytes(meta.spec_version as nat, 4) + le_bytes(meta.transaction_version as nat, 4)
        + meta.genesis_hash@ + meta.finalized_head_hash@
}

/// The era of a transaction made under `meta`: its period of mortality, counted from
/// the finalized head.
pub open spec fn era_for(meta: ChainMetadata) -> Era {
    Era::of(meta.mortality_period as nat, meta.finalized_head_number as nat)
}

/// Everything the signature covers, in order: call, extra, additional.
pub open spec fn signing_payload(meta: ChainMetadata, nonce: u32, payload: CallPayload) -> Seq<u8> {
    payload.bytes(meta.calls) + extra_bytes(era_for(meta), nonce) + additional_bytes(meta)
}

/// The message handed to the signer: the signing payload itself, or its digest where
/// the payload is longer than 256 bytes.
pub open spec fn message_to_sign(meta: ChainMetadata, nonce: u32, payload: CallPayload) -> Seq<u8> {
    let covered = signing_payload(meta, nonce, payload);
    if covered.len() > 256 {
        blake2_256(covered)
    } else {
        covered
    }
}

/// A signed transaction without its length prefix: the version byte of a signed
/// transaction, the signer by identifier, the sr25519 signature, the extra, the call.
pub open spec fn extrinsic_body(
    signer: Seq<u8>,
    signature: Seq<u8>,
    extra: Seq<u8>,
    call: Seq<u8>,
) -> Seq<u8> {
    seq![0x84u8, 0x00u8] + signer + seq![0x01u8] + signature + extra + call
}

/// The transaction as the node takes it: the body behind its length.
pub open spec fn extrinsic_bytes(
    meta: ChainMetadata,
    nonce: u32,
    payload: CallPayload,
    signer: Seq<u8>,
    signature: Seq<u8>,
) -> Seq<u8> {
    byte_string(
        extrinsic_body(
            signer,
            signature,
            extra_bytes(era_for(meta), nonce),
            payload.bytes(meta.calls),
        ),
    )
}

/// The length of a transaction's body for a given nonce and call.
pub open spec fn body_len(nonce: u32, call: Seq<u8>) -> nat {
    102 + compact(nonce as nat).len() + call.len()
}

/// Whether a call can be made into a transaction: it can be written, and the whole
/// transaction is no longer than a length prefix allows.
pub open spec fn buildable(meta: ChainMetadata, nonce: u32, payload: CallPayload) -> bool {
    payload.encodable() && body_len(nonce, payload.bytes(meta.calls)) <= MAX_BYTE_STRING
}

/// Whether an envelope is what composition makes of these inputs: it keeps call and
/// nonce, its signature is the signer's signature of the message to sign, and its bytes
/// lay out signer, signature, era, nonce, tip and call.
pub open spec fn built_from(
    envelope: SignedTransactionEnvelope,
    meta: ChainMetadata,
    nonce: u32,
    payload: CallPayload,
    signer: AccountId,
) -> bool {
    &&& envelope.payload() == payload
    &&& envelope.nonce() == nonce
    &&& envelope.signer() == signer
    &&& sr25519_accepts(signer@, message_to_sign(meta, nonce, payload), envelope.signature())
    &&& envelope.encoded() == extrinsic_bytes(
        meta,
        nonce,
        payload,
        signer@,
        envelope.signature(),
    )
}

/// A signed, encoded transaction, with what it was built from. It is made once and
/// handed to the node once.
pub struct SignedTransactionEnvelope {
    encoded: Vec<u8>,
    nonce: u32,
    payload: CallPayload,
    signer: AccountId,
    signature: [u8; 64],
}

impl SignedTransactionEnvelope {
    /// The transaction as the node takes it.
    pub closed spec fn encoded(self) -> Seq<u8> {
        self.encoded@
    }

    /// The nonce the transaction was built with.
    pub closed spec fn nonce(self) -> u32 {
        self.nonce
    }

    /// The call the transaction was built from.
    pub closed spec fn payload(self) -> CallPayload {
        self.payload
    }

    /// The account that signed.
    pub closed spec fn signer(self) -> AccountId {
        self.signer
    }

    /// The signature.
    pub closed spec fn signature(self) -> Seq<u8> {
        self.signature@
    }

    /// The transaction's bytes.
    pub fn as_bytes(&self) -> (bytes: &[u8])
        ensures
            bytes@ == self.encoded(),
    {
        self.encoded.as_slice()
    }

    /// The nonce the transaction was built with.
    pub fn used_nonce(&self) -> (nonce: u32)
        ensures
            nonce == self.nonce(),
    {
        self.nonce
    }

    /// The call the transaction was built from.
    pub fn used_payload(&self) -> (payload: &CallPayload)
        ensures
            *payload == self.payload(),
    {
        &self.payload
    }

    /// The account that signed.
    pub fn used_signer(&self) -> (signer: AccountId)
        ensures
            signer == self.signer(),
    {
        self.signer
    }

    /// The signature.
    pub fn used_signature(&self) -> (signature: [u8; 64])
        ensures
            signature@ == self.signature(),
    {
        self.signature
    }

    /// Hands the transaction over in the form a node takes: hexadecimal behind `0x`.
    pub fn hex_encode(self) -> (text: String)
        ensures
            text@ == prefixed_hex_text(self.encoded()),
    {
        proof {
            reveal_strlit("0x");
        }
        let digits = hex_string(self.encoded.as_slice());
        let text = String::from_str("0x").concat(digits.as_str());
        assert(text@ =~= prefixed_hex_text(self.encoded()));
        text
    }
}

/// The pieces of a transaction that do not depend on the signature.
struct Parts {
    call: Vec<u8>,
    extra: Vec<u8>,
    message: Vec<u8>,
}

/// Writes call and extra, and the message to sign, or gives `None` where the call is
/// not buildable.
fn lay_out(meta: &ChainMetadata, nonce: u32, payload: &CallPayload) -> (parts: Option<Parts>)
    ensures
        parts is Some <==> buildable(*meta, nonce, *payload),
        parts matches Some(p) ==> {
            &&& p.call@ == payload.bytes(meta.calls)
            &&& p.extra@ == extra_bytes(era_for(*meta), nonce)
            &&& p.message@ == message_to_sign(*meta, nonce, *payload)
        },
{
    let call = match payload.encode(&meta.calls) {
        Some(call) => call,
        None => {
            return None;
        },
    };
    let era = Era::mortal(meta.mortality_period, meta.finalized_head_number);
    let mut extra: Vec<u8> = Vec::new();
    era.encode_to(&mut extra);
    push_compact(&mut extra, nonce as u128);
    push_compact(&mut extra, 0);
    assert(extra@ =~= extra_bytes(era, nonce));
    proof {
        era.lemma_bytes_len();
        lemma_le_bytes_len(0, 1);
        assert(extra@.len() == 3 + compact(nonce as nat).len());
    }
    if call.len() as u128 + extra.len() as u128 + 99 > MAX_BYTE_STRING as u128 {
        return None;
    }
    let mut covered: Vec<u8> = Vec::new();
    push_raw(&mut covered, call.as_slice());
    push_raw(&mut covered, extra.as_slice());
    push_u32(&mut covered, meta.spec_version);
    push_u32(&mut covered, meta.transaction_version);
    push_raw(&mut covered, meta.genesis_hash.as_slice());
    push_raw(&mut covered, meta.finalized_head_hash.as_slice());
    assert(covered@ =~= signing_payload(*meta, nonce, *payload));
    let message = if covered.len() > 256 {
        let digest = blake2_256_of(covered.as_slice());
        let mut message: Vec<u8> = Vec::new();
        push_raw(&mut message, digest.as_slice());
        assert(message@ =~= digest@);
        message
    } else {
        covered
    };
    Some(Parts { call, extra, message })
}

/// Lays out the signed transaction for a signature made elsewhere. A call that is not
/// [`buildable`] fails with `Build`; a signature that is not the signer's signature of
/// [`message_to_sign`] fails with `Signing`.
pub fn assemble(
    meta: &ChainMetadata,
    nonce: u32,
    payload: CallPayload,
    signer: AccountId,
    signature: [u8; 64],
) -> (built: Result<SignedTransactionEnvelope, GatewayError>)
    ensures
        built is Ok <==> buildable(*meta, nonce, payload) && sr25519_accepts(
            signer@,
            message_to_sign(*meta, nonce, payload),
            signature@,
        ),
        built matches Ok(envelope) ==> built_from(envelope, *meta, nonce, payload, signer)
            && envelope.signature() == signature@,
        built matches Err(e) ==> if buildable(*meta, nonce, payload) {
            e is Signing
        } else {
            e is Build
        },
{
    let parts = match lay_out(meta, nonce, &payload) {
        Some(parts) => parts,
        None => {
            return Err(GatewayError::Build);
        },
    };
    if !signer.accepts(parts.message.as_slice(), &signature) {
        return Err(GatewayError::Signing);
    }
    let mut body: Vec<u8> = Vec::new();
    body.push(0x84u8);
    body.push(0x00u8);
    push_raw(&mut body, signer.bytes.as_slice());
    body.push(0x01u8);
    push_raw(&mut body, signature.as_slice());
    push_raw(&mut body, parts.extra.as_slice());
    push_raw(&mut body, parts.call.as_slice());
    assert(body@ =~= extrinsic_body(signer@, signature@, parts.extra@, parts.call@));
    proof {
        era_for(*meta).lemma_bytes_len();
        lemma_le_bytes_len(0, 1);
        assert(body@.len() == body_len(nonce, parts.call@));
    }
    let mut encoded: Vec<u8> = Vec::new();
    let fits = push_byte_string(&mut encoded, body.as_slice());
    assert(fits);
    assert(encoded@ =~= byte_string(body@));
    Ok(SignedTransactionEnvelope { encoded, nonce, payload, signer, signature })
}

/// Builds the signed transaction for `payload`: writes the call, derives the era from
/// the metadata's period and head number, has the signer sign call, extra and
/// additional data, and lays out the result. A call that is not [`buildable`] fails
/// with `Build`. A buildable call fails only where the signature that was made for it
/// is one that the signer's own account does not accept, and then with `Signing`. The
/// signature is drawn anew at every call; apart from it the envelope is a function of
/// the arguments.
pub fn build(meta: &ChainMetadata, nonce: u32, payload: CallPayload, signer: &KeyPair) -> (built:
    Result<SignedTransactionEnvelope, GatewayError>)
    ensures
        built is Ok ==> buildable(*meta, nonce, payload),
        built matches Ok(envelope) ==> built_from(envelope, *meta, nonce, payload, signer.account()),
        built matches Err(e) ==> if buildable(*meta, nonce, payload) {
            &&& e is Signing
            &&& exists|made: [u8; 64]|
                !#[trigger] sr25519_accepts(
                    signer.account()@,
                    message_to_sign(*meta, nonce, payload),
                    made@,
                )
        } else {
            e is Build
        },
{
    let message = match lay_out(meta, nonce, &payload) {
        Some(parts) => parts.message,
        None => {
            return Err(GatewayError::Build);
        },
    };
    match signer.sign(message.as_slice()) {
        Some(signature) => assemble(meta, nonce, payload, signer.public(), signature),
        None => Err(GatewayError::Signing),
    }
}

/// Composition is a function of its inputs and the signature: two envelopes built
/// from the same metadata, nonce, call and signer that carry the same signature are
/// the same bytes.
pub proof fn lemma_build_is_deterministic(
    first: SignedTransactionEnvelope,
    second: SignedTransactionEnvelope,
    meta: ChainMetadata,
    nonce: u32,
    payload: CallPayload,
    signer: AccountId,
)
    requires
        built_from(first, meta, nonce, payload, signer),
        built_from(second, meta, nonce, payload, signer),
        first.signature() == second.signature(),
    ensures
        first.encoded() == second.encoded(),
{
}

} // verus!
