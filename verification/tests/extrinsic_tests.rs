use parity_scale_codec::{Compact, Encode};
use sf_api::account::{get_account_id_from_seed, get_pair_from_seed};
use sf_api::error::GatewayError;
use sf_api::extrinsic::{assemble, build, CallIndex, CallPayload, CallTable, ChainMetadata};
use sp_runtime::generic::{Era, UncheckedExtrinsic};
use sp_runtime::{MultiAddress, MultiSignature};

fn table() -> CallTable {
    CallTable {
        transfer: CallIndex { pallet: 6, call: 0 },
        create_collection: CallIndex { pallet: 40, call: 0 },
        mint: CallIndex { pallet: 40, call: 1 },
    }
}

fn meta() -> ChainMetadata {
    ChainMetadata {
        genesis_hash: [0x11; 32],
        finalized_head_hash: [0x22; 32],
        finalized_head_number: 1234,
        spec_version: 100,
        transaction_version: 1,
        mortality_period: 5,
        calls: table(),
    }
}

fn signed_input(call: &[u8], meta: &ChainMetadata, nonce: u32) -> Vec<u8> {
    let era = Era::mortal(meta.mortality_period, meta.finalized_head_number);
    let mut input = call.to_vec();
    input.extend(
        (
            era,
            Compact(nonce),
            Compact(0u128),
            meta.spec_version,
            meta.transaction_version,
            meta.genesis_hash,
            meta.finalized_head_hash,
        )
            .encode(),
    );
    if input.len() > 256 {
        <sp_runtime::traits::BlakeTwo256 as sp_runtime::traits::Hash>::hash(&input).0.to_vec()
    } else {
        input
    }
}

fn verifies(signature: [u8; 64], message: &[u8], signer: [u8; 32]) -> bool {
    <sp_core::sr25519::Pair as sp_core::Pair>::verify(
        &sp_core::sr25519::Signature::from_raw(signature),
        message,
        &sp_core::sr25519::Public::from_raw(signer),
    )
}

#[test]
fn call_bytes_are_indices_and_arguments() {
    let to = get_account_id_from_seed("s1");
    let transfer = CallPayload::Transfer { to, amount: 10_000_000_000_000_000_000 };
    let expected = (6u8, 0u8, MultiAddress::<[u8; 32], ()>::Id(to.bytes), Compact(10_000_000_000_000_000_000u128)).encode();
    assert_eq!(transfer.encode(&table()).unwrap(), expected);
    assert_eq!(expected[..3], [6, 0, 0]);

    let create = CallPayload::CreateCollection { name: b"Widgets".to_vec() };
    assert_eq!(
        create.encode(&table()).unwrap(),
        vec![40, 0, 0x1c, b'W', b'i', b'd', b'g', b'e', b't', b's']
    );
    assert_eq!(create.encode(&table()).unwrap(), (40u8, 0u8, b"Widgets".to_vec()).encode());

    let mint = CallPayload::Mint { collection_id: 42, metadata: b"{}".to_vec(), quantity: 3 };
    assert_eq!(
        mint.encode(&table()).unwrap(),
        vec![40, 1, 42, 0, 0, 0, 0, 0, 0, 0, 0x08, b'{', b'}', 3, 0, 0, 0]
    );
    assert_eq!(mint.encode(&table()).unwrap(), (40u8, 1u8, 42u64, b"{}".to_vec(), 3u32).encode());
}

#[test]
fn envelope_keeps_what_it_was_built_from() {
    let signer = get_pair_from_seed("s1");
    let payload = CallPayload::Mint { collection_id: 42, metadata: b"{\"a\":1}".to_vec(), quantity: 3 };
    let envelope = build(&meta(), 17, payload, &signer).unwrap();
    assert_eq!(envelope.used_nonce(), 17);
    match envelope.used_payload() {
        CallPayload::Mint { collection_id, metadata, quantity } => {
            assert_eq!(*collection_id, 42);
            assert_eq!(metadata, b"{\"a\":1}");
            assert_eq!(*quantity, 3);
        },
        other => panic!("unexpected payload {:?}", other),
    }
}

#[test]
fn envelope_is_the_runtimes_signed_extrinsic() {
    let signer = get_pair_from_seed("s1");
    let name = b"Widgets".to_vec();
    let envelope = build(&meta(), 7, CallPayload::CreateCollection { name: name.clone() }, &signer).unwrap();
    let signature = envelope.used_signature();
    let theirs: UncheckedExtrinsic<
        MultiAddress<sp_core::crypto::AccountId32, ()>,
        (u8, u8, Vec<u8>),
        MultiSignature,
        (Era, Compact<u32>, Compact<u128>),
    > = UncheckedExtrinsic::new_signed(
        (40u8, 0u8, name),
        MultiAddress::Id(sp_core::crypto::AccountId32::new(signer.public().bytes)),
        MultiSignature::Sr25519(sp_core::sr25519::Signature::from_raw(signature)),
        (Era::mortal(5, 1234), Compact(7u32), Compact(0u128)),
    );
    assert_eq!(envelope.as_bytes(), &theirs.encode()[..]);
}

#[test]
fn envelope_layout_is_exact() {
    let signer = get_pair_from_seed("s1");
    let envelope = build(&meta(), 7, CallPayload::CreateCollection { name: b"Widgets".to_vec() }, &signer).unwrap();
    let signature = envelope.used_signature();
    let mut body = vec![0x84u8, 0x00];
    body.extend_from_slice(&signer.public().bytes);
    body.push(0x01);
    body.extend_from_slice(&signature);
    body.extend_from_slice(&[2 + 2 * 16, 0]);
    body.push(7 << 2);
    body.push(0);
    body.extend_from_slice(&[40, 0, 0x1c, b'W', b'i', b'd', b'g', b'e', b't', b's']);
    assert_eq!(body.len(), 113);
    let mut expected = vec![0xc5u8, 0x01];
    expected.extend_from_slice(&body);
    assert_eq!(envelope.as_bytes(), &expected[..]);
}

#[test]
fn signature_covers_call_extra_and_chain() {
    let signer = get_pair_from_seed("s1");
    let payload = CallPayload::CreateCollection { name: b"Widgets".to_vec() };
    let call = payload.encode(&table()).unwrap();
    let envelope = build(&meta(), 7, payload, &signer).unwrap();
    let message = signed_input(&call, &meta(), 7);
    assert!(message.len() <= 256);
    assert!(verifies(envelope.used_signature(), &message, signer.public().bytes));
    assert!(!verifies(envelope.used_signature(), &signed_input(&call, &meta(), 8), signer.public().bytes));
    let mut other_chain = meta();
    other_chain.genesis_hash = [0x33; 32];
    assert!(!verifies(envelope.used_signature(), &signed_input(&call, &other_chain, 7), signer.public().bytes));
    let mut other_head = meta();
    other_head.finalized_head_hash = [0x33; 32];
    assert!(!verifies(envelope.used_signature(), &signed_input(&call, &other_head, 7), signer.public().bytes));
}

#[test]
fn long_payload_is_signed_by_its_digest() {
    let signer = get_pair_from_seed("s1");
    let payload = CallPayload::Mint { collection_id: 1, metadata: vec![0x5a; 400], quantity: 1 };
    let call = payload.encode(&table()).unwrap();
    let envelope = build(&meta(), 0, payload, &signer).unwrap();
    let message = signed_input(&call, &meta(), 0);
    assert_eq!(message.len(), 32);
    assert!(verifies(envelope.used_signature(), &message, signer.public().bytes));
}

#[test]
fn payload_of_256_bytes_is_signed_as_it_is() {
    let signer = get_pair_from_seed("s1");
    // call: 2 + 8 + 2 + n + 4, extra: 2 + 1 + 1, additional: 72
    for (n, hashed) in [(164usize, false), (165, true)] {
        let payload = CallPayload::Mint { collection_id: 1, metadata: vec![1; n], quantity: 1 };
        let call = payload.encode(&table()).unwrap();
        let envelope = build(&meta(), 0, payload, &signer).unwrap();
        let message = signed_input(&call, &meta(), 0);
        assert_eq!(message.len() == 32, hashed);
        assert!(verifies(envelope.used_signature(), &message, signer.public().bytes));
    }
}

#[test]
fn composition_differs_only_in_the_signature() {
    let signer = get_pair_from_seed("s1");
    let first = build(&meta(), 3, CallPayload::CreateCollection { name: b"Widgets".to_vec() }, &signer).unwrap();
    let second = build(&meta(), 3, CallPayload::CreateCollection { name: b"Widgets".to_vec() }, &signer).unwrap();
    let a = first.as_bytes();
    let b = second.as_bytes();
    assert_eq!(a.len(), b.len());
    // length prefix, version, address marker, signer, signature marker
    assert_eq!(a[..37], b[..37]);
    // extra and call, behind the 64 bytes of the signature
    assert_eq!(a[101..], b[101..]);
    assert_eq!(&a[37..101], &first.used_signature()[..]);
    assert_eq!(&b[37..101], &second.used_signature()[..]);
}

#[test]
fn era_follows_the_head() {
    let signer = get_pair_from_seed("s1");
    let mut later = meta();
    later.finalized_head_number = 1237;
    let envelope = build(&later, 0, CallPayload::CreateCollection { name: Vec::new() }, &signer).unwrap();
    let bytes = envelope.as_bytes();
    assert_eq!(bytes[2 + 99..2 + 101], [2 + 5 * 16, 0]);
}

#[test]
fn hex_encode_prefixes_the_bytes() {
    let signer = get_pair_from_seed("s1");
    let envelope = build(&meta(), 7, CallPayload::CreateCollection { name: b"Widgets".to_vec() }, &signer).unwrap();
    let bytes = envelope.as_bytes().to_vec();
    let text = envelope.hex_encode();
    assert!(text.starts_with("0xc5018400"));
    assert_eq!(text.len(), 2 + 2 * bytes.len());
    assert_eq!(text[2..], hex::encode(&bytes));
    assert!(text.ends_with("28001c57696467657473"));
}

#[test]
fn build_never_fails_for_a_call_of_ordinary_size() {
    let signer = get_pair_from_seed("s1");
    let big = CallPayload::Mint { collection_id: u64::MAX, metadata: vec![0; 100_000], quantity: u32::MAX };
    let envelope = build(&meta(), u32::MAX, big, &signer);
    assert!(!matches!(envelope, Err(GatewayError::Build)));
    assert!(envelope.is_ok());
}

#[test]
fn envelope_names_its_signer() {
    let signer = get_pair_from_seed("s1");
    let envelope = build(&meta(), 7, CallPayload::CreateCollection { name: Vec::new() }, &signer).unwrap();
    assert_eq!(envelope.used_signer().bytes, get_account_id_from_seed("s1").bytes);
    assert_eq!(envelope.as_bytes()[4..36], get_account_id_from_seed("s1").bytes);
}

#[test]
fn assemble_with_the_same_signature_gives_the_same_bytes() {
    let signer = get_pair_from_seed("s1");
    let built = build(&meta(), 7, CallPayload::CreateCollection { name: b"Widgets".to_vec() }, &signer).unwrap();
    let again = assemble(
        &meta(),
        7,
        CallPayload::CreateCollection { name: b"Widgets".to_vec() },
        signer.public(),
        built.used_signature(),
    )
    .unwrap();
    assert_eq!(built.as_bytes(), again.as_bytes());
    let once_more = assemble(
        &meta(),
        7,
        CallPayload::CreateCollection { name: b"Widgets".to_vec() },
        signer.public(),
        built.used_signature(),
    )
    .unwrap();
    assert_eq!(again.as_bytes(), once_more.as_bytes());
    assert_eq!(again.hex_encode(), once_more.hex_encode());
}

#[test]
fn assemble_refuses_a_signature_of_something_else() {
    let signer = get_pair_from_seed("s1");
    let built = build(&meta(), 7, CallPayload::CreateCollection { name: b"Widgets".to_vec() }, &signer).unwrap();
    let signature = built.used_signature();
    let other_nonce = assemble(
        &meta(),
        8,
        CallPayload::CreateCollection { name: b"Widgets".to_vec() },
        signer.public(),
        signature,
    );
    assert!(matches!(other_nonce, Err(GatewayError::Signing)));
    let other_call = assemble(
        &meta(),
        7,
        CallPayload::CreateCollection { name: b"Gadgets".to_vec() },
        signer.public(),
        signature,
    );
    assert!(matches!(other_call, Err(GatewayError::Signing)));
    let other_signer = assemble(
        &meta(),
        7,
        CallPayload::CreateCollection { name: b"Widgets".to_vec() },
        get_account_id_from_seed("s2"),
        signature,
    );
    assert!(matches!(other_signer, Err(GatewayError::Signing)));
    let mut other_era = meta();
    other_era.finalized_head_number += 1;
    let other_head = assemble(
        &other_era,
        7,
        CallPayload::CreateCollection { name: b"Widgets".to_vec() },
        signer.public(),
        signature,
    );
    assert!(matches!(other_head, Err(GatewayError::Signing)));
    let none = assemble(
        &meta(),
        7,
        CallPayload::CreateCollection { name: b"Widgets".to_vec() },
        signer.public(),
        [0u8; 64],
    );
    assert!(matches!(none, Err(GatewayError::Signing)));
}

#[test]
fn assemble_tells_a_bad_call_from_a_bad_signature() {
    let signer = get_pair_from_seed("s1");
    let built = build(&meta(), 7, CallPayload::CreateCollection { name: b"Widgets".to_vec() }, &signer).unwrap();
    let wrong = assemble(
        &meta(),
        9,
        CallPayload::CreateCollection { name: b"Widgets".to_vec() },
        signer.public(),
        built.used_signature(),
    );
    match wrong {
        Err(error) => {
            assert_eq!(error.category(), "signing");
            assert!(!error.is_inconclusive());
        },
        Ok(_) => panic!("a signature of another nonce was taken"),
    }
}

#[test]
fn build_answers_every_call_that_can_be_written() {
    let signer = get_pair_from_seed("s1");
    for nonce in [0u32, 1, 63, 64, 16384, u32::MAX] {
        for len in [0usize, 1, 164, 165, 5000] {
            let payload = CallPayload::Mint { collection_id: 1, metadata: vec![7; len], quantity: 2 };
            assert!(build(&meta(), nonce, payload, &signer).is_ok());
        }
    }
}
