use sf_api::account::{
    account_balance, create_pair, fund_account, get_account_id_from_seed, get_from_seed,
    get_pair_from_seed, pair_for_seed, pair_response, seed_is_valid, AccountBalanceArg,
    AccountBalanceInput, AccountId, FundAccountArg, FundAccountInput, FUNDING_AMOUNT,
};
use sf_api::command::Opt;
use sf_api::error::GatewayError;
use sf_api::extrinsic::CallPayload;
use sf_api::request::{Expectation, Plan, Request};

const ALICE: [u8; 32] = [
    0xd4, 0x35, 0x93, 0xc7, 0x15, 0xfd, 0xd3, 0x1c, 0x61, 0x14, 0x1a, 0xbd, 0x04, 0xa9, 0x9f, 0xd6,
    0x82, 0x2c, 0x85, 0x58, 0x85, 0x4c, 0xcd, 0xe3, 0x9a, 0x56, 0x84, 0xe7, 0xa5, 0x6d, 0xa2, 0x7d,
];

#[test]
fn alice_has_her_well_known_key() {
    assert!(seed_is_valid("Alice"));
    assert_eq!(get_from_seed("Alice"), ALICE);
    assert_eq!(get_account_id_from_seed("Alice").bytes, ALICE);
}

#[test]
fn alice_is_the_keyring_alice() {
    let keyring = sp_keyring::Sr25519Keyring::Alice;
    assert_eq!(get_from_seed("Alice"), keyring.public().0);
    let account: [u8; 32] = keyring.to_account_id().into();
    assert_eq!(get_account_id_from_seed("Alice").bytes, account);
}

#[test]
fn account_is_shown_as_ss58() {
    let alice = get_account_id_from_seed("Alice");
    assert_eq!(alice.to_ss58(), "5GrwvaEF5zXb26Fz9rcQpDWS57CtERHpNehXCPcNoHGKutQY");
    let bob = get_account_id_from_seed("Bob");
    assert_eq!(bob.to_ss58(), "5FHneW46xGXgs5mUiveU4sbTyGBzmstUspZC92UhjJM694ty");
}

#[test]
fn ss58_text_is_that_of_the_account_type() {
    let id = get_account_id_from_seed("s1");
    let account = sp_core::crypto::AccountId32::new(id.bytes);
    assert_eq!(id.to_ss58(), format!("{}", account));
}

#[test]
fn derivation_is_deterministic() {
    let first = get_account_id_from_seed("s1");
    let second = get_account_id_from_seed("s1");
    assert!(first.same(&second));
    assert_eq!(first.bytes, second.bytes);
    let other = get_account_id_from_seed("s2");
    assert!(!first.same(&other));
}

#[test]
fn pair_and_account_agree() {
    let pair = get_pair_from_seed("s1");
    assert_eq!(pair.public().bytes, get_from_seed("s1"));
    assert_eq!(pair.public().bytes, get_account_id_from_seed("s1").bytes);
}

#[test]
fn seed_without_a_name_is_not_valid() {
    assert!(!seed_is_valid(""));
    assert!(pair_for_seed("").is_none());
    assert!(pair_for_seed("s1").is_some());
}

#[test]
fn seed_with_a_password_part_is_still_a_seed() {
    assert!(seed_is_valid("a/b"));
    assert!(seed_is_valid("a///secret"));
    assert_ne!(get_from_seed("a/b"), get_from_seed("a"));
}

#[test]
fn same_compares_every_byte() {
    let mut bytes = [7u8; 32];
    let a = AccountId { bytes };
    bytes[31] = 8;
    let b = AccountId { bytes };
    assert!(a.same(&a));
    assert!(!a.same(&b));
    bytes[31] = 7;
    bytes[0] = 0;
    assert!(!a.same(&AccountId { bytes }));
}

#[test]
fn signature_is_the_pairs_own() {
    let pair = get_pair_from_seed("s1");
    let message = b"a message";
    let signature = pair.sign(message).unwrap();
    let public = sp_core::sr25519::Public::from_raw(pair.public().bytes);
    let good = <sp_core::sr25519::Pair as sp_core::Pair>::verify(
        &sp_core::sr25519::Signature::from_raw(signature),
        &message[..],
        &public,
    );
    assert!(good);
    let other = sp_core::sr25519::Public::from_raw(get_from_seed("s2"));
    assert!(!<sp_core::sr25519::Pair as sp_core::Pair>::verify(
        &sp_core::sr25519::Signature::from_raw(signature),
        &message[..],
        &other,
    ));
}

#[test]
fn account_accepts_its_own_signatures_only() {
    let pair = get_pair_from_seed("s1");
    let signature = pair.sign(b"a message").unwrap();
    assert!(pair.public().accepts(b"a message", &signature));
    assert!(!pair.public().accepts(b"another message", &signature));
    assert!(!get_account_id_from_seed("s2").accepts(b"a message", &signature));
    assert!(!pair.public().accepts(b"a message", &[0u8; 64]));
    let mut bent = signature;
    bent[3] ^= 1;
    assert!(!pair.public().accepts(b"a message", &bent));
}

#[test]
fn own_signature_keeps_what_the_account_accepts() {
    let pair = get_pair_from_seed("s1");
    let signature = pair.sign(b"a message").unwrap();
    assert_eq!(pair.public().own_signature(b"a message", signature), Some(signature));
    assert_eq!(pair.public().own_signature(b"another message", signature), None);
    assert_eq!(get_account_id_from_seed("s2").own_signature(b"a message", signature), None);
    assert_eq!(pair.public().own_signature(b"a message", [0u8; 64]), None);
}

#[test]
fn sign_gives_a_signature_for_any_message() {
    let pair = get_pair_from_seed("s1");
    for message in [&b""[..], &b"a"[..], &[0u8; 300][..]] {
        let signature = pair.sign(message).unwrap();
        assert!(pair.public().accepts(message, &signature));
    }
}

#[test]
fn signatures_of_one_message_differ() {
    let pair = get_pair_from_seed("s1");
    let first = pair.sign(b"a message").unwrap();
    let second = pair.sign(b"a message").unwrap();
    assert_ne!(first, second);
}

#[test]
fn pair_response_holds_hex_seed_and_its_account() {
    let mut entropy = [0u8; 32];
    for (i, byte) in entropy.iter_mut().enumerate() {
        *byte = (i as u8) * 8 + 1;
    }
    let response = pair_response(&entropy).unwrap();
    assert_eq!(
        response.seed,
        "0109111921293139414951596169717981899199a1a9b1b9c1c9d1d9e1e9f1f9"
    );
    assert_eq!(response.seed.len(), 64);
    assert_eq!(response.account, get_account_id_from_seed(&response.seed).to_ss58());
}

#[test]
fn pair_response_is_the_same_for_the_same_entropy() {
    let entropy = [0xabu8; 32];
    let first = pair_response(&entropy).unwrap();
    let second = pair_response(&entropy).unwrap();
    assert_eq!(first.seed, "ab".repeat(32));
    assert_eq!(first.seed, second.seed);
    assert_eq!(first.account, second.account);
}

#[test]
fn create_pair_gives_a_usable_seed() {
    let first = create_pair().unwrap();
    let second = create_pair().unwrap();
    assert_eq!(first.seed.len(), 64);
    assert!(first.seed.chars().all(|c| c.is_ascii_hexdigit() && !c.is_ascii_uppercase()));
    assert!(seed_is_valid(&first.seed));
    assert_eq!(first.account, get_account_id_from_seed(&first.seed).to_ss58());
    assert_ne!(first.seed, second.seed);
}

#[test]
fn fund_account_plans_a_transfer_from_the_funding_account() {
    let opt = Opt::default();
    let input = FundAccountInput { input: FundAccountArg { seed: "s1".to_string() } };
    match fund_account(input, &opt) {
        Ok(Request::Created { node, plan: Plan::Transact { signer, payload, watch } }) => {
            assert_eq!(node, "ws://127.0.0.1:9944");
            assert_eq!(signer.public().bytes, ALICE);
            match payload {
                CallPayload::Transfer { to, amount } => {
                    assert_eq!(to.bytes, get_from_seed("s1"));
                    assert_eq!(amount, 10_000_000_000_000_000_000u128);
                    assert_eq!(amount, FUNDING_AMOUNT);
                },
                other => panic!("unexpected payload {:?}", other),
            }
            match watch.expect {
                Expectation::Inclusion { amount } => assert_eq!(amount, FUNDING_AMOUNT),
                other => panic!("unexpected expectation {:?}", other),
            }
        },
        _ => panic!("not a fresh transfer request"),
    }
}

#[test]
fn fund_account_refuses_a_seed_that_is_none() {
    let opt = Opt::default();
    let input = FundAccountInput { input: FundAccountArg { seed: String::new() } };
    assert!(matches!(fund_account(input, &opt), Err(GatewayError::Build)));
}

#[test]
fn account_balance_plans_a_query() {
    let opt = Opt::default();
    let input = AccountBalanceInput { input: AccountBalanceArg { seed: "s1".to_string() } };
    match account_balance(input, &opt) {
        Ok(Request::Created { node, plan: Plan::Balance { who } }) => {
            assert_eq!(node, "ws://127.0.0.1:9944");
            assert_eq!(who.bytes, get_from_seed("s1"));
        },
        _ => panic!("not a fresh balance request"),
    }
    let bad = AccountBalanceInput { input: AccountBalanceArg { seed: String::new() } };
    assert!(matches!(account_balance(bad, &opt), Err(GatewayError::Build)));
}

#[test]
fn create_pair_always_answers() {
    for _ in 0..20 {
        let pair = create_pair().unwrap();
        assert_eq!(pair.seed.len(), 64);
        assert_eq!(hex::decode(&pair.seed).unwrap().len(), 32);
    }
}
