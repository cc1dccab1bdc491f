//! Accounts: the identity a seed stands for, and the key pair that signs for it.

use vstd::prelude::*;
use vstd::string::*;
use crate::crypto::{
    fresh_entropy, pair_from_suri, sign_with_pair, signature_accepted, sr25519_accepts,
    sr25519_public, ss58_encode, ss58_text,
};
use crate::command::{get_node_url_from_opt, Opt};
use crate::error::GatewayError;
use crate::event::DEADLINE_MS;
use crate::extrinsic::CallPayload;
use crate::request::{Expectation, Plan, Request, Watch};
use crate::hexcode::{hex_string, hex_text, lemma_hex_text_len};

verus! {

/// The public identifier of an account: the 32 bytes of its sr25519 public key.
#[derive(Clone, Copy, Debug)]
pub struct AccountId {
    pub bytes: [u8; 32],
}

impl View for AccountId {
    type V = Seq<u8>;

    open spec fn view(&self) -> Seq<u8> {
        self.bytes@
    }
}

impl AccountId {
    /// Whether two identifiers hold the same bytes.
    pub fn same(&self, other: &AccountId) -> (equal: bool)
        ensures
            equal == (self@ == other@),
    {
        let mut i: usize = 0;
        while i < 32
            invariant
                i <= 32,
                forall|j: int| 0 <= j < i ==> self.bytes@[j] == other.bytes@[j],
            decreases 32 - i,
        {
            if self.bytes[i] != other.bytes[i] {
                return false;
            }
            i += 1;
        }
        assert(self@ =~= other@);
        true
    }

    /// Whether `signature` is this account's signature of `message`.
    pub fn accepts(&self, message: &[u8], signature: &[u8; 64]) -> (accepted: bool)
        ensures
            accepted == sr25519_accepts(self@, message@, signature@),
    {
        signature_accepted(&self.bytes, message, signature)
    }

    /// Decides what becomes of a signature that was made for `message`: it is handed on
    /// where this account accepts it, and dropped where it does not.
    pub fn own_signature(&self, message: &[u8], signature: [u8; 64]) -> (kept: Option<[u8; 64]>)
        ensures
            kept == if sr25519_accepts(self@, message@, signature@) {
                Some(signature)
            } else {
                None
            },
    {
        if self.accepts(message, &signature) {
            Some(signature)
        } else {
            None
        }
    }

    /// The identifier as SS58 text.
    pub fn to_ss58(&self) -> (text: String)
        ensures
            text@ == ss58_text(self@),
    {
        ss58_encode(&self.bytes)
    }
}

/// The secret URI of a seed: a hard derivation of that name under the development phrase.
pub open spec fn seed_suri(seed: Seq<char>) -> Seq<char> {
    seq!['/', '/'] + seed
}

/// The public key that a seed stands for, where it stands for one.
pub open spec fn seed_public(seed: Seq<char>) -> Option<Seq<u8>> {
    sr25519_public(seed_suri(seed))
}

/// Whether a seed stands for a key.
pub open spec fn valid_seed(seed: Seq<char>) -> bool {
    seed_public(seed) is Some
}

fn suri_of(seed: &str) -> (suri: String)
    ensures
        suri@ == seed_suri(seed@),
{
    proof {
        reveal_strlit("//");
    }
    let suri = String::from_str("//").concat(seed);
    assert(suri@ =~= seed_suri(seed@));
    suri
}

/// Whether `seed` stands for a key. The functions that derive from a seed ask for
/// this of their callers.
pub fn seed_is_valid(seed: &str) -> (valid: bool)
    ensures
        valid == valid_seed(seed@),
{
    let suri = suri_of(seed);
    pair_from_suri(suri.as_str()).is_some()
}

/// The public key of a seed.
pub fn get_from_seed(seed: &str) -> (public: [u8; 32])
    requires
        valid_seed(seed@),
    ensures
        seed_public(seed@) == Some(public@),
{
    get_pair_from_seed(seed).public().bytes
}

/// The account identifier of a seed: for sr25519 the public key itself.
pub fn get_account_id_from_seed(seed: &str) -> (account: AccountId)
    requires
        valid_seed(seed@),
    ensures
        seed_public(seed@) == Some(account@),
{
    AccountId { bytes: get_from_seed(seed) }
}

/// A signer: the seed it was derived from and the account it signs for.
pub struct KeyPair {
    seed: String,
    account: AccountId,
    pair: sp_core::sr25519::Pair,
}

impl KeyPair {
    #[verifier::type_invariant]
    spec fn holds_its_own_key(self) -> bool {
        seed_public(self.seed@) == Some(self.account@)
    }

    /// The seed the pair was derived from.
    pub closed spec fn seed(self) -> Seq<char> {
        self.seed@
    }

    /// The account the pair signs for.
    pub closed spec fn account(self) -> AccountId {
        self.account
    }

    /// The account the pair signs for.
    pub fn public(&self) -> (account: AccountId)
        ensures
            account == self.account(),
            seed_public(self.seed()) == Some(account@),
    {
        proof {
            use_type_invariant(self);
        }
        self.account
    }

    /// Signs `message` with the pair's secret key and hands the signature out only if
    /// the pair's own account accepts it. Two signatures of one message differ, so which
    /// signature comes back is open; nothing comes back only where the signature that
    /// was made is one that the account does not accept.
    pub fn sign(&self, message: &[u8]) -> (signature: Option<[u8; 64]>)
        ensures
            signature matches Some(s) ==> sr25519_accepts(self.account()@, message@, s@),
            signature is None ==> exists|made: [u8; 64]|
                !#[trigger] sr25519_accepts(self.account()@, message@, made@),
    {
        let made = sign_with_pair(&self.pair, message);
        let signature = self.account.own_signature(message, made);
        proof {
            if signature is None {
                assert(!sr25519_accepts(self.account()@, message@, made@));
            }
        }
        signature
    }
}

/// The key pair of a seed.
pub fn get_pair_from_seed(seed: &str) -> (pair: KeyPair)
    requires
        valid_seed(seed@),
    ensures
        pair.seed() == seed@,
        seed_public(seed@) == Some(pair.account()@),
{
    let suri = suri_of(seed);
    match pair_from_suri(suri.as_str()) {
        Some((pair, key)) => KeyPair {
            seed: String::from_str(seed),
            account: AccountId { bytes: key },
            pair,
        },
        None => vstd::pervasive::unreached(),
    }
}

/// The key pair of a seed, or `None` where the seed stands for no key.
pub fn pair_for_seed(seed: &str) -> (pair: Option<KeyPair>)
    ensures
        pair is Some <==> valid_seed(seed@),
        pair matches Some(p) ==> p.seed() == seed@ && seed_public(seed@) == Some(p.account()@),
{
    if seed_is_valid(seed) {
        Some(get_pair_from_seed(seed))
    } else {
        None
    }
}

/// Identity derivation is a function of the seed: equal seeds give equal accounts.
pub proof fn lemma_derivation_is_deterministic(first: Seq<char>, second: Seq<char>)
    requires
        first == second,
    ensures
        seed_public(first) == seed_public(second),
{
}

/// What a request for a new pair is answered with.
#[derive(Debug)]
pub struct CreatePairResponse {
    /// The new seed, as 64 hexadecimal digits.
    pub seed: String,
    /// The account of that seed, as SS58 text.
    pub account: String,
}

/// The answer for a pair whose seed is the hexadecimal text of `entropy`.
pub fn pair_response(entropy: &[u8; 32]) -> (response: Result<CreatePairResponse, GatewayError>)
    ensures
        response is Ok <==> valid_seed(hex_text(entropy@)),
        response matches Ok(pair) ==> {
            &&& pair.seed@ == hex_text(entropy@)
            &&& pair.seed@.len() == 64
            &&& seed_public(pair.seed@) matches Some(key) && pair.account@ == ss58_text(key)
        },
        response matches Err(e) ==> e is Build,
{
    let seed = hex_string(entropy.as_slice());
    proof {
        lemma_hex_text_len(entropy@);
    }
    if seed_is_valid(seed.as_str()) {
        let account = get_account_id_from_seed(seed.as_str()).to_ss58();
        Ok(CreatePairResponse { seed, account })
    } else {
        Err(GatewayError::Build)
    }
}

/// A new pair from fresh entropy: the answer of [`pair_response`] for 32 bytes drawn
/// for this call. It fails only where the seed made of those bytes stands for no key.
pub fn create_pair() -> (response: Result<CreatePairResponse, GatewayError>)
    ensures
        exists|entropy: [u8; 32]|
            {
                &&& response is Ok <==> #[trigger] valid_seed(hex_text(entropy@))
                &&& response matches Ok(pair) ==> pair.seed@ == hex_text(entropy@)
            },
        response matches Ok(pair) ==> {
            &&& pair.seed@.len() == 64
            &&& seed_public(pair.seed@) matches Some(key) && pair.account@ == ss58_text(key)
        },
        response matches Err(e) ==> e is Build,
{
    let entropy = fresh_entropy();
    let response = pair_response(&entropy);
    proof {
        assert(response is Ok <==> valid_seed(hex_text(entropy@)));
    }
    response
}

/// The seed of the account that funds others.
pub const FUNDING_SEED: &'static str = "Alice";

/// What a funded account receives.
pub const FUNDING_AMOUNT: u128 = 10_000_000_000_000_000_000;

/// The body of a request to fund an account.
#[derive(Debug)]
pub struct FundAccountInput {
    pub input: FundAccountArg,
}

/// The seed of the account to fund.
#[derive(Debug)]
pub struct FundAccountArg {
    pub seed: String,
}

/// The amount that was moved to the account.
#[derive(Debug)]
pub struct FundAccountOutput {
    pub amount: u128,
}

/// The body of a request for an account's balance.
#[derive(Debug)]
pub struct AccountBalanceInput {
    pub input: AccountBalanceArg,
}

/// The seed of the account asked about.
#[derive(Debug)]
pub struct AccountBalanceArg {
    pub seed: String,
}

/// The free balance of the account; zero where the ledger does not know it.
#[derive(Debug)]
pub struct AccountBalanceOutput {
    pub amount: u128,
}

/// The request that funds the account of a seed: the funding account transfers the
/// fixed amount to it, and inclusion of the transfer is taken for success.
pub fn fund_account(req: FundAccountInput, opt: &Opt) -> (request: Result<Request, GatewayError>)
    ensures
        request is Ok <==> valid_seed(req.input.seed@) && valid_seed(FUNDING_SEED@),
        request matches Err(e) ==> e is Build,
        request matches Ok(r) ==> {
            &&& r matches Request::Created { node, plan: Plan::Transact { signer, payload, watch } }
            &&& node@ == opt.node_server@
            &&& signer.seed() == FUNDING_SEED@
            &&& seed_public(signer.seed()) == Some(signer.account()@)
            &&& payload matches CallPayload::Transfer { to, amount }
            &&& seed_public(req.input.seed@) == Some(to@)
            &&& amount == FUNDING_AMOUNT
            &&& watch == (Watch {
                expect: Expectation::Inclusion { amount: FUNDING_AMOUNT },
                deadline_ms: DEADLINE_MS,
            })
        },
{
    let to = match pair_for_seed(req.input.seed.as_str()) {
        Some(pair) => pair.public(),
        None => {
            return Err(GatewayError::Build);
        },
    };
    let signer = match pair_for_seed(FUNDING_SEED) {
        Some(pair) => pair,
        None => {
            return Err(GatewayError::Build);
        },
    };
    Ok(
        Request::Created {
            node: get_node_url_from_opt(opt),
            plan: Plan::Transact {
                signer,
                payload: CallPayload::Transfer { to, amount: FUNDING_AMOUNT },
                watch: Watch {
                    expect: Expectation::Inclusion { amount: FUNDING_AMOUNT },
                    deadline_ms: DEADLINE_MS,
                },
            },
        },
    )
}

/// The request that reads the free balance of the account of a seed. Nothing is
/// signed or submitted for it.
pub fn account_balance(req: AccountBalanceInput, opt: &Opt) -> (request: Result<
    Request,
    GatewayError,
>)
    ensures
        request is Ok <==> valid_seed(req.input.seed@),
        request matches Err(e) ==> e is Build,
        request matches Ok(r) ==> {
            &&& r matches Request::Created { node, plan: Plan::Balance { who } }
            &&& node@ == opt.node_server@
            &&& seed_public(req.input.seed@) == Some(who@)
        },
{
    let who = match pair_for_seed(req.input.seed.as_str()) {
        Some(pair) => pair.public(),
        None => {
            return Err(GatewayError::Build);
        },
    };
    Ok(Request::Created { node: get_node_url_from_opt(opt), plan: Plan::Balance { who } })
}

} // verus!
