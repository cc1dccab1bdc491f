//! Collections and tokens: the requests that create and mint them, and the events
//! that answer those requests.

use vstd::prelude::*;
use vstd::string::*;
use crate::account::{pair_for_seed, seed_public, AccountId};
use crate::command::{get_node_url_from_opt, Opt};
use crate::error::GatewayError;
use crate::event::{
    answers_alike, first_match, lemma_first_answer_is_first_match, lemma_first_match_is_first,
    seen, wait_for_event, Arrival, LedgerEvent, DEADLINE_MS,
};
use crate::extrinsic::CallPayload;
use crate::request::{Expectation, Plan, Request, Watch};

verus! {

/// The body of a request to create a collection.
#[derive(Debug)]
pub struct CreateCollectionInput {
    pub input: CreateCollectionArg,
}

/// Who creates the collection, and under which name.
#[derive(Debug)]
pub struct CreateCollectionArg {
    pub seed: String,
    pub name: String,
}

/// The identifier the ledger gave the new collection.
#[derive(Debug)]
pub struct CreateCollectionOutput {
    pub collection_id: u64,
}

/// The body of a request to mint tokens.
#[derive(Debug)]
pub struct MintNftInput {
    pub input: MintNftArg,
}

/// Who mints, in which collection, how many tokens, and the metadata they carry, as
/// the bytes that go on the ledger.
#[derive(Debug)]
pub struct MintNftArg {
    pub seed: String,
    pub collection_id: u64,
    pub metadata: Vec<u8>,
    pub quantity: u32,
}

/// The tokens the ledger minted, in the order in which it reported them.
#[derive(Debug)]
pub struct MintNftOutput {
    pub collection_id: u64,
    pub asset_ids: Vec<u64>,
}

/// The collection an event reports as created by `owner`, if it reports one. An
/// event about another account's collection says nothing to `owner`.
pub open spec fn created_collection(event: LedgerEvent, owner: AccountId) -> Option<u64> {
    match event {
        LedgerEvent::CollectionCreated { collection_id, who } => if who@ == owner@ {
            Some(collection_id)
        } else {
            None
        },
        _ => None,
    }
}

/// The collection and tokens an event reports as minted by `owner`, if it reports any.
pub open spec fn minted_tokens(event: LedgerEvent, owner: AccountId) -> Option<(u64, Seq<u64>)> {
    match event {
        LedgerEvent::TokenMint { collection_id, asset_ids, who } => if who@ == owner@ {
            Some((collection_id, asset_ids@))
        } else {
            None
        },
        _ => None,
    }
}

/// [`created_collection`] for a fixed owner.
pub open spec fn picks_collection(owner: AccountId) -> spec_fn(LedgerEvent) -> Option<u64> {
    |event: LedgerEvent| created_collection(event, owner)
}

/// [`minted_tokens`] for a fixed owner.
pub open spec fn picks_mint(owner: AccountId) -> spec_fn(LedgerEvent) -> Option<(u64, Seq<u64>)> {
    |event: LedgerEvent| minted_tokens(event, owner)
}

/// A minting as a pair of collection and tokens.
pub open spec fn shown_mint() -> spec_fn(MintNftOutput) -> (u64, Seq<u64>) {
    |minted: MintNftOutput| (minted.collection_id, minted.asset_ids@)
}

/// A collection identifier as itself.
pub open spec fn shown_collection() -> spec_fn(u64) -> u64 {
    |id: u64| id
}

/// The collection that `event` reports as created by `owner`.
pub fn collection_created_by(event: &LedgerEvent, owner: &AccountId) -> (id: Option<u64>)
    ensures
        id == created_collection(*event, *owner),
{
    match event {
        LedgerEvent::CollectionCreated { collection_id, who } => {
            if who.same(owner) {
                Some(*collection_id)
            } else {
                None
            }
        },
        _ => None,
    }
}

/// The tokens that `event` reports as minted by `owner`, in the event's order.
pub fn tokens_minted_by(event: &LedgerEvent, owner: &AccountId) -> (minted: Option<MintNftOutput>)
    ensures
        match minted {
            Some(m) => minted_tokens(*event, *owner) == Some((m.collection_id, m.asset_ids@)),
            None => minted_tokens(*event, *owner) is None,
        },
{
    match event {
        LedgerEvent::TokenMint { collection_id, asset_ids, who } => {
            if who.same(owner) {
                let copied = asset_ids.clone();
                assert(copied@ =~= asset_ids@);
                Some(MintNftOutput { collection_id: *collection_id, asset_ids: copied })
            } else {
                None
            }
        },
        _ => None,
    }
}

/// An event answers a request only if it names the requester: one that names another
/// account has no answer, whatever else it holds.
pub proof fn lemma_only_the_requesters_event_answers(event: LedgerEvent, owner: AccountId)
    ensures
        created_collection(event, owner) is Some ==> (event matches LedgerEvent::CollectionCreated {
            who,
            ..
        } && who@ == owner@),
        minted_tokens(event, owner) is Some ==> (event matches LedgerEvent::TokenMint { who, .. }
            && who@ == owner@),
{
}

/// The request that creates a collection: it transacts as the account of the seed and
/// then listens for the creation that this account caused.
pub fn create_collection(req: CreateCollectionInput, opt: &Opt) -> (request: Result<
    Request,
    GatewayError,
>)
    ensures
        request is Ok <==> crate::account::valid_seed(req.input.seed@),
        request matches Err(e) ==> e is Build,
        request matches Ok(r) ==> {
            &&& r matches Request::Created { node, plan: Plan::Transact { signer, payload, watch } }
            &&& node@ == opt.node_server@
            &&& signer.seed() == req.input.seed@
            &&& seed_public(signer.seed()) == Some(signer.account()@)
            &&& payload matches CallPayload::CreateCollection { name }
            &&& name@ == vstd::utf8::encode_utf8(req.input.name@)
            &&& watch == (Watch {
                expect: Expectation::CollectionCreated { owner: signer.account() },
                deadline_ms: DEADLINE_MS,
            })
        },
{
    let signer = match pair_for_seed(req.input.seed.as_str()) {
        Some(pair) => pair,
        None => {
            return Err(GatewayError::Build);
        },
    };
    let owner = signer.public();
    let name = req.input.name.as_str().as_bytes_vec();
    Ok(
        Request::Created {
            node: get_node_url_from_opt(opt),
            plan: Plan::Transact {
                signer,
                payload: CallPayload::CreateCollection { name },
                watch: Watch {
                    expect: Expectation::CollectionCreated { owner },
                    deadline_ms: DEADLINE_MS,
                },
            },
        },
    )
}

/// The request that mints tokens: it transacts as the account of the seed and then
/// listens for the minting that this account caused.
pub fn mint(req: MintNftInput, opt: &Opt) -> (request: Result<Request, GatewayError>)
    ensures
        request is Ok <==> crate::account::valid_seed(req.input.seed@),
        request matches Err(e) ==> e is Build,
        request matches Ok(r) ==> {
            &&& r matches Request::Created { node, plan: Plan::Transact { signer, payload, watch } }
            &&& node@ == opt.node_server@
            &&& signer.seed() == req.input.seed@
            &&& seed_public(signer.seed()) == Some(signer.account()@)
            &&& payload == (CallPayload::Mint {
                collection_id: req.input.collection_id,
                metadata: req.input.metadata,
                quantity: req.input.quantity,
            })
            &&& watch == (Watch {
                expect: Expectation::TokenMint { owner: signer.account() },
                deadline_ms: DEADLINE_MS,
            })
        },
{
    let signer = match pair_for_seed(req.input.seed.as_str()) {
        Some(pair) => pair,
        None => {
            return Err(GatewayError::Build);
        },
    };
    let owner = signer.public();
    Ok(
        Request::Created {
            node: get_node_url_from_opt(opt),
            plan: Plan::Transact {
                signer,
                payload: CallPayload::Mint {
                    collection_id: req.input.collection_id,
                    metadata: req.input.metadata,
                    quantity: req.input.quantity,
                },
                watch: Watch { expect: Expectation::TokenMint { owner }, deadline_ms: DEADLINE_MS },
            },
        },
    )
}

/// Listens to a recorded stream for the collection that `owner` created: the first
/// such event among those seen before the deadline closes.
pub fn await_collection(stream: &Vec<Arrival>, deadline_ms: u64, owner: &AccountId) -> (id: Option<
    u64,
>)
    ensures
        id == first_match(seen(stream@, deadline_ms), picks_collection(*owner)),
{
    let handler = |event: &LedgerEvent| -> (id: Option<u64>)
        ensures
            id == created_collection(*event, *owner),
        { collection_created_by(event, owner) };
    let found = wait_for_event(stream, deadline_ms, handler);
    proof {
        lemma_first_answer_is_first_match(
            handler,
            seen(stream@, deadline_ms),
            found,
            picks_collection(*owner),
            shown_collection(),
        );
    }
    found
}

/// Listens to a recorded stream for the tokens that `owner` minted: the first such
/// event among those seen before the deadline closes, its tokens in the event's order.
pub fn await_mint(stream: &Vec<Arrival>, deadline_ms: u64, owner: &AccountId) -> (minted: Option<
    MintNftOutput,
>)
    ensures
        answers_alike(
            minted,
            first_match(seen(stream@, deadline_ms), picks_mint(*owner)),
            shown_mint(),
        ),
{
    let handler = |event: &LedgerEvent| -> (minted: Option<MintNftOutput>)
        ensures
            match minted {
                Some(m) => minted_tokens(*event, *owner) == Some((m.collection_id, m.asset_ids@)),
                None => minted_tokens(*event, *owner) is None,
            },
        { tokens_minted_by(event, owner) };
    let found = wait_for_event(stream, deadline_ms, handler);
    proof {
        lemma_first_answer_is_first_match(
            handler,
            seen(stream@, deadline_ms),
            found,
            picks_mint(*owner),
            shown_mint(),
        );
    }
    found
}

/// What a listener matches belongs to the requester: a collection is matched only
/// where the stream holds an event that reports it for the requester's own account,
/// and no earlier event of the stream did so. Events of other accounts, before or
/// between, change nothing.
pub proof fn lemma_match_is_the_requesters(events: Seq<LedgerEvent>, owner: AccountId) -> (at: int)
    requires
        first_match(events, picks_collection(owner)) is Some,
    ensures
        0 <= at < events.len(),
        events[at] matches LedgerEvent::CollectionCreated { collection_id, who } && who@ == owner@
            && first_match(events, picks_collection(owner)) == Some(collection_id),
        forall|j: int| 0 <= j < at ==> created_collection(#[trigger] events[j], owner) is None,
{
    let at = lemma_first_match_is_first(events, picks_collection(owner));
    assert forall|j: int| 0 <= j < at implies created_collection(
        #[trigger] events[j],
        owner,
    ) is None by {
        assert(picks_collection(owner)(events[j]) is None);
    }
    at
}

/// The same for minted tokens: they are matched only from an event that names the
/// requester, and come out as that event holds them.
pub proof fn lemma_minted_is_the_requesters(events: Seq<LedgerEvent>, owner: AccountId) -> (at: int)
    requires
        first_match(events, picks_mint(owner)) is Some,
    ensures
        0 <= at < events.len(),
        events[at] matches LedgerEvent::TokenMint { collection_id, asset_ids, who } && who@
            == owner@ && first_match(events, picks_mint(owner)) == Some(
            (collection_id, asset_ids@),
        ),
        forall|j: int| 0 <= j < at ==> minted_tokens(#[trigger] events[j], owner) is None,
{
    let at = lemma_first_match_is_first(events, picks_mint(owner));
    assert forall|j: int| 0 <= j < at implies minted_tokens(#[trigger] events[j], owner) is None by {
        assert(picks_mint(owner)(events[j]) is None);
    }
    at
}

} // verus!
