//! A request's way through the ledger: connect, learn the chain's state, compose,
//! subscribe, submit, listen, answer. The steps that touch the node are left to a
//! driver; what to do next, and what to make of the node's answers, is decided here.

use vstd::prelude::*;
use crate::account::{AccountBalanceOutput, AccountId, FundAccountOutput, KeyPair};
use crate::error::GatewayError;
use crate::event::{
    answers, batch_events, first_match, lemma_first_answer_is_first_match,
    lemma_match_in_the_latest, lemma_same_answers_same_match, scan_batch, seen, Arrival, Batch,
    LedgerEvent,
};
use crate::crypto::sr25519_accepts;
use crate::extrinsic::{
    build, buildable, built_from, message_to_sign, CallPayload, ChainMetadata,
    SignedTransactionEnvelope,
};
use crate::nft::{
    collection_created_by, created_collection, lemma_minted_is_the_requesters, minted_tokens,
    picks_collection, picks_mint, shown_collection, shown_mint, tokens_minted_by,
    CreateCollectionOutput, MintNftOutput,
};

verus! {

/// What tells a request that its transaction took effect.
#[derive(Clone, Copy, Debug)]
pub enum Expectation {
    /// Inclusion in a block is enough; `amount` is what the answer reports.
    Inclusion { amount: u128 },
    /// An event that reports a collection created by `owner`.
    CollectionCreated { owner: AccountId },
    /// An event that reports tokens minted by `owner`.
    TokenMint { owner: AccountId },
}

/// What a request waits for once its transaction is in a block, and for how long.
#[derive(Clone, Copy, Debug)]
pub struct Watch {
    pub expect: Expectation,
    pub deadline_ms: u64,
}

/// What a request sets out to do.
pub enum Plan {
    /// Sign and submit a call, then wait for what confirms it.
    Transact { signer: KeyPair, payload: CallPayload, watch: Watch },
    /// Read the free balance of an account.
    Balance { who: AccountId },
}

/// A request and how far it has come.
pub enum Request {
    /// Nothing has been done yet.
    Created { node: String, plan: Plan },
    /// The driver is opening the session.
    Connecting { plan: Plan },
    /// The driver is fetching the chain's metadata and the signer's nonce.
    FetchingMetadata { signer: KeyPair, payload: CallPayload, watch: Watch },
    /// The transaction is composed; the driver is subscribing to the event stream.
    Subscribing { envelope: SignedTransactionEnvelope, watch: Watch },
    /// The driver has the transaction and waits for its inclusion.
    Submitting { watch: Watch },
    /// The transaction is in a block; the request listens for its event.
    Listening { watch: Watch },
    /// The driver is reading a balance.
    QueryingBalance,
    /// The request has been answered.
    Done,
}

/// What the driver reports back.
pub enum Event {
    /// The driver is ready to begin.
    Start,
    /// The session is open.
    Connected,
    /// The node could not be reached.
    ConnectFailed,
    /// The chain's state at one finalized head, and the signer's next nonce there.
    Metadata { meta: ChainMetadata, nonce: u32 },
    /// The chain's state could not be had from one head.
    MetadataFailed,
    /// The event stream is open.
    Subscribed,
    /// The event stream could not be opened.
    SubscribeFailed,
    /// The transaction is in a block, `elapsed_ms` after the event stream was opened
    /// (or after submission, where no stream was opened).
    Included { elapsed_ms: u64 },
    /// The node refused the transaction.
    Rejected { reason: String },
    /// The event stream delivered a batch.
    Arrived { arrival: Arrival },
    /// The wait for a batch ran out with none delivered.
    Silence { elapsed_ms: u64 },
    /// The free balance of the account asked for, or `None` where the ledger has no
    /// such account.
    Balance { free: Option<u128> },
}

/// What a request is answered with.
#[derive(Debug)]
pub enum Response {
    Funded(FundAccountOutput),
    Balance(AccountBalanceOutput),
    Collection(CreateCollectionOutput),
    Minted(MintNftOutput),
}

/// What the driver is to do next.
pub enum Action {
    /// Open a session with the node at this address.
    Connect { node: String },
    /// Fetch the finalized head, its header, genesis hash and versions, and the next
    /// nonce of `signer`, all at that head.
    FetchMetadata { signer: AccountId },
    /// Open the event stream, and start counting time.
    Subscribe,
    /// Hand the transaction to the node and wait until it is in a block.
    Submit { envelope: SignedTransactionEnvelope },
    /// Wait for the next batch of events, no longer than `wait_ms`.
    Receive { wait_ms: u64 },
    /// Read the free balance of `who`.
    QueryBalance { who: AccountId },
    /// Answer the caller. The request is over.
    Respond { outcome: Result<Response, GatewayError> },
    /// Nothing: the request was over before.
    Idle,
}

/// A request after a step, and what the step asks of the driver.
pub struct Step {
    pub request: Request,
    pub action: Action,
}

/// What is left of a deadline when `elapsed_ms` have passed.
pub open spec fn time_left(deadline_ms: u64, elapsed_ms: u64) -> u64 {
    if elapsed_ms >= deadline_ms {
        0
    } else {
        (deadline_ms - elapsed_ms) as u64
    }
}

/// Whether a step gives the request up with `error`.
pub open spec fn fails_with(after: Request, action: Action, error: GatewayError) -> bool {
    after is Done && action == (Action::Respond { outcome: Err(error) })
}

/// What becomes of a request when the chain's state is known: its transaction is
/// composed, and is submitted at once where inclusion is all it waits for, and only
/// after subscription where it waits for an event. A call that cannot be built ends
/// the request with `Build`. A call that can be built ends it only where the signature
/// made for it is one that the signer's account does not accept, and then with
/// `Signing`.
pub open spec fn composed(
    signer: KeyPair,
    payload: CallPayload,
    watch: Watch,
    meta: ChainMetadata,
    nonce: u32,
    after: Request,
    action: Action,
) -> bool {
    ||| {
        &&& !buildable(meta, nonce, payload)
        &&& fails_with(after, action, GatewayError::Build)
    }
    ||| {
        &&& buildable(meta, nonce, payload)
        &&& fails_with(after, action, GatewayError::Signing)
        &&& exists|made: [u8; 64]|
            !#[trigger] sr25519_accepts(
                signer.account()@,
                message_to_sign(meta, nonce, payload),
                made@,
            )
    }
    ||| {
        &&& buildable(meta, nonce, payload)
        &&& watch.expect is Inclusion
        &&& after == (Request::Submitting { watch })
        &&& action matches Action::Submit { envelope }
        &&& built_from(envelope, meta, nonce, payload, signer.account())
    }
    ||| {
        &&& buildable(meta, nonce, payload)
        &&& !(watch.expect is Inclusion)
        &&& after matches Request::Subscribing { envelope, watch: kept }
        &&& kept == watch
        &&& built_from(envelope, meta, nonce, payload, signer.account())
        &&& action == Action::Subscribe
    }
}

/// What becomes of a listening request when `events` are delivered at `elapsed_ms`:
/// the first event that answers it ends it; without one it goes on listening for what
/// is left of its time, or ends as timed out where none is left.
pub open spec fn heard(
    watch: Watch,
    elapsed_ms: u64,
    events: Seq<LedgerEvent>,
    after: Request,
    action: Action,
) -> bool {
    let waits = if elapsed_ms >= watch.deadline_ms {
        fails_with(after, action, GatewayError::CorrelationTimeout)
    } else {
        &&& after == (Request::Listening { watch })
        &&& action == (Action::Receive { wait_ms: time_left(watch.deadline_ms, elapsed_ms) })
    };
    match watch.expect {
        Expectation::Inclusion { .. } => waits,
        Expectation::CollectionCreated { owner } => match first_match(
            events,
            picks_collection(owner),
        ) {
            Some(collection_id) => {
                &&& after is Done
                &&& action == (Action::Respond {
                    outcome: Ok(Response::Collection(CreateCollectionOutput { collection_id })),
                })
            },
            None => waits,
        },
        Expectation::TokenMint { owner } => match first_match(events, picks_mint(owner)) {
            Some((collection_id, asset_ids)) => {
                &&& after is Done
                &&& action matches Action::Respond { outcome: Ok(Response::Minted(minted)) }
                &&& minted.collection_id == collection_id
                &&& minted.asset_ids@ == asset_ids
            },
            None => waits,
        },
    }
}

/// The steps of a request: for each state and each report of the driver, the state
/// that follows and what the driver is asked to do.
pub open spec fn steps_to(before: Request, event: Event, after: Request, action: Action) -> bool {
    match before {
        Request::Created { node, plan } => match event {
            Event::Start => after == (Request::Connecting { plan }) && action == (Action::Connect {
                node,
            }),
            _ => fails_with(after, action, GatewayError::Connection),
        },
        Request::Connecting { plan } => match event {
            Event::Connected => match plan {
                Plan::Balance { who } => after == Request::QueryingBalance && action == (
                Action::QueryBalance { who }),
                Plan::Transact { signer, payload, watch } => after == (Request::FetchingMetadata {
                    signer,
                    payload,
                    watch,
                }) && action == (Action::FetchMetadata { signer: signer.account() }),
            },
            _ => fails_with(after, action, GatewayError::Connection),
        },
        Request::FetchingMetadata { signer, payload, watch } => match event {
            Event::Metadata { meta, nonce } => composed(
                signer,
                payload,
                watch,
                meta,
                nonce,
                after,
                action,
            ),
            _ => fails_with(after, action, GatewayError::Metadata),
        },
        Request::Subscribing { envelope, watch } => match event {
            Event::Subscribed => after == (Request::Submitting { watch }) && action == (
            Action::Submit { envelope }),
            _ => fails_with(after, action, GatewayError::Connection),
        },
        Request::Submitting { watch } => match event {
            Event::Included { elapsed_ms } => match watch.expect {
                Expectation::Inclusion { amount } => after is Done && action == (Action::Respond {
                    outcome: Ok(Response::Funded(FundAccountOutput { amount })),
                }),
                _ => after == (Request::Listening { watch }) && action == (Action::Receive {
                    wait_ms: time_left(watch.deadline_ms, elapsed_ms),
                }),
            },
            Event::Rejected { reason } => fails_with(
                after,
                action,
                GatewayError::Submission(reason),
            ),
            _ => fails_with(after, action, GatewayError::Connection),
        },
        Request::Listening { watch } => match event {
            Event::Arrived { arrival } => heard(
                watch,
                arrival.elapsed_ms,
                batch_events(arrival.batch),
                after,
                action,
            ),
            Event::Silence { elapsed_ms } => heard(watch, elapsed_ms, Seq::empty(), after, action),
            _ => fails_with(after, action, GatewayError::CorrelationTimeout),
        },
        Request::QueryingBalance => match event {
            Event::Balance { free } => after is Done && action == (Action::Respond {
                outcome: Ok(
                    Response::Balance(
                        AccountBalanceOutput {
                            amount: match free {
                                Some(amount) => amount,
                                None => 0,
                            },
                        },
                    ),
                ),
            }),
            _ => fails_with(after, action, GatewayError::Connection),
        },
        Request::Done => after is Done && action is Idle,
    }
}

fn give_up(error: GatewayError) -> (step: Step)
    ensures
        fails_with(step.request, step.action, error),
{
    Step { request: Request::Done, action: Action::Respond { outcome: Err(error) } }
}

fn keep_waiting(watch: Watch, elapsed_ms: u64) -> (step: Step)
    ensures
        if elapsed_ms >= watch.deadline_ms {
            fails_with(step.request, step.action, GatewayError::CorrelationTimeout)
        } else {
            &&& step.request == (Request::Listening { watch })
            &&& step.action == (Action::Receive {
                wait_ms: time_left(watch.deadline_ms, elapsed_ms),
            })
        },
{
    if elapsed_ms >= watch.deadline_ms {
        give_up(GatewayError::CorrelationTimeout)
    } else {
        Step {
            request: Request::Listening { watch },
            action: Action::Receive { wait_ms: watch.deadline_ms - elapsed_ms },
        }
    }
}

fn compose(signer: KeyPair, payload: CallPayload, watch: Watch, meta: ChainMetadata, nonce: u32) -> (step:
    Step)
    ensures
        composed(signer, payload, watch, meta, nonce, step.request, step.action),
{
    match build(&meta, nonce, payload, &signer) {
        Err(error) => give_up(error),
        Ok(envelope) => {
            match watch.expect {
                Expectation::Inclusion { .. } => Step {
                    request: Request::Submitting { watch },
                    action: Action::Submit { envelope },
                },
                _ => Step {
                    request: Request::Subscribing { envelope, watch },
                    action: Action::Subscribe,
                },
            }
        },
    }
}

fn hear(watch: Watch, elapsed_ms: u64, batch: &Batch) -> (step: Step)
    ensures
        heard(watch, elapsed_ms, batch_events(*batch), step.request, step.action),
{
    match watch.expect {
        Expectation::Inclusion { .. } => keep_waiting(watch, elapsed_ms),
        Expectation::CollectionCreated { owner } => {
            let handler = |event: &LedgerEvent| -> (id: Option<u64>)
                ensures
                    id == created_collection(*event, owner),
                { collection_created_by(event, &owner) };
            let found = match batch {
                Batch::Decoded(events) => scan_batch(events, &handler),
                Batch::Malformed => None,
            };
            proof {
                lemma_first_answer_is_first_match(
                    handler,
                    batch_events(*batch),
                    found,
                    picks_collection(owner),
                    shown_collection(),
                );
            }
            match found {
                Some(collection_id) => Step {
                    request: Request::Done,
                    action: Action::Respond {
                        outcome: Ok(Response::Collection(CreateCollectionOutput { collection_id })),
                    },
                },
                None => keep_waiting(watch, elapsed_ms),
            }
        },
        Expectation::TokenMint { owner } => {
            let handler = |event: &LedgerEvent| -> (minted: Option<MintNftOutput>)
                ensures
                    match minted {
                        Some(m) => minted_tokens(*event, owner) == Some(
                            (m.collection_id, m.asset_ids@),
                        ),
                        None => minted_tokens(*event, owner) is None,
                    },
                { tokens_minted_by(event, &owner) };
            let found = match batch {
                Batch::Decoded(events) => scan_batch(events, &handler),
                Batch::Malformed => None,
            };
            proof {
                lemma_first_answer_is_first_match(
                    handler,
                    batch_events(*batch),
                    found,
                    picks_mint(owner),
                    shown_mint(),
                );
            }
            match found {
                Some(minted) => Step {
                    request: Request::Done,
                    action: Action::Respond { outcome: Ok(Response::Minted(minted)) },
                },
                None => keep_waiting(watch, elapsed_ms),
            }
        },
    }
}

impl Request {
    /// Takes the driver's report and decides what follows.
    pub fn step(self, event: Event) -> (step: Step)
        ensures
            steps_to(self, event, step.request, step.action),
    {
        match self {
            Request::Created { node, plan } => match event {
                Event::Start => Step {
                    request: Request::Connecting { plan },
                    action: Action::Connect { node },
                },
                _ => give_up(GatewayError::Connection),
            },
            Request::Connecting { plan } => match event {
                Event::Connected => match plan {
                    Plan::Balance { who } => Step {
                        request: Request::QueryingBalance,
                        action: Action::QueryBalance { who },
                    },
                    Plan::Transact { signer, payload, watch } => {
                        let account = signer.public();
                        Step {
                            request: Request::FetchingMetadata { signer, payload, watch },
                            action: Action::FetchMetadata { signer: account },
                        }
                    },
                },
                _ => give_up(GatewayError::Connection),
            },
            Request::FetchingMetadata { signer, payload, watch } => match event {
                Event::Metadata { meta, nonce } => compose(signer, payload, watch, meta, nonce),
                _ => give_up(GatewayError::Metadata),
            },
            Request::Subscribing { envelope, watch } => match event {
                Event::Subscribed => Step {
                    request: Request::Submitting { watch },
                    action: Action::Submit { envelope },
                },
                _ => give_up(GatewayError::Connection),
            },
            Request::Submitting { watch } => match event {
                Event::Included { elapsed_ms } => match watch.expect {
                    Expectation::Inclusion { amount } => Step {
                        request: Request::Done,
                        action: Action::Respond {
                            outcome: Ok(Response::Funded(FundAccountOutput { amount })),
                        },
                    },
                    _ => Step {
                        request: Request::Listening { watch },
                        action: Action::Receive {
                            wait_ms: if elapsed_ms >= watch.deadline_ms {
                                0
                            } else {
                                watch.deadline_ms - elapsed_ms
                            },
                        },
                    },
                },
                Event::Rejected { reason } => give_up(GatewayError::Submission(reason)),
                _ => give_up(GatewayError::Connection),
            },
            Request::Listening { watch } => match event {
                Event::Arrived { arrival } => hear(watch, arrival.elapsed_ms, &arrival.batch),
                Event::Silence { elapsed_ms } => hear(watch, elapsed_ms, &Batch::Malformed),
                _ => give_up(GatewayError::CorrelationTimeout),
            },
            Request::QueryingBalance => match event {
                Event::Balance { free } => {
                    let amount: u128 = match free {
                        Some(amount) => amount,
                        None => 0,
                    };
                    Step {
                        request: Request::Done,
                        action: Action::Respond {
                            outcome: Ok(Response::Balance(AccountBalanceOutput { amount })),
                        },
                    }
                },
                _ => give_up(GatewayError::Connection),
            },
            Request::Done => Step { request: Request::Done, action: Action::Idle },
        }
    }
}

/// A transaction that waits for an event is handed to the node only once the event
/// stream is open: the step that submits it is the one that takes `Subscribed`. Only
/// a transaction for which inclusion is enough goes out as soon as it is composed.
pub proof fn lemma_subscribed_before_submitted(
    before: Request,
    event: Event,
    after: Request,
    action: Action,
)
    requires
        steps_to(before, event, after, action),
        action is Submit,
    ensures
        after matches Request::Submitting { watch } && {
            ||| before is Subscribing && event is Subscribed
            ||| before is FetchingMetadata && watch.expect is Inclusion
        },
{
}

/// A listening request never outlasts its deadline: whatever is reported to it when
/// the deadline has passed ends it, with an answer if the report holds one and as
/// timed out if not. Until then it asks for no longer a wait than is left.
pub proof fn lemma_listening_is_bounded(
    watch: Watch,
    event: Event,
    after: Request,
    action: Action,
    elapsed_ms: u64,
)
    requires
        steps_to(Request::Listening { watch }, event, after, action),
        event matches Event::Arrived { arrival } ==> arrival.elapsed_ms == elapsed_ms,
        event matches Event::Silence { elapsed_ms: at } ==> at == elapsed_ms,
    ensures
        (event is Arrived || event is Silence) && elapsed_ms >= watch.deadline_ms ==> after is Done
            && action is Respond,
        !(event is Arrived || event is Silence) ==> fails_with(
            after,
            action,
            GatewayError::CorrelationTimeout,
        ),
        action matches Action::Receive { wait_ms } ==> after == (Request::Listening { watch })
            && elapsed_ms + wait_ms == watch.deadline_ms,
{
}

/// A report that holds no answer for the request times it out once the deadline has
/// passed, and never before.
pub proof fn lemma_no_answer_times_out(
    watch: Watch,
    elapsed_ms: u64,
    events: Seq<LedgerEvent>,
    after: Request,
    action: Action,
)
    requires
        heard(watch, elapsed_ms, events, after, action),
        forall|j: int|
            0 <= j < events.len() ==> match watch.expect {
                Expectation::Inclusion { .. } => true,
                Expectation::CollectionCreated { owner } => created_collection(
                    #[trigger] events[j],
                    owner,
                ) is None,
                Expectation::TokenMint { owner } => minted_tokens(#[trigger] events[j], owner) is None,
            },
    ensures
        elapsed_ms >= watch.deadline_ms <==> fails_with(
            after,
            action,
            GatewayError::CorrelationTimeout,
        ),
        elapsed_ms < watch.deadline_ms ==> after == (Request::Listening { watch }),
{
    match watch.expect {
        Expectation::Inclusion { .. } => {},
        Expectation::CollectionCreated { owner } => {
            assert forall|j: int| 0 <= j < events.len() implies (#[trigger] picks_collection(owner)(
                events[j],
            )) is None by {
                assert(created_collection(events[j], owner) is None);
            }
            crate::event::lemma_no_answer_no_match(events, picks_collection(owner));
        },
        Expectation::TokenMint { owner } => {
            assert forall|j: int| 0 <= j < events.len() implies (#[trigger] picks_mint(owner)(
                events[j],
            )) is None by {
                assert(minted_tokens(events[j], owner) is None);
            }
            crate::event::lemma_no_answer_no_match(events, picks_mint(owner));
        },
    }
}

/// A batch that cannot be read neither answers a listening request nor ends it before
/// its time: the request goes on listening.
pub proof fn lemma_malformed_batch_keeps_listening(
    watch: Watch,
    elapsed_ms: u64,
    after: Request,
    action: Action,
)
    requires
        elapsed_ms < watch.deadline_ms,
        steps_to(
            Request::Listening { watch },
            Event::Arrived { arrival: Arrival { elapsed_ms, batch: Batch::Malformed } },
            after,
            action,
        ),
    ensures
        after == (Request::Listening { watch }),
        action == (Action::Receive { wait_ms: time_left(watch.deadline_ms, elapsed_ms) }),
{
}

/// Whether a request that listens under `watch` goes on listening through each of the
/// first `count` arrivals of `stream`, given to it one after another.
pub open spec fn listens_through(watch: Watch, stream: Seq<Arrival>, count: int) -> bool {
    forall|i: int|
        0 <= i < count ==> heard(
            watch,
            (#[trigger] stream[i]).elapsed_ms,
            batch_events(stream[i].batch),
            Request::Listening { watch },
            Action::Receive { wait_ms: time_left(watch.deadline_ms, stream[i].elapsed_ms) },
        )
}

/// Listening step by step is listening to the stream: what a request makes of an
/// arrival, after it has listened through those before, is what it would make of
/// everything seen of the stream up to that arrival. So it answers with the first
/// matching event of the stream, in the order of arrival, and with no other.
pub proof fn lemma_listening_follows_the_stream(
    watch: Watch,
    stream: Seq<Arrival>,
    last: int,
    after: Request,
    action: Action,
)
    requires
        0 <= last < stream.len(),
        listens_through(watch, stream, last),
        heard(watch, stream[last].elapsed_ms, batch_events(stream[last].batch), after, action),
    ensures
        heard(
            watch,
            stream[last].elapsed_ms,
            seen(stream.take(last + 1), watch.deadline_ms),
            after,
            action,
        ),
{
    let deadline_ms = watch.deadline_ms;
    match watch.expect {
        Expectation::Inclusion { .. } => {},
        Expectation::CollectionCreated { owner } => {
            assert forall|i: int| 0 <= i < last implies (#[trigger] stream[i]).elapsed_ms
                < deadline_ms && first_match(
                batch_events(stream[i].batch),
                picks_collection(owner),
            ) is None by {
                assert(heard(
                    watch,
                    stream[i].elapsed_ms,
                    batch_events(stream[i].batch),
                    Request::Listening { watch },
                    Action::Receive { wait_ms: time_left(deadline_ms, stream[i].elapsed_ms) },
                ));
            }
            lemma_match_in_the_latest(stream, last, deadline_ms, picks_collection(owner));
        },
        Expectation::TokenMint { owner } => {
            assert forall|i: int| 0 <= i < last implies (#[trigger] stream[i]).elapsed_ms
                < deadline_ms && first_match(batch_events(stream[i].batch), picks_mint(owner)) is None by {
                assert(heard(
                    watch,
                    stream[i].elapsed_ms,
                    batch_events(stream[i].batch),
                    Request::Listening { watch },
                    Action::Receive { wait_ms: time_left(deadline_ms, stream[i].elapsed_ms) },
                ));
            }
            lemma_match_in_the_latest(stream, last, deadline_ms, picks_mint(owner));
        },
    }
}

/// Whether two actions answer the caller alike: with the same collection, with the
/// same tokens in the same order, or with the same error.
pub open spec fn same_outcome(first: Action, second: Action) -> bool {
    match (first, second) {
        (
            Action::Respond { outcome: Ok(Response::Collection(a)) },
            Action::Respond { outcome: Ok(Response::Collection(b)) },
        ) => a.collection_id == b.collection_id,
        (
            Action::Respond { outcome: Ok(Response::Minted(a)) },
            Action::Respond { outcome: Ok(Response::Minted(b)) },
        ) => a.collection_id == b.collection_id && a.asset_ids@ == b.asset_ids@,
        (Action::Respond { outcome: Err(a) }, Action::Respond { outcome: Err(b) }) => a == b,
        _ => false,
    }
}

/// Whether two streams hold the same answers for a request that listens under
/// `watch`, in the same order: the same collections created by its owner, or the same
/// mintings by its owner with the same tokens.
pub open spec fn same_own_events(watch: Watch, one: Seq<LedgerEvent>, other: Seq<LedgerEvent>) -> bool {
    match watch.expect {
        Expectation::Inclusion { .. } => true,
        Expectation::CollectionCreated { owner } => answers(one, picks_collection(owner))
            == answers(other, picks_collection(owner)),
        Expectation::TokenMint { owner } => answers(one, picks_mint(owner)) == answers(
            other,
            picks_mint(owner),
        ),
    }
}

/// Events of other accounts, of other kinds and of other subsystems change nothing:
/// two runs of listening that have ended, and in which the requester's own events were
/// the same and came in the same order, answer the caller alike, however the streams
/// differ in everything else.
pub proof fn lemma_other_events_change_nothing(
    watch: Watch,
    first: Seq<Arrival>,
    first_last: int,
    first_action: Action,
    second: Seq<Arrival>,
    second_last: int,
    second_action: Action,
)
    requires
        0 <= first_last < first.len(),
        listens_through(watch, first, first_last),
        heard(
            watch,
            first[first_last].elapsed_ms,
            batch_events(first[first_last].batch),
            Request::Done,
            first_action,
        ),
        0 <= second_last < second.len(),
        listens_through(watch, second, second_last),
        heard(
            watch,
            second[second_last].elapsed_ms,
            batch_events(second[second_last].batch),
            Request::Done,
            second_action,
        ),
        same_own_events(
            watch,
            seen(first.take(first_last + 1), watch.deadline_ms),
            seen(second.take(second_last + 1), watch.deadline_ms),
        ),
    ensures
        same_outcome(first_action, second_action),
{
    let one = seen(first.take(first_last + 1), watch.deadline_ms);
    let other = seen(second.take(second_last + 1), watch.deadline_ms);
    lemma_listening_follows_the_stream(watch, first, first_last, Request::Done, first_action);
    lemma_listening_follows_the_stream(watch, second, second_last, Request::Done, second_action);
    match watch.expect {
        Expectation::Inclusion { .. } => {},
        Expectation::CollectionCreated { owner } => {
            lemma_same_answers_same_match(one, other, picks_collection(owner));
        },
        Expectation::TokenMint { owner } => {
            lemma_same_answers_same_match(one, other, picks_mint(owner));
        },
    }
}

/// The tokens a mint request is answered with are those of the first event of the
/// stream that reports a minting by the requester: the same collection and the same
/// tokens, as many and in the same order as the event holds them.
pub proof fn lemma_minted_answer_is_the_first_own_event(
    watch: Watch,
    owner: AccountId,
    stream: Seq<Arrival>,
    last: int,
    after: Request,
    minted: MintNftOutput,
) -> (at: int)
    requires
        watch.expect == (Expectation::TokenMint { owner }),
        0 <= last < stream.len(),
        listens_through(watch, stream, last),
        heard(
            watch,
            stream[last].elapsed_ms,
            batch_events(stream[last].batch),
            after,
            Action::Respond { outcome: Ok(Response::Minted(minted)) },
        ),
    ensures
        0 <= at < seen(stream.take(last + 1), watch.deadline_ms).len(),
        seen(stream.take(last + 1), watch.deadline_ms)[at] matches LedgerEvent::TokenMint {
            collection_id,
            asset_ids,
            who,
        } && who@ == owner@ && minted.collection_id == collection_id && minted.asset_ids@
            == asset_ids@,
        forall|j: int|
            0 <= j < at ==> minted_tokens(
                #[trigger] seen(stream.take(last + 1), watch.deadline_ms)[j],
                owner,
            ) is None,
{
    let events = seen(stream.take(last + 1), watch.deadline_ms);
    let action = Action::Respond { outcome: Ok(Response::Minted(minted)) };
    lemma_listening_follows_the_stream(watch, stream, last, after, action);
    assert(first_match(events, picks_mint(owner)) is Some);
    lemma_minted_is_the_requesters(events, owner)
}

} // verus!
