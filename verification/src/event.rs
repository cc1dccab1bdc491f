//! Event correlation: finding, in the stream of everything the ledger emits, the one
//! event that answers a request.

use vstd::prelude::*;
use crate::account::AccountId;

verus! {

/// How long a request listens for its event, in milliseconds.
pub const DEADLINE_MS: u64 = 20_000;

/// An event of the ledger, as far as the gateway reads it. Events of subsystems the
/// gateway has no interest in are all `Other`.
#[derive(Debug)]
pub enum LedgerEvent {
    /// A collection was created by the account `who`.
    CollectionCreated { collection_id: u64, who: AccountId },
    /// Tokens were minted in a collection by the account `who`.
    TokenMint { collection_id: u64, asset_ids: Vec<u64>, who: AccountId },
    /// Anything else.
    Other,
}

/// What one delivery of the event stream holds.
#[derive(Debug)]
pub enum Batch {
    /// The events of one block, in the order the ledger emitted them.
    Decoded(Vec<LedgerEvent>),
    /// Bytes that could not be read as events.
    Malformed,
}

/// A delivery of the event stream and the time at which it came, counted from the
/// moment of subscription.
#[derive(Debug)]
pub struct Arrival {
    pub elapsed_ms: u64,
    pub batch: Batch,
}

/// The events a batch contributes: none where it could not be read.
pub open spec fn batch_events(batch: Batch) -> Seq<LedgerEvent> {
    match batch {
        Batch::Decoded(events) => events@,
        Batch::Malformed => Seq::empty(),
    }
}

/// The events a listener gets to see of a stream, in order: those of every arrival up
/// to and including the first that comes when the deadline has passed.
pub open spec fn seen(stream: Seq<Arrival>, deadline_ms: u64) -> Seq<LedgerEvent>
    decreases stream.len(),
{
    if stream.len() == 0 {
        Seq::empty()
    } else if stream[0].elapsed_ms >= deadline_ms {
        batch_events(stream[0].batch)
    } else {
        batch_events(stream[0].batch) + seen(stream.drop_first(), deadline_ms)
    }
}

/// The answer of the first event that has one.
pub open spec fn first_match<T>(
    events: Seq<LedgerEvent>,
    pick: spec_fn(LedgerEvent) -> Option<T>,
) -> Option<T>
    decreases events.len(),
{
    if events.len() == 0 {
        None
    } else if pick(events[0]) is Some {
        pick(events[0])
    } else {
        first_match(events.drop_first(), pick)
    }
}

/// Whether `found` is what a handler makes of `events`: the answer it gave to the
/// first event it had one for, or nothing where it had none for any.
pub open spec fn first_answer<F: Fn(&LedgerEvent) -> Option<R>, R>(
    handler: F,
    events: Seq<LedgerEvent>,
    found: Option<R>,
) -> bool {
    match found {
        Some(_) => exists|k: int|
            {
                &&& 0 <= k < events.len()
                &&& #[trigger] call_ensures(handler, (&events[k],), found)
                &&& passed_over(handler, events, k)
            },
        None => passed_over(handler, events, events.len() as int),
    }
}

/// Whether the handler had no answer for any of the first `count` events.
pub open spec fn passed_over<F: Fn(&LedgerEvent) -> Option<R>, R>(
    handler: F,
    events: Seq<LedgerEvent>,
    count: int,
) -> bool {
    forall|j: int| 0 <= j < count ==> #[trigger] call_ensures(handler, (&events[j],), None::<R>)
}

/// Applies the handler to the events of one batch, in order, and stops at the first
/// answer.
pub fn scan_batch<F, R>(events: &Vec<LedgerEvent>, handler: &F) -> (found: Option<R>) where
    F: Fn(&LedgerEvent) -> Option<R>,

    requires
        forall|event: &LedgerEvent| call_requires(*handler, (event,)),
    ensures
        first_answer(*handler, events@, found),
{
    let mut index: usize = 0;
    while index < events.len()
        invariant
            index <= events.len(),
            forall|event: &LedgerEvent| call_requires(*handler, (event,)),
            passed_over(*handler, events@, index as int),
        decreases events.len() - index,
    {
        let answer = handler(&events[index]);
        if answer.is_some() {
            return answer;
        }
        index += 1;
    }
    None
}

/// Listens to a recorded stream: scans each arrival in turn, returns the first answer
/// the handler gives, and gives up after the first arrival that comes when
/// `deadline_ms` has passed, or when the stream ends.
pub fn wait_for_event<F, R>(stream: &Vec<Arrival>, deadline_ms: u64, handler: F) -> (found: Option<
    R,
>) where F: Fn(&LedgerEvent) -> Option<R>
    requires
        forall|event: &LedgerEvent| call_requires(handler, (event,)),
    ensures
        first_answer(handler, seen(stream@, deadline_ms), found),
{
    let ghost mut scanned: Seq<LedgerEvent> = Seq::empty();
    let mut index: usize = 0;
    assert(stream@.skip(0) =~= stream@);
    while index < stream.len()
        invariant
            index <= stream.len(),
            forall|event: &LedgerEvent| call_requires(handler, (event,)),
            passed_over(handler, scanned, scanned.len() as int),
            seen(stream@, deadline_ms) == scanned + seen(stream@.skip(index as int), deadline_ms),
        decreases stream.len() - index,
    {
        let arrival = &stream[index];
        let ghost rest = stream@.skip(index as int);
        let ghost here = batch_events(arrival.batch);
        proof {
            assert(rest[0] == stream@[index as int]);
            assert(rest.drop_first() =~= stream@.skip(index as int + 1));
        }
        let found = match &arrival.batch {
            Batch::Decoded(events) => scan_batch(events, &handler),
            Batch::Malformed => None,
        };
        proof {
            let all = seen(stream@, deadline_ms);
            assert(forall|j: int| 0 <= j < scanned.len() ==> all[j] == scanned[j]);
            assert(forall|j: int| 0 <= j < here.len() ==> all[scanned.len() + j] == here[j]);
        }
        if found.is_some() {
            proof {
                let k = choose|k: int|
                    {
                        &&& 0 <= k < here.len()
                        &&& #[trigger] call_ensures(handler, (&here[k],), found)
                        &&& passed_over(handler, here, k)
                    };
                let all = seen(stream@, deadline_ms);
                let at = scanned.len() + k;
                assert(call_ensures(handler, (&all[at],), found));
                assert forall|j: int| 0 <= j < at implies #[trigger] call_ensures(
                    handler,
                    (&all[j],),
                    None::<R>,
                ) by {
                    if j < scanned.len() {
                        assert(all[j] == scanned[j]);
                    } else {
                        assert(all[j] == here[j - scanned.len()]);
                    }
                }
            }
            return found;
        }
        proof {
            let longer = scanned + here;
            assert forall|j: int| 0 <= j < longer.len() implies #[trigger] call_ensures(
                handler,
                (&longer[j],),
                None::<R>,
            ) by {
                if j < scanned.len() {
                    assert(longer[j] == scanned[j]);
                } else {
                    assert(longer[j] == here[j - scanned.len()]);
                }
            }
        }
        if arrival.elapsed_ms >= deadline_ms {
            proof {
                assert(seen(stream@, deadline_ms) =~= scanned + here);
            }
            return None;
        }
        proof {
            assert(seen(stream@, deadline_ms) =~= (scanned + here) + seen(
                stream@.skip(index as int + 1),
                deadline_ms,
            ));
            scanned = scanned + here;
        }
        index += 1;
    }
    proof {
        assert(seen(stream@, deadline_ms) =~= scanned);
    }
    None
}

/// Whether a handler's answer and a picked value say the same: both nothing, or the
/// picked value is the answer as `shown`.
pub open spec fn answers_alike<R, T>(answer: Option<R>, picked: Option<T>, shown: spec_fn(R) -> T) -> bool {
    match answer {
        Some(value) => picked == Some(shown(value)),
        None => picked is None,
    }
}

/// A handler that computes `pick` finds what `first_match` finds.
pub proof fn lemma_first_answer_is_first_match<F: Fn(&LedgerEvent) -> Option<R>, R, T>(
    handler: F,
    events: Seq<LedgerEvent>,
    found: Option<R>,
    pick: spec_fn(LedgerEvent) -> Option<T>,
    shown: spec_fn(R) -> T,
)
    requires
        first_answer(handler, events, found),
        forall|event: LedgerEvent, answer: Option<R>| #[trigger]
            call_ensures(handler, (&event,), answer) ==> answers_alike(answer, pick(event), shown),
    ensures
        answers_alike(found, first_match(events, pick), shown),
    decreases events.len(),
{
    if events.len() == 0 {
    } else {
        let rest = events.drop_first();
        if found is Some {
            let k = choose|k: int|
                {
                    &&& 0 <= k < events.len()
                    &&& #[trigger] call_ensures(handler, (&events[k],), found)
                    &&& passed_over(handler, events, k)
                };
            if k == 0 {
            } else {
                assert(call_ensures(handler, (&events[0],), None::<R>));
                assert(rest[k - 1] == events[k]);
                assert(call_ensures(handler, (&rest[k - 1],), found));
                assert forall|j: int| 0 <= j < k - 1 implies #[trigger] call_ensures(
                    handler,
                    (&rest[j],),
                    None::<R>,
                ) by {
                    assert(rest[j] == events[j + 1]);
                }
                lemma_first_answer_is_first_match(handler, rest, found, pick, shown);
            }
        } else {
            assert(call_ensures(handler, (&events[0],), None::<R>));
            assert forall|j: int| 0 <= j < rest.len() implies #[trigger] call_ensures(
                handler,
                (&rest[j],),
                None::<R>,
            ) by {
                assert(rest[j] == events[j + 1]);
            }
            lemma_first_answer_is_first_match(handler, rest, found, pick, shown);
        }
    }
}

/// What is matched is the answer of an event of the stream, and no event before it
/// had an answer: first match wins, in the order of arrival.
pub proof fn lemma_first_match_is_first<T>(
    events: Seq<LedgerEvent>,
    pick: spec_fn(LedgerEvent) -> Option<T>,
) -> (at: int)
    requires
        first_match(events, pick) is Some,
    ensures
        0 <= at < events.len(),
        pick(events[at]) == first_match(events, pick),
        forall|j: int| 0 <= j < at ==> (#[trigger] pick(events[j])) is None,
    decreases events.len(),
{
    if pick(events[0]) is Some {
        0
    } else {
        let rest = events.drop_first();
        let at = lemma_first_match_is_first(rest, pick);
        assert(rest[at] == events[at + 1]);
        assert forall|j: int| 0 <= j < at + 1 implies (#[trigger] pick(events[j])) is None by {
            if j > 0 {
                assert(rest[j - 1] == events[j]);
            }
        }
        at + 1
    }
}

/// Where no event has an answer nothing is matched: the listener ends empty-handed.
pub proof fn lemma_no_answer_no_match<T>(
    events: Seq<LedgerEvent>,
    pick: spec_fn(LedgerEvent) -> Option<T>,
)
    requires
        forall|j: int| 0 <= j < events.len() ==> (#[trigger] pick(events[j])) is None,
    ensures
        first_match(events, pick) is None,
    decreases events.len(),
{
    if events.len() > 0 {
        let rest = events.drop_first();
        assert(pick(events[0]) is None);
        assert forall|j: int| 0 <= j < rest.len() implies (#[trigger] pick(rest[j])) is None by {
            assert(rest[j] == events[j + 1]);
        }
        lemma_no_answer_no_match(rest, pick);
    }
}

/// A batch that cannot be read is passed over: a listener sees the same events with
/// it as without it, whatever comes before and after, as long as it comes in time.
pub proof fn lemma_malformed_batch_is_skipped(
    before: Seq<Arrival>,
    elapsed_ms: u64,
    after: Seq<Arrival>,
    deadline_ms: u64,
)
    requires
        elapsed_ms < deadline_ms,
    ensures
        seen(
            before + seq![Arrival { elapsed_ms, batch: Batch::Malformed }] + after,
            deadline_ms,
        ) == seen(before + after, deadline_ms),
    decreases before.len(),
{
    let broken = Arrival { elapsed_ms, batch: Batch::Malformed };
    let with = before + seq![broken] + after;
    let without = before + after;
    if before.len() == 0 {
        assert(with.drop_first() =~= after);
        assert(without =~= after);
        assert(seen(with, deadline_ms) =~= seen(after, deadline_ms));
    } else {
        assert(with[0] == before[0]);
        assert(without[0] == before[0]);
        assert(with.drop_first() =~= before.drop_first() + seq![broken] + after);
        assert(without.drop_first() =~= before.drop_first() + after);
        lemma_malformed_batch_is_skipped(before.drop_first(), elapsed_ms, after, deadline_ms);
    }
}

/// Listening ends with the first arrival that comes when the deadline has passed:
/// nothing that comes after it is seen.
pub proof fn lemma_listening_ends_at_deadline(
    before: Seq<Arrival>,
    late: Arrival,
    after: Seq<Arrival>,
    deadline_ms: u64,
)
    requires
        late.elapsed_ms >= deadline_ms,
    ensures
        seen(before + seq![late] + after, deadline_ms) == seen(before + seq![late], deadline_ms),
    decreases before.len(),
{
    let long = before + seq![late] + after;
    let short = before + seq![late];
    if before.len() == 0 {
        assert(long[0] == late);
        assert(short[0] == late);
    } else {
        assert(long[0] == before[0]);
        assert(short[0] == before[0]);
        assert(long.drop_first() =~= before.drop_first() + seq![late] + after);
        assert(short.drop_first() =~= before.drop_first() + seq![late]);
        lemma_listening_ends_at_deadline(before.drop_first(), late, after, deadline_ms);
    }
}

/// In events laid end to end the first match is that of the front part, and only
/// where the front part has none that of the rest.
pub proof fn lemma_first_match_of_joined<T>(
    front: Seq<LedgerEvent>,
    rest: Seq<LedgerEvent>,
    pick: spec_fn(LedgerEvent) -> Option<T>,
)
    ensures
        first_match(front + rest, pick) == if first_match(front, pick) is Some {
            first_match(front, pick)
        } else {
            first_match(rest, pick)
        },
    decreases front.len(),
{
    if front.len() == 0 {
        assert(front + rest =~= rest);
    } else {
        assert((front + rest)[0] == front[0]);
        assert((front + rest).drop_first() =~= front.drop_first() + rest);
        lemma_first_match_of_joined(front.drop_first(), rest, pick);
    }
}

/// Where the arrivals before the one at `last` came in time and held no answer, what
/// is matched in all that was seen up to there is what is matched in that arrival.
pub proof fn lemma_match_in_the_latest<T>(
    stream: Seq<Arrival>,
    last: int,
    deadline_ms: u64,
    pick: spec_fn(LedgerEvent) -> Option<T>,
)
    requires
        0 <= last < stream.len(),
        forall|i: int|
            0 <= i < last ==> (#[trigger] stream[i]).elapsed_ms < deadline_ms && first_match(
                batch_events(stream[i].batch),
                pick,
            ) is None,
    ensures
        first_match(seen(stream.take(last + 1), deadline_ms), pick) == first_match(
            batch_events(stream[last].batch),
            pick,
        ),
    decreases last,
{
    let heard = stream.take(last + 1);
    let here = batch_events(heard[0].batch);
    if last == 0 {
        assert(heard.len() == 1);
        assert(heard.drop_first().len() == 0);
        assert(seen(heard.drop_first(), deadline_ms) =~= Seq::<LedgerEvent>::empty());
        assert(seen(heard, deadline_ms) =~= here);
        assert(heard[0] == stream[0]);
    } else {
        let later = stream.drop_first();
        assert(heard[0] == stream[0]);
        assert(heard.drop_first() =~= later.take(last));
        assert forall|i: int| 0 <= i < last - 1 implies (#[trigger] later[i]).elapsed_ms
            < deadline_ms && first_match(batch_events(later[i].batch), pick) is None by {
            assert(later[i] == stream[i + 1]);
        }
        lemma_match_in_the_latest(later, last - 1, deadline_ms, pick);
        assert(later[last - 1] == stream[last]);
        lemma_first_match_of_joined(here, seen(later.take(last), deadline_ms), pick);
    }
}

/// The answers that events hold, in the order of the events: what is left of a
/// stream when everything that says nothing to the listener is taken away.
pub open spec fn answers<T>(
    events: Seq<LedgerEvent>,
    pick: spec_fn(LedgerEvent) -> Option<T>,
) -> Seq<T>
    decreases events.len(),
{
    if events.len() == 0 {
        Seq::empty()
    } else {
        match pick(events[0]) {
            Some(answer) => seq![answer] + answers(events.drop_first(), pick),
            None => answers(events.drop_first(), pick),
        }
    }
}

/// What is matched is the first of the answers, and nothing where there are none.
pub proof fn lemma_first_match_is_first_answer<T>(
    events: Seq<LedgerEvent>,
    pick: spec_fn(LedgerEvent) -> Option<T>,
)
    ensures
        first_match(events, pick) == if answers(events, pick).len() > 0 {
            Some(answers(events, pick)[0])
        } else {
            None
        },
    decreases events.len(),
{
    if events.len() > 0 {
        lemma_first_match_is_first_answer(events.drop_first(), pick);
    }
}

/// Events that say nothing to the listener change nothing: two streams that hold the
/// same answers in the same order, whatever else they hold and wherever, are matched
/// alike.
pub proof fn lemma_same_answers_same_match<T>(
    first: Seq<LedgerEvent>,
    second: Seq<LedgerEvent>,
    pick: spec_fn(LedgerEvent) -> Option<T>,
)
    requires
        answers(first, pick) == answers(second, pick),
    ensures
        first_match(first, pick) == first_match(second, pick),
{
    lemma_first_match_is_first_answer(first, pick);
    lemma_first_match_is_first_answer(second, pick);
}

} // verus!
