//! What holds of whole runs of the builder, whatever the outside world
//! answers.

use vstd::prelude::*;
use crate::builder::{key_of, step, ActionView, BuildError, BuilderView, EventView, StageView};
use crate::fetch::{proof_of, request_at, RequestView};
use crate::lookup::LookupView;
use crate::revert::{has_literal, revert_lookup, DecodeError};

verus! {

/// The builder after it has been told `events` one after the other, and the
/// actions it answered with, one for each event.
pub open spec fn run(b: BuilderView, events: Seq<EventView>) -> (BuilderView, Seq<ActionView>)
    decreases events.len(),
{
    if events.len() == 0 {
        (b, Seq::empty())
    } else {
        let (next, action) = step(b, events[0]);
        let (last, actions) = run(next, events.drop_first());
        (last, seq![action] + actions)
    }
}

/// Whether none of `actions` asks for a request to an endpoint.
pub open spec fn sends_nothing(actions: Seq<ActionView>) -> bool {
    forall|i: int| 0 <= i < actions.len() ==> !(#[trigger] actions[i] is Send)
}

/// The requests that `actions` ask for, in their order.
pub open spec fn requests_sent(actions: Seq<ActionView>) -> Seq<RequestView>
    decreases actions.len(),
{
    if actions.len() == 0 {
        Seq::empty()
    } else {
        match actions[0] {
            ActionView::Send(request) => seq![request] + requests_sent(actions.drop_first()),
            _ => requests_sent(actions.drop_first()),
        }
    }
}

/// The requests for the URLs of `lookup` from the one at `from` on, in the
/// order of the URLs.
pub open spec fn requests_from(lookup: LookupView, from: int) -> Seq<RequestView> {
    Seq::new(
        if from <= lookup.urls.len() {
            (lookup.urls.len() - from) as nat
        } else {
            0
        },
        |i: int| request_at(lookup, from + i),
    )
}

/// An action that is no request adds nothing to the requests sent.
pub proof fn lemma_requests_skip(first: ActionView, rest: Seq<ActionView>)
    requires
        !(first is Send),
    ensures
        requests_sent(seq![first] + rest) == requests_sent(rest),
{
    assert((seq![first] + rest).drop_first() =~= rest);
}

/// Every event is answered with one action.
pub proof fn lemma_one_action_per_event(b: BuilderView, events: Seq<EventView>)
    ensures
        run(b, events).1.len() == events.len(),
    decreases events.len(),
{
    if events.len() > 0 {
        lemma_one_action_per_event(step(b, events[0]).0, events.drop_first());
    }
}

/// A run that is over stays over: whatever it is told, it asks for nothing
/// more and sends no request.
pub proof fn lemma_done_stays_done(b: BuilderView, events: Seq<EventView>)
    requires
        b.stage is Done,
    ensures
        run(b, events).0.stage is Done,
        forall|i: int|
            0 <= i < run(b, events).1.len() ==> #[trigger] run(b, events).1[i]
                == ActionView::Abort(BuildError::UnexpectedEvent),
        sends_nothing(run(b, events).1),
        requests_sent(run(b, events).1) == Seq::<RequestView>::empty(),
    decreases events.len(),
{
    if events.len() > 0 {
        let (next, action) = step(b, events[0]);
        lemma_done_stays_done(next, events.drop_first());
        let rest = run(next, events.drop_first()).1;
        assert((seq![action] + rest).drop_first() =~= rest);
    }
}

/// The actions of a run are the first action and then those of the rest of
/// the run.
pub proof fn lemma_run_unfold(b: BuilderView, first: EventView, rest: Seq<EventView>)
    ensures
        run(b, seq![first] + rest).0 == run(step(b, first).0, rest).0,
        run(b, seq![first] + rest).1 == seq![step(b, first).1] + run(step(b, first).0, rest).1,
{
    let events = seq![first] + rest;
    assert(events[0] == first);
    assert(events.drop_first() =~= rest);
}

/// Where the module's call returns without reverting, the run ends at once
/// without a proof, and no request is ever sent to an endpoint, whatever the
/// builder is told afterwards.
pub proof fn lemma_module_returned_sends_nothing(
    b: BuilderView,
    rest: Seq<EventView>,
)
    requires
        b.stage is Idle,
    ensures
        ({
            let events = seq![EventView::Start, EventView::CacheRead(None), EventView::ModuleReturned]
                + rest;
            let actions = run(b, events).1;
            &&& actions[0] == ActionView::ReadCache(key_of(b))
            &&& actions[1] == ActionView::CallModule(b.message)
            &&& actions[2] == ActionView::Finish(None)
            &&& sends_nothing(actions)
        }),
{
    let e0 = EventView::Start;
    let e1 = EventView::CacheRead(None);
    let e2 = EventView::ModuleReturned;
    let events = seq![e0, e1, e2] + rest;
    let (b1, a0) = step(b, e0);
    let (b2, a1) = step(b1, e1);
    let (b3, a2) = step(b2, e2);
    assert(events =~= seq![e0] + (seq![e1] + (seq![e2] + rest)));
    lemma_run_unfold(b, e0, seq![e1] + (seq![e2] + rest));
    lemma_run_unfold(b1, e1, seq![e2] + rest);
    lemma_run_unfold(b2, e2, rest);
    lemma_done_stays_done(b3, rest);
    let tail = run(b3, rest).1;
    let actions = run(b, events).1;
    assert(actions =~= seq![a0, a1, a2] + tail);
    assert forall|i: int| 0 <= i < actions.len() implies !(#[trigger] actions[i] is Send) by {
        if i >= 3 {
            assert(actions[i] == tail[i - 3]);
        }
    }
}

/// Where the module reverts with a text that holds no hexadecimal literal,
/// the run ends at once without a proof, whatever the bytes of the text
/// would decode to, and no request is ever sent.
pub proof fn lemma_revert_without_payload_sends_nothing(
    b: BuilderView,
    text: Seq<char>,
    rest: Seq<EventView>,
)
    requires
        b.stage is Idle,
        !has_literal(text),
    ensures
        revert_lookup(text) == Ok::<Option<LookupView>, DecodeError>(None),
        ({
            let events = seq![
                EventView::Start,
                EventView::CacheRead(None),
                EventView::ModuleReverted(text),
            ] + rest;
            let actions = run(b, events).1;
            &&& actions[2] == ActionView::Finish(None)
            &&& sends_nothing(actions)
        }),
{
    let e0 = EventView::Start;
    let e1 = EventView::CacheRead(None);
    let e2 = EventView::ModuleReverted(text);
    let events = seq![e0, e1, e2] + rest;
    let (b1, a0) = step(b, e0);
    let (b2, a1) = step(b1, e1);
    let (b3, a2) = step(b2, e2);
    assert(events =~= seq![e0] + (seq![e1] + (seq![e2] + rest)));
    lemma_run_unfold(b, e0, seq![e1] + (seq![e2] + rest));
    lemma_run_unfold(b1, e1, seq![e2] + rest);
    lemma_run_unfold(b2, e2, rest);
    lemma_done_stays_done(b3, rest);
    let tail = run(b3, rest).1;
    let actions = run(b, events).1;
    assert(actions =~= seq![a0, a1, a2] + tail);
    assert forall|i: int| 0 <= i < actions.len() implies !(#[trigger] actions[i] is Send) by {
        if i >= 3 {
            assert(actions[i] == tail[i - 3]);
        }
    }
}

/// A descriptor without URLs ends the run without a proof as soon as it is
/// resolved, and no request is ever sent.
pub proof fn lemma_no_urls_sends_nothing(
    b: BuilderView,
    lookup: LookupView,
    rest: Seq<EventView>,
)
    requires
        b.stage == StageView::WritingCache(lookup),
        lookup.urls.len() == 0,
    ensures
        run(b, seq![EventView::CacheWritten] + rest).1[0] == ActionView::Finish(None),
        sends_nothing(run(b, seq![EventView::CacheWritten] + rest).1),
{
    let e0 = EventView::CacheWritten;
    let (b1, a0) = step(b, e0);
    lemma_run_unfold(b, e0, rest);
    lemma_done_stays_done(b1, rest);
    let tail = run(b1, rest).1;
    let actions = run(b, seq![e0] + rest).1;
    assert forall|i: int| 0 <= i < actions.len() implies !(#[trigger] actions[i] is Send) by {
        if i >= 1 {
            assert(actions[i] == tail[i - 1]);
        }
    }
}

/// The requests of a run that is waiting for the answer to the URL at
/// `index` are those for the URLs behind it, in the order of the URLs and
/// without a gap: each URL is asked once at most, and none before the one in
/// front of it has failed.
pub proof fn lemma_requests_follow_urls(
    b: BuilderView,
    lookup: LookupView,
    index: int,
    events: Seq<EventView>,
)
    requires
        b.stage == StageView::Requesting(lookup, index),
        0 <= index,
    ensures
        requests_sent(run(b, events).1).is_prefix_of(requests_from(lookup, index + 1)),
    decreases events.len(),
{
    if events.len() > 0 {
        let (next, action) = step(b, events[0]);
        let rest = run(next, events.drop_first()).1;
        assert((seq![action] + rest).drop_first() =~= rest);
        match next.stage {
            StageView::Requesting(l, i) => {
                assert(l == lookup && i == index + 1 && i < lookup.urls.len());
                assert(action == ActionView::Send(request_at(lookup, index + 1)));
                lemma_requests_follow_urls(next, lookup, index + 1, events.drop_first());
                let sent = requests_sent(rest);
                let all = requests_from(lookup, index + 1);
                let behind = requests_from(lookup, index + 2);
                assert(all =~= seq![request_at(lookup, index + 1)] + behind);
                assert(seq![request_at(lookup, index + 1)] + sent =~= all.subrange(
                    0,
                    sent.len() as int + 1,
                )) by {
                    assert(sent =~= behind.subrange(0, sent.len() as int));
                }
            },
            _ => {
                assert(next.stage is Done);
                assert(!(action is Send));
                lemma_done_stays_done(next, events.drop_first());
            },
        }
    }
}

/// Once the descriptor is known, the requests of the run are those for its
/// URLs, in their order and from the first on.
pub proof fn lemma_requests_start_at_first_url(
    b: BuilderView,
    lookup: LookupView,
    events: Seq<EventView>,
)
    requires
        b.stage == StageView::WritingCache(lookup),
    ensures
        requests_sent(run(b, events).1).is_prefix_of(requests_from(lookup, 0)),
{
    if events.len() > 0 {
        let (next, action) = step(b, events[0]);
        let rest = run(next, events.drop_first()).1;
        assert((seq![action] + rest).drop_first() =~= rest);
        match next.stage {
            StageView::Requesting(l, i) => {
                assert(l == lookup && i == 0 && 0 < lookup.urls.len());
                assert(action == ActionView::Send(request_at(lookup, 0)));
                lemma_requests_follow_urls(next, lookup, 0, events.drop_first());
                let sent = requests_sent(rest);
                let all = requests_from(lookup, 0);
                let behind = requests_from(lookup, 1);
                assert(all =~= seq![request_at(lookup, 0)] + behind);
                assert(seq![request_at(lookup, 0)] + sent =~= all.subrange(
                    0,
                    sent.len() as int + 1,
                )) by {
                    assert(sent =~= behind.subrange(0, sent.len() as int));
                }
            },
            _ => {
                assert(next.stage is Done);
                assert(!(action is Send));
                lemma_done_stays_done(next, events.drop_first());
            },
        }
    }
}

/// A descriptor found in the cache is written back under the key it was
/// found under, unchanged, and it is the one whose URLs are then asked.
pub proof fn lemma_cache_hit_is_refreshed(
    b: BuilderView,
    stored: LookupView,
    rest: Seq<EventView>,
)
    requires
        b.stage is Idle,
    ensures
        ({
            let events = seq![EventView::Start, EventView::CacheRead(Some(stored))] + rest;
            let actions = run(b, events).1;
            &&& actions[0] == ActionView::ReadCache(key_of(b))
            &&& actions[1] == ActionView::WriteCache(key_of(b), stored)
            &&& requests_sent(actions).is_prefix_of(requests_from(stored, 0))
        }),
{
    let e0 = EventView::Start;
    let e1 = EventView::CacheRead(Some(stored));
    let events = seq![e0, e1] + rest;
    let (b1, a0) = step(b, e0);
    let (b2, a1) = step(b1, e1);
    assert(events =~= seq![e0] + (seq![e1] + rest));
    lemma_run_unfold(b, e0, seq![e1] + rest);
    lemma_run_unfold(b1, e1, rest);
    lemma_requests_start_at_first_url(b2, stored, rest);
    let tail = run(b2, rest).1;
    lemma_requests_skip(a1, tail);
    lemma_requests_skip(a0, seq![a1] + tail);
}

/// The first answer that spells a proof ends the run with that proof; no URL
/// behind it is asked.
pub proof fn lemma_first_proof_wins(
    b: BuilderView,
    lookup: LookupView,
    index: int,
    data: Seq<char>,
    rest: Seq<EventView>,
)
    requires
        b.stage == StageView::Requesting(lookup, index),
        proof_of(data) is Some,
    ensures
        run(b, seq![EventView::EndpointAnswered(data)] + rest).1[0] == ActionView::Finish(
            proof_of(data),
        ),
        sends_nothing(run(b, seq![EventView::EndpointAnswered(data)] + rest).1),
{
    let e0 = EventView::EndpointAnswered(data);
    let (b1, a0) = step(b, e0);
    lemma_run_unfold(b, e0, rest);
    lemma_done_stays_done(b1, rest);
    let tail = run(b1, rest).1;
    let actions = run(b, seq![e0] + rest).1;
    assert forall|i: int| 0 <= i < actions.len() implies !(#[trigger] actions[i] is Send) by {
        if i >= 1 {
            assert(actions[i] == tail[i - 1]);
        }
    }
}

/// An endpoint that fails, or whose answer spells no proof, costs the run
/// nothing but that URL: the next URL is asked, and after the last the run
/// ends without a proof.
pub proof fn lemma_failed_endpoint_falls_through(
    b: BuilderView,
    lookup: LookupView,
    index: int,
    e: EventView,
)
    requires
        b.stage == StageView::Requesting(lookup, index),
        0 <= index,
        e is EndpointFailed || (e matches EventView::EndpointAnswered(data) && proof_of(data)
            is None),
    ensures
        index + 1 < lookup.urls.len() ==> step(b, e).1 == ActionView::Send(
            request_at(lookup, index + 1),
        ),
        index + 1 >= lookup.urls.len() ==> step(b, e).1 == ActionView::Finish(None),
{
}

/// Whether an action touches neither the cache nor the module.
pub open spec fn leaves_search_alone(action: ActionView) -> bool {
    !(action is ReadCache) && !(action is CallModule) && !(action is WriteCache)
}

/// Once the descriptor is known or the run is over, the cache and the module
/// are not touched again.
pub proof fn lemma_search_is_over(b: BuilderView, events: Seq<EventView>)
    requires
        b.stage is WritingCache || b.stage is Requesting || b.stage is Done,
    ensures
        forall|i: int|
            0 <= i < run(b, events).1.len() ==> leaves_search_alone(
                #[trigger] run(b, events).1[i],
            ),
    decreases events.len(),
{
    if events.len() > 0 {
        let (next, action) = step(b, events[0]);
        lemma_search_is_over(next, events.drop_first());
        let rest = run(next, events.drop_first()).1;
        let actions = run(b, events).1;
        assert forall|i: int| 0 <= i < actions.len() implies leaves_search_alone(
            #[trigger] actions[i],
        ) by {
            if i >= 1 {
                assert(actions[i] == rest[i - 1]);
            }
        }
    }
}

/// A run reads the cache once at most, and first of all; calls the module
/// once at most, and only as its second action; and writes the cache once at
/// most, as its second or third action.
pub proof fn lemma_search_comes_first(b: BuilderView, events: Seq<EventView>)
    requires
        b.stage is Idle,
    ensures
        forall|i: int|
            0 <= i < run(b, events).1.len() ==> {
                let action = #[trigger] run(b, events).1[i];
                &&& action is ReadCache ==> i == 0
                &&& action is CallModule ==> i == 1
                &&& action is WriteCache ==> i == 1 || i == 2
            },
        run(b, events).1.len() >= 3 ==> !(run(b, events).1[1] is WriteCache && run(
            b,
            events,
        ).1[2] is WriteCache),
{
    let actions = run(b, events).1;
    lemma_one_action_per_event(b, events);
    if events.len() > 0 {
        let (b1, a0) = step(b, events[0]);
        let ev1 = events.drop_first();
        let acts1 = run(b1, ev1).1;
        lemma_one_action_per_event(b1, ev1);
        assert(actions =~= seq![a0] + acts1);
        if b1.stage is Done {
            lemma_search_is_over(b1, ev1);
            assert forall|i: int| 1 <= i < actions.len() implies leaves_search_alone(
                #[trigger] actions[i],
            ) by {
                assert(actions[i] == acts1[i - 1]);
            }
        } else if ev1.len() > 0 {
            assert(b1.stage is ReadingCache);
            let (b2, a1) = step(b1, ev1[0]);
            let ev2 = ev1.drop_first();
            let acts2 = run(b2, ev2).1;
            lemma_one_action_per_event(b2, ev2);
            assert(acts1 =~= seq![a1] + acts2);
            if b2.stage is CallingModule {
                if ev2.len() > 0 {
                    let (b3, a2) = step(b2, ev2[0]);
                    let ev3 = ev2.drop_first();
                    let acts3 = run(b3, ev3).1;
                    assert(acts2 =~= seq![a2] + acts3);
                    lemma_search_is_over(b3, ev3);
                    assert forall|i: int| 3 <= i < actions.len() implies leaves_search_alone(
                        #[trigger] actions[i],
                    ) by {
                        assert(actions[i] == acts3[i - 3]);
                    }
                    assert(actions[2] == a2);
                }
                assert(actions[1] == a1);
            } else {
                lemma_search_is_over(b2, ev2);
                assert forall|i: int| 2 <= i < actions.len() implies leaves_search_alone(
                    #[trigger] actions[i],
                ) by {
                    assert(actions[i] == acts2[i - 2]);
                }
                assert(actions[1] == a1);
            }
        }
    }
}

} // verus!
