//! What a run comes to. The outside world is described by what it would
//! answer: what the cache holds, what the module does, and what each endpoint
//! says. The result of a run in such a world is stated directly, and the
//! builder, driven step by step, is proved to arrive at it.

use vstd::prelude::*;
use crate::builder::{
    next_request, step, ActionView, BuildError, BuilderView, EventView, StageView,
};
use crate::fetch::proof_of;
use crate::lookup::LookupView;
use crate::revert::revert_lookup;

verus! {

/// What the module does when it is called.
pub ghost enum ModuleAnswer {
    /// It returns without reverting.
    Returned,
    /// It reverts with this text.
    Reverted(Seq<char>),
    /// It cannot be reached.
    Unreachable,
}

/// A world in which the cache works and every request can be sent.
pub ghost struct World {
    /// The entry that the cache holds under the key of the run.
    pub cached: Option<LookupView>,
    /// What the module does.
    pub module: ModuleAnswer,
    /// For each URL of the descriptor, by its index: the `data` field of the
    /// endpoint's answer, or `None` where the endpoint fails. An endpoint
    /// beyond the end of the sequence fails.
    pub endpoints: Seq<Option<Seq<char>>>,
}

/// The proof that the endpoint of the URL at `index` gives, if it gives one.
pub open spec fn endpoint_proof(w: World, index: int) -> Option<Seq<u8>> {
    if 0 <= index < w.endpoints.len() {
        match w.endpoints[index] {
            Some(data) => proof_of(data),
            None => None,
        }
    } else {
        None
    }
}

/// The proof of the first endpoint, from the URL at `from` on and among
/// `urls` URLs, that gives one.
pub open spec fn first_proof(w: World, urls: int, from: int) -> Option<Seq<u8>>
    decreases urls - from,
{
    if from < 0 || from >= urls {
        None
    } else if endpoint_proof(w, from) is Some {
        endpoint_proof(w, from)
    } else {
        first_proof(w, urls, from + 1)
    }
}

/// The descriptor of a run: the cached one where there is one, else the one
/// in the module's revert; `None` where the module asks for no lookup.
pub open spec fn resolved(w: World) -> Result<Option<LookupView>, BuildError> {
    match w.cached {
        Some(lookup) => Ok(Some(lookup)),
        None => match w.module {
            ModuleAnswer::Returned => Ok(None),
            ModuleAnswer::Unreachable => Err(BuildError::ModuleCall),
            ModuleAnswer::Reverted(text) => match revert_lookup(text) {
                Ok(lookup) => Ok(lookup),
                Err(e) => Err(BuildError::Decode(e)),
            },
        },
    }
}

/// What a run returns: the proof of the first URL of the descriptor whose
/// endpoint gives one; `None` where there is no descriptor, or no such URL.
pub open spec fn outcome(w: World) -> Result<Option<Seq<u8>>, BuildError> {
    match resolved(w) {
        Ok(Some(lookup)) => Ok(first_proof(w, lookup.urls.len() as int, 0)),
        Ok(None) => Ok(None),
        Err(e) => Err(e),
    }
}

/// What the module says when it is called.
pub open spec fn module_event(w: World) -> EventView {
    match w.module {
        ModuleAnswer::Returned => EventView::ModuleReturned,
        ModuleAnswer::Reverted(text) => EventView::ModuleReverted(text),
        ModuleAnswer::Unreachable => EventView::ModuleUnreachable,
    }
}

/// What the endpoint of the URL at `index` says when it is asked.
pub open spec fn endpoint_event(w: World, index: int) -> EventView {
    if 0 <= index < w.endpoints.len() {
        match w.endpoints[index] {
            Some(data) => EventView::EndpointAnswered(data),
            None => EventView::EndpointFailed,
        }
    } else {
        EventView::EndpointFailed
    }
}

/// What the world answers to an action of the builder `b`.
pub open spec fn answer(w: World, b: BuilderView, action: ActionView) -> EventView {
    match action {
        ActionView::ReadCache(_) => EventView::CacheRead(w.cached),
        ActionView::CallModule(_) => module_event(w),
        ActionView::WriteCache(_, _) => EventView::CacheWritten,
        _ => match b.stage {
            StageView::Requesting(_, index) => endpoint_event(w, index),
            _ => EventView::EndpointFailed,
        },
    }
}

/// The result of driving the builder `b` in the world `w`: it is told
/// `event`, each of its actions is carried out and answered, and so on until
/// it finishes or aborts. `None` where that takes more than `fuel` further
/// steps.
pub open spec fn drive(w: World, b: BuilderView, event: EventView, fuel: nat) -> Option<
    Result<Option<Seq<u8>>, BuildError>,
>
    decreases fuel,
{
    let (next, action) = step(b, event);
    match action {
        ActionView::Finish(result) => Some(Ok(result)),
        ActionView::Abort(e) => Some(Err(e)),
        _ => if fuel == 0 {
            None
        } else {
            drive(w, next, answer(w, next, action), (fuel - 1) as nat)
        },
    }
}

/// The steps that a run takes after its first: two for the search, one more
/// where the module is called, and one for each URL at most.
pub open spec fn steps_needed(w: World) -> nat {
    match resolved(w) {
        Ok(Some(lookup)) => 3 + lookup.urls.len(),
        _ => 3,
    }
}

/// While the URLs are tried, the run ends with the proof of the first
/// endpoint that gives one.
pub proof fn lemma_drive_requests(
    w: World,
    b: BuilderView,
    lookup: LookupView,
    index: int,
    fuel: nat,
)
    requires
        b.stage == StageView::Requesting(lookup, index),
        0 <= index < lookup.urls.len(),
        fuel + index + 1 >= lookup.urls.len(),
    ensures
        drive(w, b, endpoint_event(w, index), fuel) == Some(
            Ok::<Option<Seq<u8>>, BuildError>(first_proof(w, lookup.urls.len() as int, index)),
        ),
    decreases lookup.urls.len() - index,
{
    let urls = lookup.urls.len() as int;
    let (next, action) = step(b, endpoint_event(w, index));
    if endpoint_proof(w, index) is Some {
    } else {
        assert((next, action) == next_request(b, lookup, index + 1));
        if index + 1 < urls {
            assert(answer(w, next, action) == endpoint_event(w, index + 1));
            lemma_drive_requests(w, next, lookup, index + 1, (fuel - 1) as nat);
        } else {
            assert(first_proof(w, urls, index + 1) is None);
        }
    }
}

/// Once the descriptor is written to the cache, the run ends with the proof
/// of the first of its URLs whose endpoint gives one.
pub proof fn lemma_drive_resolved(w: World, b: BuilderView, lookup: LookupView, fuel: nat)
    requires
        b.stage == StageView::WritingCache(lookup),
        fuel >= lookup.urls.len(),
    ensures
        drive(w, b, EventView::CacheWritten, fuel) == Some(
            Ok::<Option<Seq<u8>>, BuildError>(first_proof(w, lookup.urls.len() as int, 0)),
        ),
{
    let (next, action) = step(b, EventView::CacheWritten);
    assert((next, action) == next_request(b, lookup, 0));
    if 0 < lookup.urls.len() {
        assert(answer(w, next, action) == endpoint_event(w, 0));
        lemma_drive_requests(w, next, lookup, 0, (fuel - 1) as nat);
    }
}

/// A run that starts afresh, in a world where the cache works and requests
/// can be sent, returns what the world's outcome says, and takes no more
/// steps for it than the search and the URLs need.
pub proof fn lemma_run_reaches_outcome(w: World, b: BuilderView, fuel: nat)
    requires
        b.stage is Idle,
        fuel >= steps_needed(w),
    ensures
        drive(w, b, EventView::Start, fuel) == Some(outcome(w)),
{
    let (b1, a0) = step(b, EventView::Start);
    let e1 = answer(w, b1, a0);
    assert(e1 == EventView::CacheRead(w.cached));
    let (b2, a1) = step(b1, e1);
    let f1 = (fuel - 1) as nat;
    let f2 = (fuel - 2) as nat;
    assert(drive(w, b, EventView::Start, fuel) == drive(w, b1, e1, f1));
    match w.cached {
        Some(lookup) => {
            assert(b2.stage == StageView::WritingCache(lookup));
            assert(answer(w, b2, a1) == EventView::CacheWritten);
            assert(drive(w, b1, e1, f1) == drive(w, b2, EventView::CacheWritten, f2));
            lemma_drive_resolved(w, b2, lookup, f2);
        },
        None => {
            let e2 = module_event(w);
            assert(answer(w, b2, a1) == e2);
            assert(drive(w, b1, e1, f1) == drive(w, b2, e2, f2));
            let (b3, a2) = step(b2, e2);
            match resolved(w) {
                Ok(Some(lookup)) => {
                    let f3 = (fuel - 3) as nat;
                    assert(b3.stage == StageView::WritingCache(lookup));
                    assert(answer(w, b3, a2) == EventView::CacheWritten);
                    assert(drive(w, b2, e2, f2) == drive(w, b3, EventView::CacheWritten, f3));
                    lemma_drive_resolved(w, b3, lookup, f3);
                },
                Ok(None) => {
                    assert(a2 == ActionView::Finish(None));
                },
                Err(e) => {
                    assert(a2 == ActionView::Abort(e));
                },
            }
        },
    }
}

/// The proof of a run is that of the first endpoint that gives one: it comes
/// from an endpoint of the descriptor, and no endpoint in front of it gives
/// a proof.
pub proof fn lemma_first_proof_is_first(w: World, urls: int, from: int)
    requires
        0 <= from,
    ensures
        match first_proof(w, urls, from) {
            Some(bytes) => exists|i: int|
                from <= i < urls && endpoint_proof(w, i) == Some(bytes) && forall|j: int|
                    from <= j < i ==> endpoint_proof(w, j) is None,
            None => forall|j: int| from <= j < urls ==> endpoint_proof(w, j) is None,
        },
    decreases urls - from,
{
    if from < urls {
        if endpoint_proof(w, from) is Some {
            let bytes = endpoint_proof(w, from)->0;
            assert(from <= from < urls && endpoint_proof(w, from) == Some(bytes) && forall|j: int|
                from <= j < from ==> endpoint_proof(w, j) is None);
        } else {
            lemma_first_proof_is_first(w, urls, from + 1);
            match first_proof(w, urls, from + 1) {
                Some(bytes) => {
                    let i = choose|i: int|
                        from + 1 <= i < urls && endpoint_proof(w, i) == Some(bytes) && forall|
                            j: int,
                        |
                            from + 1 <= j < i ==> endpoint_proof(w, j) is None;
                    assert(from <= i < urls && endpoint_proof(w, i) == Some(bytes) && forall|
                        j: int,
                    |
                        from <= j < i ==> endpoint_proof(w, j) is None);
                },
                None => {},
            }
        }
    }
}

} // verus!
