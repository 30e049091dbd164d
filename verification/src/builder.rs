//! The metadata builder: one run of it finds out, for one message at one
//! security module, whether a proof has to be fetched off chain and fetches
//! it. The builder does no work of its own on the outside world. It is told
//! what happened, and answers with what is to be done next.

use vstd::prelude::*;
use crate::fetch::{proof_from_data, proof_of, request_at, request_for, Request, RequestView};
use crate::lookup::{
    copy_bytes, lookup_key, CacheKey, CacheKeyView, LookupView, OffchainLookup,
    SerializedOffchainLookup,
};
use crate::revert::{decode_revert, revert_lookup, DecodeError};

verus! {

/// Why a run was given up.
#[derive(Clone, Copy, Debug, PartialEq, Eq, Structural)]
pub enum BuildError {
    /// The cache could not be read or written, or held an entry that could
    /// not be read.
    Cache,
    /// The call to the module failed before the module answered.
    ModuleCall,
    /// The module reverted with a payload that could not be read.
    Decode(DecodeError),
    /// A request could not be put together.
    Request,
    /// The builder was told of something it had not asked for.
    UnexpectedEvent,
}

/// What the builder is told.
#[derive(Debug, PartialEq, Eq)]
pub enum Event {
    /// The run begins.
    Start,
    /// The cache was read: the entry under the key, if there is one.
    CacheRead(Option<SerializedOffchainLookup>),
    /// The cache was written.
    CacheWritten,
    /// The cache could not be read or written.
    CacheFailed,
    /// The module's call returned without reverting.
    ModuleReturned,
    /// The module's call reverted; the text of the error.
    ModuleReverted(String),
    /// The module could not be reached, or did not answer in time.
    ModuleUnreachable,
    /// The endpoint answered with a JSON object; its `data` field.
    EndpointAnswered(String),
    /// The endpoint could not be reached, or its answer was no JSON object
    /// with a `data` field that is a string.
    EndpointFailed,
    /// The request could not be put together.
    RequestInvalid,
}

/// The mathematical content of an event.
pub ghost enum EventView {
    Start,
    CacheRead(Option<LookupView>),
    CacheWritten,
    CacheFailed,
    ModuleReturned,
    ModuleReverted(Seq<char>),
    ModuleUnreachable,
    EndpointAnswered(Seq<char>),
    EndpointFailed,
    RequestInvalid,
}

impl View for Event {
    type V = EventView;

    open spec fn view(&self) -> EventView {
        match self {
            Event::Start => EventView::Start,
            Event::CacheRead(Some(stored)) => EventView::CacheRead(Some(stored@)),
            Event::CacheRead(None) => EventView::CacheRead(None),
            Event::CacheWritten => EventView::CacheWritten,
            Event::CacheFailed => EventView::CacheFailed,
            Event::ModuleReturned => EventView::ModuleReturned,
            Event::ModuleReverted(text) => EventView::ModuleReverted(text@),
            Event::ModuleUnreachable => EventView::ModuleUnreachable,
            Event::EndpointAnswered(data) => EventView::EndpointAnswered(data@),
            Event::EndpointFailed => EventView::EndpointFailed,
            Event::RequestInvalid => EventView::RequestInvalid,
        }
    }
}

/// What the builder asks for, or how the run ended.
#[derive(Debug, PartialEq, Eq)]
pub enum Action {
    /// Read the cache under this key; answer with `CacheRead` or
    /// `CacheFailed`.
    ReadCache(CacheKey),
    /// Call the module's lookup entry point with these message bytes; answer
    /// with `ModuleReturned`, `ModuleReverted` or `ModuleUnreachable`.
    CallModule(Vec<u8>),
    /// Write this entry under this key; answer with `CacheWritten` or
    /// `CacheFailed`.
    WriteCache(CacheKey, SerializedOffchainLookup),
    /// Send this request; answer with `EndpointAnswered`, `EndpointFailed`
    /// or `RequestInvalid`.
    Send(Request),
    /// The run is over: the proof, or `None` where none is to be had.
    Finish(Option<Vec<u8>>),
    /// The run is over and has failed.
    Abort(BuildError),
}

/// The mathematical content of an action.
pub ghost enum ActionView {
    ReadCache(CacheKeyView),
    CallModule(Seq<u8>),
    WriteCache(CacheKeyView, LookupView),
    Send(RequestView),
    Finish(Option<Seq<u8>>),
    Abort(BuildError),
}

impl View for Action {
    type V = ActionView;

    open spec fn view(&self) -> ActionView {
        match self {
            Action::ReadCache(key) => ActionView::ReadCache(key@),
            Action::CallModule(message) => ActionView::CallModule(message@),
            Action::WriteCache(key, stored) => ActionView::WriteCache(key@, stored@),
            Action::Send(request) => ActionView::Send(request@),
            Action::Finish(Some(bytes)) => ActionView::Finish(Some(bytes@)),
            Action::Finish(None) => ActionView::Finish(None),
            Action::Abort(e) => ActionView::Abort(*e),
        }
    }
}

/// How far the search for the descriptor has come after a step.
#[derive(Debug, PartialEq, Eq)]
pub enum Resolving {
    /// The caller is to carry out the action and report its outcome.
    Perform(Action),
    /// The search is over: the descriptor, or `None` where the module asks
    /// for no lookup.
    Resolved(Option<OffchainLookup>),
    /// The search has failed.
    Failed(BuildError),
}

/// The mathematical content of a step of the search.
pub ghost enum ResolvingView {
    Perform(ActionView),
    Resolved(Option<LookupView>),
    Failed(BuildError),
}

impl View for Resolving {
    type V = ResolvingView;

    open spec fn view(&self) -> ResolvingView {
        match self {
            Resolving::Perform(action) => ResolvingView::Perform(action@),
            Resolving::Resolved(Some(lookup)) => ResolvingView::Resolved(Some(lookup@)),
            Resolving::Resolved(None) => ResolvingView::Resolved(None),
            Resolving::Failed(e) => ResolvingView::Failed(*e),
        }
    }
}

/// Where a run stands.
#[derive(Debug, PartialEq, Eq)]
pub enum Stage {
    /// Nothing has been asked for yet.
    Idle,
    /// The cache is being read.
    ReadingCache,
    /// The module is being called.
    CallingModule,
    /// The descriptor is known and is being written to the cache.
    WritingCache(OffchainLookup),
    /// The request for the URL at this index of the descriptor is under way.
    Requesting(OffchainLookup, usize),
    /// The run is over.
    Done,
}

/// The mathematical content of a stage.
pub ghost enum StageView {
    Idle,
    ReadingCache,
    CallingModule,
    WritingCache(LookupView),
    Requesting(LookupView, int),
    Done,
}

impl View for Stage {
    type V = StageView;

    open spec fn view(&self) -> StageView {
        match self {
            Stage::Idle => StageView::Idle,
            Stage::ReadingCache => StageView::ReadingCache,
            Stage::CallingModule => StageView::CallingModule,
            Stage::WritingCache(lookup) => StageView::WritingCache(lookup@),
            Stage::Requesting(lookup, index) => StageView::Requesting(lookup@, *index as int),
            Stage::Done => StageView::Done,
        }
    }
}

/// One run of the off-chain lookup for one message at one module.
#[derive(Debug, PartialEq, Eq)]
pub struct CcipReadIsmMetadataBuilder {
    /// Address of the security module.
    pub ism_address: [u8; 32],
    /// The message, in the bytes in which it goes over the wire.
    pub message: Vec<u8>,
    /// Where the run stands.
    pub stage: Stage,
}

/// The mathematical content of a builder.
pub ghost struct BuilderView {
    pub ism_address: Seq<u8>,
    pub message: Seq<u8>,
    pub stage: StageView,
}

impl View for CcipReadIsmMetadataBuilder {
    type V = BuilderView;

    open spec fn view(&self) -> BuilderView {
        BuilderView {
            ism_address: self.ism_address@,
            message: self.message@,
            stage: self.stage@,
        }
    }
}

/// The builder `b` at another stage.
pub open spec fn at_stage(b: BuilderView, stage: StageView) -> BuilderView {
    BuilderView { ism_address: b.ism_address, message: b.message, stage }
}

/// The key under which the descriptor of the run `b` is stored.
pub open spec fn key_of(b: BuilderView) -> CacheKeyView {
    lookup_key(b.ism_address, b.message)
}

/// What the search does with what was read out of the module's revert: a
/// text without a payload asks for no lookup, a descriptor is written to the
/// cache, and a payload that could not be read ends the run.
pub open spec fn after_revert(b: BuilderView, read: Result<Option<LookupView>, DecodeError>) -> (
    BuilderView,
    ResolvingView,
) {
    match read {
        Ok(None) => (at_stage(b, StageView::Done), ResolvingView::Resolved(None)),
        Ok(Some(lookup)) => (
            at_stage(b, StageView::WritingCache(lookup)),
            ResolvingView::Perform(ActionView::WriteCache(key_of(b), lookup)),
        ),
        Err(e) => (at_stage(b, StageView::Done), ResolvingView::Failed(BuildError::Decode(e))),
    }
}

/// The mathematical content of what was read out of a revert.
pub open spec fn read_view(read: Result<Option<OffchainLookup>, DecodeError>) -> Result<
    Option<LookupView>,
    DecodeError,
> {
    match read {
        Ok(Some(lookup)) => Ok(Some(lookup@)),
        Ok(None) => Ok(None),
        Err(e) => Err(e),
    }
}

/// One step of the search for the descriptor.
///
/// The cache is read first. An entry found there is the descriptor; without
/// one the module is called. A call that returns asks for no lookup; one
/// that reverts is read for its payload, and a text without a payload asks
/// for no lookup either. A descriptor, wherever it came from, is written to
/// the cache under the key it was looked for, and only then handed out.
pub open spec fn resolve_step(b: BuilderView, e: EventView) -> (BuilderView, ResolvingView) {
    let done = at_stage(b, StageView::Done);
    match (b.stage, e) {
        (StageView::Idle, EventView::Start) => (
            at_stage(b, StageView::ReadingCache),
            ResolvingView::Perform(ActionView::ReadCache(key_of(b))),
        ),
        (StageView::ReadingCache, EventView::CacheRead(Some(stored))) => (
            at_stage(b, StageView::WritingCache(stored)),
            ResolvingView::Perform(ActionView::WriteCache(key_of(b), stored)),
        ),
        (StageView::ReadingCache, EventView::CacheRead(None)) => (
            at_stage(b, StageView::CallingModule),
            ResolvingView::Perform(ActionView::CallModule(b.message)),
        ),
        (StageView::ReadingCache, EventView::CacheFailed) => (
            done,
            ResolvingView::Failed(BuildError::Cache),
        ),
        (StageView::CallingModule, EventView::ModuleReturned) => (
            done,
            ResolvingView::Resolved(None),
        ),
        (StageView::CallingModule, EventView::ModuleUnreachable) => (
            done,
            ResolvingView::Failed(BuildError::ModuleCall),
        ),
        (StageView::CallingModule, EventView::ModuleReverted(text)) => after_revert(
            b,
            revert_lookup(text),
        ),
        (StageView::WritingCache(lookup), EventView::CacheWritten) => (
            done,
            ResolvingView::Resolved(Some(lookup)),
        ),
        (StageView::WritingCache(_), EventView::CacheFailed) => (
            done,
            ResolvingView::Failed(BuildError::Cache),
        ),
        _ => (done, ResolvingView::Failed(BuildError::UnexpectedEvent)),
    }
}

/// What follows when the URLs before `index` have given nothing: the request
/// for the URL at `index`, or the end of the run without a proof where the
/// descriptor has no URL left.
pub open spec fn next_request(b: BuilderView, lookup: LookupView, index: int) -> (
    BuilderView,
    ActionView,
) {
    if 0 <= index < lookup.urls.len() {
        (
            at_stage(b, StageView::Requesting(lookup, index)),
            ActionView::Send(request_at(lookup, index)),
        )
    } else {
        (at_stage(b, StageView::Done), ActionView::Finish(None))
    }
}

/// One step of a run.
///
/// While the descriptor is being looked for, the step is that of the search.
/// When the search ends with a descriptor, its URLs are tried in their
/// order, one request at a time: the first answer whose `data` field spells
/// a proof ends the run with that proof, any other answer and any failure of
/// the endpoint moves on to the next URL, and after the last the run ends
/// without a proof. Once the run is over nothing is asked for any more.
pub open spec fn step(b: BuilderView, e: EventView) -> (BuilderView, ActionView) {
    let done = at_stage(b, StageView::Done);
    match b.stage {
        StageView::Requesting(lookup, index) => match e {
            EventView::EndpointAnswered(data) => match proof_of(data) {
                Some(bytes) => (done, ActionView::Finish(Some(bytes))),
                None => next_request(b, lookup, index + 1),
            },
            EventView::EndpointFailed => next_request(b, lookup, index + 1),
            EventView::RequestInvalid => (done, ActionView::Abort(BuildError::Request)),
            _ => (done, ActionView::Abort(BuildError::UnexpectedEvent)),
        },
        StageView::Done => (done, ActionView::Abort(BuildError::UnexpectedEvent)),
        _ => match resolve_step(b, e) {
            (next, ResolvingView::Perform(action)) => (next, action),
            (next, ResolvingView::Resolved(None)) => (next, ActionView::Finish(None)),
            (next, ResolvingView::Resolved(Some(lookup))) => next_request(b, lookup, 0),
            (next, ResolvingView::Failed(e)) => (next, ActionView::Abort(e)),
        },
    }
}

impl CcipReadIsmMetadataBuilder {
    /// A run that has not begun, for `message` at the module with address
    /// `ism_address`.
    pub fn new(ism_address: [u8; 32], message: Vec<u8>) -> (b: Self)
        ensures
            b@ == (BuilderView {
                ism_address: ism_address@,
                message: message@,
                stage: StageView::Idle,
            }),
    {
        CcipReadIsmMetadataBuilder { ism_address, message, stage: Stage::Idle }
    }

    /// Goes on with the search once the module's revert has been read.
    pub fn revert_read(self, read: Result<Option<OffchainLookup>, DecodeError>) -> (r: (
        Self,
        Resolving,
    ))
        ensures
            (r.0@, r.1@) == after_revert(self@, read_view(read)),
    {
        let CcipReadIsmMetadataBuilder { ism_address, message, stage: _ } = self;
        match read {
            Ok(None) => (
                CcipReadIsmMetadataBuilder { ism_address, message, stage: Stage::Done },
                Resolving::Resolved(None),
            ),
            Ok(Some(lookup)) => {
                let key = CacheKey::for_lookup(&ism_address, &message);
                let stored = SerializedOffchainLookup::from(lookup.clone());
                (
                    CcipReadIsmMetadataBuilder {
                        ism_address,
                        message,
                        stage: Stage::WritingCache(lookup),
                    },
                    Resolving::Perform(Action::WriteCache(key, stored)),
                )
            },
            Err(e) => (
                CcipReadIsmMetadataBuilder { ism_address, message, stage: Stage::Done },
                Resolving::Failed(BuildError::Decode(e)),
            ),
        }
    }

    /// Takes one step of the search for the descriptor.
    pub fn call_get_offchain_verify_info(self, event: Event) -> (r: (Self, Resolving))
        ensures
            (r.0@, r.1@) == resolve_step(self@, event@),
    {
        let CcipReadIsmMetadataBuilder { ism_address, message, stage } = self;
        match (stage, event) {
            (Stage::Idle, Event::Start) => {
                let key = CacheKey::for_lookup(&ism_address, &message);
                (
                    CcipReadIsmMetadataBuilder { ism_address, message, stage: Stage::ReadingCache },
                    Resolving::Perform(Action::ReadCache(key)),
                )
            },
            (Stage::ReadingCache, Event::CacheRead(Some(stored))) => {
                let key = CacheKey::for_lookup(&ism_address, &message);
                let lookup = OffchainLookup::from(stored);
                let refreshed = SerializedOffchainLookup::from(lookup.clone());
                (
                    CcipReadIsmMetadataBuilder {
                        ism_address,
                        message,
                        stage: Stage::WritingCache(lookup),
                    },
                    Resolving::Perform(Action::WriteCache(key, refreshed)),
                )
            },
            (Stage::ReadingCache, Event::CacheRead(None)) => {
                let bytes = copy_bytes(&message);
                (
                    CcipReadIsmMetadataBuilder {
                        ism_address,
                        message,
                        stage: Stage::CallingModule,
                    },
                    Resolving::Perform(Action::CallModule(bytes)),
                )
            },
            (Stage::ReadingCache, Event::CacheFailed) => (
                CcipReadIsmMetadataBuilder { ism_address, message, stage: Stage::Done },
                Resolving::Failed(BuildError::Cache),
            ),
            (Stage::CallingModule, Event::ModuleReturned) => (
                CcipReadIsmMetadataBuilder { ism_address, message, stage: Stage::Done },
                Resolving::Resolved(None),
            ),
            (Stage::CallingModule, Event::ModuleUnreachable) => (
                CcipReadIsmMetadataBuilder { ism_address, message, stage: Stage::Done },
                Resolving::Failed(BuildError::ModuleCall),
            ),
            (Stage::CallingModule, Event::ModuleReverted(text)) => {
                let read = decode_revert(text.as_str());
                CcipReadIsmMetadataBuilder {
                    ism_address,
                    message,
                    stage: Stage::CallingModule,
                }.revert_read(read)
            },
            (Stage::WritingCache(lookup), Event::CacheWritten) => (
                CcipReadIsmMetadataBuilder { ism_address, message, stage: Stage::Done },
                Resolving::Resolved(Some(lookup)),
            ),
            (Stage::WritingCache(_), Event::CacheFailed) => (
                CcipReadIsmMetadataBuilder { ism_address, message, stage: Stage::Done },
                Resolving::Failed(BuildError::Cache),
            ),
            _ => (
                CcipReadIsmMetadataBuilder { ism_address, message, stage: Stage::Done },
                Resolving::Failed(BuildError::UnexpectedEvent),
            ),
        }
    }

    /// Asks for the URL at `index` of `lookup`, or ends the run without a
    /// proof where the descriptor has no URL there.
    pub fn request_next(self, lookup: OffchainLookup, index: usize) -> (r: (Self, Action))
        ensures
            (r.0@, r.1@) == next_request(self@, lookup@, index as int),
    {
        let CcipReadIsmMetadataBuilder { ism_address, message, stage: _ } = self;
        match request_for(&lookup, index) {
            Some(request) => (
                CcipReadIsmMetadataBuilder {
                    ism_address,
                    message,
                    stage: Stage::Requesting(lookup, index),
                },
                Action::Send(request),
            ),
            None => (
                CcipReadIsmMetadataBuilder { ism_address, message, stage: Stage::Done },
                Action::Finish(None),
            ),
        }
    }

    /// Takes one step of the run: told what happened, says what is to be
    /// done next.
    pub fn build(self, event: Event) -> (r: (Self, Action))
        ensures
            (r.0@, r.1@) == step(self@, event@),
    {
        let ghost before = self@;
        let CcipReadIsmMetadataBuilder { ism_address, message, stage } = self;
        match stage {
            Stage::Requesting(lookup, index) => {
                let over = CcipReadIsmMetadataBuilder { ism_address, message, stage: Stage::Done };
                let found = match event {
                    Event::EndpointAnswered(data) => proof_from_data(data.as_str()),
                    Event::EndpointFailed => None,
                    Event::RequestInvalid => {
                        return (over, Action::Abort(BuildError::Request));
                    },
                    _ => {
                        return (over, Action::Abort(BuildError::UnexpectedEvent));
                    },
                };
                match found {
                    Some(bytes) => (over, Action::Finish(Some(bytes))),
                    None => {
                        if index < lookup.urls.len() {
                            let r = over.request_next(lookup, index + 1);
                            assert(r.0@ == next_request(before, lookup@, index + 1).0);
                            r
                        } else {
                            (over, Action::Finish(None))
                        }
                    },
                }
            },
            Stage::Done => (
                CcipReadIsmMetadataBuilder { ism_address, message, stage: Stage::Done },
                Action::Abort(BuildError::UnexpectedEvent),
            ),
            searching => {
                let run = CcipReadIsmMetadataBuilder { ism_address, message, stage: searching };
                let (next, resolving) = run.call_get_offchain_verify_info(event);
                match resolving {
                    Resolving::Perform(action) => (next, action),
                    Resolving::Resolved(None) => (next, Action::Finish(None)),
                    Resolving::Resolved(Some(lookup)) => {
                        let r = next.request_next(lookup, 0);
                        assert(r.0@ == next_request(before, lookup@, 0).0);
                        r
                    },
                    Resolving::Failed(e) => (next, Action::Abort(e)),
                }
            },
        }
    }
}

} // verus!
