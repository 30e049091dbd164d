use ccip_read::builder::{
    Action, BuildError, CcipReadIsmMetadataBuilder, Event, Resolving, Stage,
};
use ccip_read::fetch::{Method, Request, RequestBody};
use ccip_read::hex::encode;
use ccip_read::lookup::{CacheKey, OffchainLookup, SerializedOffchainLookup};
use ccip_read::revert::DecodeError;
use ethers::abi::Token;
use ethers::types::H160;

const MODULE: [u8; 32] = [7; 32];

fn message() -> Vec<u8> {
    vec![3, 0, 0, 0, 1, 0xaa, 0xbb]
}

fn key() -> CacheKey {
    CacheKey {
        contract_address: MODULE,
        fn_name: "get_offchain_verify_info".to_string(),
        params: message(),
    }
}

fn lookup_of(urls: &[&str]) -> OffchainLookup {
    OffchainLookup {
        sender: [0x11; 20],
        urls: urls.iter().map(|u| u.to_string()).collect(),
        call_data: vec![0xca, 0xfe],
        callback_selector: [0xde, 0xad, 0xbe, 0xef],
        extra_data: vec![1, 2, 3],
    }
}

fn revert_text(lookup: &OffchainLookup) -> String {
    let bytes = ethers::abi::encode(&[
        Token::Address(H160(lookup.sender)),
        Token::Array(lookup.urls.iter().map(|u| Token::String(u.clone())).collect()),
        Token::Bytes(lookup.call_data.clone()),
        Token::FixedBytes(lookup.callback_selector.to_vec()),
        Token::Bytes(lookup.extra_data.clone()),
    ]);
    format!("execution reverted: 0x{}", encode(&bytes))
}

fn run(mut builder: CcipReadIsmMetadataBuilder, events: Vec<Event>) -> Vec<Action> {
    let mut actions = Vec::new();
    for event in events {
        let (next, action) = builder.build(event);
        builder = next;
        actions.push(action);
    }
    actions
}

fn fresh() -> CcipReadIsmMetadataBuilder {
    CcipReadIsmMetadataBuilder::new(MODULE, message())
}

fn sender_hex() -> String {
    format!("0x{}", "11".repeat(20))
}

fn get(url: String) -> Action {
    Action::Send(Request { method: Method::Get, url, body: None })
}

fn post(url: String) -> Action {
    Action::Send(Request {
        method: Method::Post,
        url,
        body: Some(RequestBody { sender: sender_hex(), data: "0xcafe".to_string() }),
    })
}

#[test]
fn new_builder_is_idle() {
    let b = fresh();
    assert_eq!(b.ism_address, MODULE);
    assert_eq!(b.message, message());
    assert_eq!(b.stage, Stage::Idle);
}

#[test]
fn module_that_returns_needs_no_proof() {
    let actions = run(
        fresh(),
        vec![
            Event::Start,
            Event::CacheRead(None),
            Event::ModuleReturned,
            Event::EndpointFailed,
            Event::EndpointAnswered("0x1234".to_string()),
        ],
    );
    assert_eq!(
        actions,
        vec![
            Action::ReadCache(key()),
            Action::CallModule(message()),
            Action::Finish(None),
            Action::Abort(BuildError::UnexpectedEvent),
            Action::Abort(BuildError::UnexpectedEvent),
        ]
    );
}

#[test]
fn revert_without_payload_needs_no_proof() {
    let actions = run(
        fresh(),
        vec![
            Event::Start,
            Event::CacheRead(None),
            Event::ModuleReverted("execution reverted: not today".to_string()),
        ],
    );
    assert_eq!(actions[2], Action::Finish(None));
}

#[test]
fn first_endpoint_fails_second_answers() {
    let lookup = lookup_of(&["https://a/{sender}/{data}", "https://b/{sender}", "https://c/{data}"]);
    let actions = run(
        fresh(),
        vec![
            Event::Start,
            Event::CacheRead(None),
            Event::ModuleReverted(revert_text(&lookup)),
            Event::CacheWritten,
            Event::EndpointFailed,
            Event::EndpointAnswered("0x1234".to_string()),
            Event::EndpointAnswered("0x5678".to_string()),
        ],
    );
    assert_eq!(
        actions,
        vec![
            Action::ReadCache(key()),
            Action::CallModule(message()),
            Action::WriteCache(key(), SerializedOffchainLookup::from(lookup.clone())),
            get(format!("https://a/{}/0xcafe", sender_hex())),
            post(format!("https://b/{}", sender_hex())),
            Action::Finish(Some(vec![0x12, 0x34])),
            Action::Abort(BuildError::UnexpectedEvent),
        ]
    );
}

#[test]
fn answer_with_bad_hex_moves_on_to_the_next_url() {
    let lookup = lookup_of(&["https://a/{data}", "https://b/{data}"]);
    let actions = run(
        fresh(),
        vec![
            Event::Start,
            Event::CacheRead(None),
            Event::ModuleReverted(revert_text(&lookup)),
            Event::CacheWritten,
            Event::EndpointAnswered("0xzz".to_string()),
            Event::EndpointAnswered("0xabcd".to_string()),
        ],
    );
    assert_eq!(actions[3], get("https://a/0xcafe".to_string()));
    assert_eq!(actions[4], get("https://b/0xcafe".to_string()));
    assert_eq!(actions[5], Action::Finish(Some(vec![0xab, 0xcd])));
}

#[test]
fn answer_with_bad_hex_at_the_last_url_ends_without_proof() {
    let lookup = lookup_of(&["https://a/{data}"]);
    let actions = run(
        fresh(),
        vec![
            Event::Start,
            Event::CacheRead(None),
            Event::ModuleReverted(revert_text(&lookup)),
            Event::CacheWritten,
            Event::EndpointAnswered("0xzz".to_string()),
        ],
    );
    assert_eq!(actions[4], Action::Finish(None));
}

#[test]
fn all_endpoints_fail() {
    let lookup = lookup_of(&["https://a/{data}", "https://b/{data}"]);
    let actions = run(
        fresh(),
        vec![
            Event::Start,
            Event::CacheRead(Some(SerializedOffchainLookup::from(lookup))),
            Event::CacheWritten,
            Event::EndpointFailed,
            Event::EndpointAnswered("1234".to_string()),
        ],
    );
    assert_eq!(actions[2], get("https://a/0xcafe".to_string()));
    assert_eq!(actions[3], get("https://b/0xcafe".to_string()));
    assert_eq!(actions[4], Action::Finish(None));
}

#[test]
fn descriptor_without_urls_ends_without_request() {
    let lookup = lookup_of(&[]);
    let actions = run(
        fresh(),
        vec![
            Event::Start,
            Event::CacheRead(None),
            Event::ModuleReverted(revert_text(&lookup)),
            Event::CacheWritten,
        ],
    );
    assert_eq!(actions[2], Action::WriteCache(key(), SerializedOffchainLookup::from(lookup)));
    assert_eq!(actions[3], Action::Finish(None));
    assert!(actions.iter().all(|a| !matches!(a, Action::Send(_))));
}

#[test]
fn cache_hit_skips_the_module_and_is_written_back() {
    let lookup = lookup_of(&["https://a/{data}"]);
    let stored = SerializedOffchainLookup::from(lookup.clone());
    let actions = run(
        fresh(),
        vec![
            Event::Start,
            Event::CacheRead(Some(stored.clone())),
            Event::CacheWritten,
            Event::EndpointAnswered("0x00".to_string()),
        ],
    );
    assert_eq!(
        actions,
        vec![
            Action::ReadCache(key()),
            Action::WriteCache(key(), stored),
            get("https://a/0xcafe".to_string()),
            Action::Finish(Some(vec![0])),
        ]
    );
}

#[test]
fn what_one_run_writes_the_next_run_reads() {
    let lookup = lookup_of(&["https://a/{data}", "https://b/{sender}"]);
    let first = run(
        fresh(),
        vec![Event::Start, Event::CacheRead(None), Event::ModuleReverted(revert_text(&lookup))],
    );
    let (written_key, written) = match &first[2] {
        Action::WriteCache(k, v) => (k, v.clone()),
        other => panic!("expected a cache write, got {other:?}"),
    };
    let second = run(fresh(), vec![Event::Start, Event::CacheRead(Some(written)), Event::CacheWritten]);
    assert_eq!(second[0], Action::ReadCache(key()));
    assert_eq!(&key(), written_key);
    assert_eq!(second[1], Action::WriteCache(key(), SerializedOffchainLookup::from(lookup)));
    assert_eq!(second[2], get("https://a/0xcafe".to_string()));
}

#[test]
fn malformed_payload_aborts() {
    let actions = run(
        fresh(),
        vec![
            Event::Start,
            Event::CacheRead(None),
            Event::ModuleReverted("reverted 0xdeadbeef".to_string()),
            Event::CacheWritten,
        ],
    );
    assert_eq!(actions[2], Action::Abort(BuildError::Decode(DecodeError::Malformed)));
    assert_eq!(actions[3], Action::Abort(BuildError::UnexpectedEvent));
}

#[test]
fn odd_payload_aborts() {
    let actions = run(
        fresh(),
        vec![Event::Start, Event::CacheRead(None), Event::ModuleReverted("0xabc".to_string())],
    );
    assert_eq!(actions[2], Action::Abort(BuildError::Decode(DecodeError::OddLength)));
}

#[test]
fn unreachable_module_aborts() {
    let actions =
        run(fresh(), vec![Event::Start, Event::CacheRead(None), Event::ModuleUnreachable]);
    assert_eq!(actions[2], Action::Abort(BuildError::ModuleCall));
}

#[test]
fn failing_cache_aborts() {
    let actions = run(fresh(), vec![Event::Start, Event::CacheFailed]);
    assert_eq!(actions[1], Action::Abort(BuildError::Cache));
    let lookup = lookup_of(&["https://a/{data}"]);
    let actions = run(
        fresh(),
        vec![
            Event::Start,
            Event::CacheRead(Some(SerializedOffchainLookup::from(lookup))),
            Event::CacheFailed,
        ],
    );
    assert_eq!(actions[2], Action::Abort(BuildError::Cache));
}

#[test]
fn request_that_cannot_be_built_aborts() {
    let lookup = lookup_of(&["not a url {data}", "https://b/{data}"]);
    let actions = run(
        fresh(),
        vec![
            Event::Start,
            Event::CacheRead(Some(SerializedOffchainLookup::from(lookup))),
            Event::CacheWritten,
            Event::RequestInvalid,
            Event::EndpointFailed,
        ],
    );
    assert_eq!(actions[3], Action::Abort(BuildError::Request));
    assert_eq!(actions[4], Action::Abort(BuildError::UnexpectedEvent));
}

#[test]
fn event_out_of_turn_aborts() {
    assert_eq!(run(fresh(), vec![Event::CacheWritten]), vec![Action::Abort(BuildError::UnexpectedEvent)]);
    assert_eq!(
        run(fresh(), vec![Event::Start, Event::Start])[1],
        Action::Abort(BuildError::UnexpectedEvent)
    );
    assert_eq!(
        run(fresh(), vec![Event::Start, Event::EndpointAnswered("0x12".to_string())])[1],
        Action::Abort(BuildError::UnexpectedEvent)
    );
    assert_eq!(
        run(fresh(), vec![Event::Start, Event::CacheRead(None), Event::CacheRead(None)])[2],
        Action::Abort(BuildError::UnexpectedEvent)
    );
}

#[test]
fn search_hands_out_the_descriptor_after_the_write() {
    let lookup = lookup_of(&["https://a/{data}"]);
    let b = fresh();
    let (b, r) = b.call_get_offchain_verify_info(Event::Start);
    assert_eq!(r, Resolving::Perform(Action::ReadCache(key())));
    assert_eq!(b.stage, Stage::ReadingCache);
    let (b, r) = b.call_get_offchain_verify_info(Event::CacheRead(None));
    assert_eq!(r, Resolving::Perform(Action::CallModule(message())));
    assert_eq!(b.stage, Stage::CallingModule);
    let (b, r) = b.call_get_offchain_verify_info(Event::ModuleReverted(revert_text(&lookup)));
    assert_eq!(
        r,
        Resolving::Perform(Action::WriteCache(key(), SerializedOffchainLookup::from(lookup.clone())))
    );
    assert_eq!(b.stage, Stage::WritingCache(lookup.clone()));
    let (b, r) = b.call_get_offchain_verify_info(Event::CacheWritten);
    assert_eq!(r, Resolving::Resolved(Some(lookup)));
    assert_eq!(b.stage, Stage::Done);
}

#[test]
fn search_ends_with_none_where_the_module_returns() {
    let b = CcipReadIsmMetadataBuilder { ism_address: MODULE, message: message(), stage: Stage::CallingModule };
    let (b, r) = b.call_get_offchain_verify_info(Event::ModuleReturned);
    assert_eq!(r, Resolving::Resolved(None));
    assert_eq!(b.stage, Stage::Done);
}

#[test]
fn search_does_not_take_endpoint_events() {
    let lookup = lookup_of(&["https://a/{data}"]);
    let b = CcipReadIsmMetadataBuilder {
        ism_address: MODULE,
        message: message(),
        stage: Stage::Requesting(lookup, 0),
    };
    let (b, r) = b.call_get_offchain_verify_info(Event::EndpointFailed);
    assert_eq!(r, Resolving::Failed(BuildError::UnexpectedEvent));
    assert_eq!(b.stage, Stage::Done);
}

#[test]
fn request_next_past_the_last_url_finishes() {
    let lookup = lookup_of(&["https://a/{data}"]);
    let (b, a) = fresh().request_next(lookup.clone(), 0);
    assert_eq!(a, get("https://a/0xcafe".to_string()));
    assert_eq!(b.stage, Stage::Requesting(lookup.clone(), 0));
    let (b, a) = fresh().request_next(lookup.clone(), 1);
    assert_eq!(a, Action::Finish(None));
    assert_eq!(b.stage, Stage::Done);
    let b = CcipReadIsmMetadataBuilder {
        ism_address: MODULE,
        message: message(),
        stage: Stage::Requesting(lookup, usize::MAX),
    };
    let (b, a) = b.build(Event::EndpointFailed);
    assert_eq!(a, Action::Finish(None));
    assert_eq!(b.stage, Stage::Done);
}

struct Surroundings {
    cached: Option<SerializedOffchainLookup>,
    module: Event,
    endpoints: Vec<Event>,
}

fn drive(world: Surroundings) -> (Result<Option<Vec<u8>>, BuildError>, Vec<String>) {
    let mut builder = fresh();
    let mut event = Event::Start;
    let mut asked = Vec::new();
    let mut module = Some(world.module);
    let mut endpoints = world.endpoints.into_iter();
    let mut cached = Some(world.cached);
    loop {
        let (next, action) = builder.build(event);
        builder = next;
        event = match action {
            Action::ReadCache(_) => Event::CacheRead(cached.take().unwrap()),
            Action::CallModule(_) => module.take().unwrap(),
            Action::WriteCache(_, _) => Event::CacheWritten,
            Action::Send(request) => {
                asked.push(request.url);
                endpoints.next().unwrap_or(Event::EndpointFailed)
            }
            Action::Finish(result) => return (Ok(result), asked),
            Action::Abort(e) => return (Err(e), asked),
        };
    }
}

#[test]
fn driven_run_returns_the_first_proof() {
    let lookup = lookup_of(&["https://a/{data}", "https://b/{data}", "https://c/{data}"]);
    let (result, asked) = drive(Surroundings {
        cached: None,
        module: Event::ModuleReverted(revert_text(&lookup)),
        endpoints: vec![
            Event::EndpointAnswered("nothing".to_string()),
            Event::EndpointAnswered("0x0102".to_string()),
            Event::EndpointAnswered("0x0304".to_string()),
        ],
    });
    assert_eq!(result, Ok(Some(vec![1, 2])));
    assert_eq!(asked, vec!["https://a/0xcafe", "https://b/0xcafe"]);
}

#[test]
fn driven_run_asks_every_url_once_when_all_fail() {
    let lookup = lookup_of(&["https://a/{data}", "https://b/{data}", "https://c/{data}"]);
    let (result, asked) = drive(Surroundings {
        cached: Some(SerializedOffchainLookup::from(lookup)),
        module: Event::ModuleReturned,
        endpoints: vec![],
    });
    assert_eq!(result, Ok(None));
    assert_eq!(asked, vec!["https://a/0xcafe", "https://b/0xcafe", "https://c/0xcafe"]);
}

#[test]
fn driven_run_asks_nothing_where_the_module_returns() {
    let (result, asked) = drive(Surroundings {
        cached: None,
        module: Event::ModuleReturned,
        endpoints: vec![Event::EndpointAnswered("0x01".to_string())],
    });
    assert_eq!(result, Ok(None));
    assert!(asked.is_empty());
}

#[test]
fn driven_run_fails_where_the_payload_is_malformed() {
    let (result, asked) = drive(Surroundings {
        cached: None,
        module: Event::ModuleReverted("reverted with 0x00".to_string()),
        endpoints: vec![],
    });
    assert_eq!(result, Err(BuildError::Decode(DecodeError::Malformed)));
    assert!(asked.is_empty());
}

#[test]
fn revert_read_goes_on_with_what_was_read() {
    let lookup = lookup_of(&["https://a/{data}"]);
    let calling = || CcipReadIsmMetadataBuilder {
        ism_address: MODULE,
        message: message(),
        stage: Stage::CallingModule,
    };
    let (b, r) = calling().revert_read(Ok(Some(lookup.clone())));
    assert_eq!(
        r,
        Resolving::Perform(Action::WriteCache(key(), SerializedOffchainLookup::from(lookup.clone())))
    );
    assert_eq!(b.stage, Stage::WritingCache(lookup));
    let (b, r) = calling().revert_read(Ok(None));
    assert_eq!(r, Resolving::Resolved(None));
    assert_eq!(b.stage, Stage::Done);
    let (b, r) = calling().revert_read(Err(DecodeError::OddLength));
    assert_eq!(r, Resolving::Failed(BuildError::Decode(DecodeError::OddLength)));
    assert_eq!(b.stage, Stage::Done);
}
