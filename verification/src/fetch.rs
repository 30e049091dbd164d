//! What is sent to an endpoint, and what its answer is worth.

use vstd::prelude::*;
use crate::hex::{decoded_prefixed, decode_prefixed, encoded_prefixed, prefixed_chars};
use crate::lookup::{LookupView, OffchainLookup};
use crate::text::{contains_token, from_chars, has_token, replace_all, replace_token, to_chars};

verus! {

/// How a request reaches its endpoint.
#[derive(Clone, Copy, Debug, PartialEq, Eq, Structural)]
pub enum Method {
    /// The URL carries everything.
    Get,
    /// Sender and data travel in a JSON body.
    Post,
}

/// The two fields of the JSON body of a `Post` request.
#[derive(Debug, PartialEq, Eq)]
pub struct RequestBody {
    pub sender: String,
    pub data: String,
}

/// One request to one endpoint.
#[derive(Debug, PartialEq, Eq)]
pub struct Request {
    pub method: Method,
    pub url: String,
    /// Present on a `Post` request, absent on a `Get` request.
    pub body: Option<RequestBody>,
}

/// The mathematical content of a request; the body as sender and data.
pub ghost struct RequestView {
    pub method: Method,
    pub url: Seq<char>,
    pub body: Option<(Seq<char>, Seq<char>)>,
}

impl View for Request {
    type V = RequestView;

    open spec fn view(&self) -> RequestView {
        RequestView {
            method: self.method,
            url: self.url@,
            body: match self.body {
                Some(b) => Some((b.sender@, b.data@)),
                None => None,
            },
        }
    }
}

/// The place in a template where the sender goes.
pub open spec fn sender_token() -> Seq<char> {
    "{sender}"@
}

/// The place in a template where the call data go.
pub open spec fn data_token() -> Seq<char> {
    "{data}"@
}

/// A template with the sender put in every place held for it, and then the
/// data in every place held for them.
pub open spec fn rendered_url(template: Seq<char>, sender: Seq<char>, data: Seq<char>) -> Seq<
    char,
> {
    replace_token(replace_token(template, sender_token(), sender), data_token(), data)
}

/// The request that a template asks for. A template with a place for the
/// data is fetched with `Get`; one without gets sender and data in the body
/// of a `Post`. Sender and data are written in full: `0x` and two digits for
/// every byte.
pub open spec fn planned_request(template: Seq<char>, sender: Seq<u8>, call_data: Seq<u8>)
    -> RequestView {
    let sender_hex = encoded_prefixed(sender);
    let data_hex = encoded_prefixed(call_data);
    if contains_token(template, data_token()) {
        RequestView {
            method: Method::Get,
            url: rendered_url(template, sender_hex, data_hex),
            body: None,
        }
    } else {
        RequestView {
            method: Method::Post,
            url: rendered_url(template, sender_hex, data_hex),
            body: Some((sender_hex, data_hex)),
        }
    }
}

/// The request for the URL at `index` of a descriptor.
pub open spec fn request_at(lookup: LookupView, index: int) -> RequestView {
    planned_request(lookup.urls[index], lookup.sender, lookup.call_data)
}

/// Puts sender and data into a template.
pub fn render_url(template: &str, sender: &str, data: &str) -> (url: String)
    ensures
        url@ == rendered_url(template@, sender@, data@),
{
    let template_chars = to_chars(template);
    let sender_chars = to_chars(sender);
    let data_chars = to_chars(data);
    let sender_place = to_chars("{sender}");
    let data_place = to_chars("{data}");
    let with_sender = replace_all(
        template_chars.as_slice(),
        sender_place.as_slice(),
        sender_chars.as_slice(),
    );
    let with_data = replace_all(
        with_sender.as_slice(),
        data_place.as_slice(),
        data_chars.as_slice(),
    );
    from_chars(with_data.as_slice())
}

/// Builds the request that `template` asks for, for the given sender and
/// call data.
pub fn plan_request(template: &str, sender: &[u8], call_data: &[u8]) -> (request: Request)
    ensures
        request@ == planned_request(template@, sender@, call_data@),
        request.method == Method::Get <==> contains_token(template@, data_token()),
        request.method == Method::Post <==> request@.body == Some(
            (encoded_prefixed(sender@), encoded_prefixed(call_data@)),
        ),
        request.method == Method::Get <==> request@.body is None,
{
    let sender_hex = from_chars(prefixed_chars(sender).as_slice());
    let data_hex = from_chars(prefixed_chars(call_data).as_slice());
    let url = render_url(template, sender_hex.as_str(), data_hex.as_str());
    let template_chars = to_chars(template);
    let data_place = to_chars("{data}");
    if has_token(template_chars.as_slice(), data_place.as_slice()) {
        Request { method: Method::Get, url, body: None }
    } else {
        Request {
            method: Method::Post,
            url,
            body: Some(RequestBody { sender: sender_hex, data: data_hex }),
        }
    }
}

/// The request for the URL at `index` of `lookup`; `None` where the
/// descriptor has no URL there.
pub fn request_for(lookup: &OffchainLookup, index: usize) -> (r: Option<Request>)
    ensures
        match r {
            Some(request) => index < lookup@.urls.len() && request@ == request_at(
                lookup@,
                index as int,
            ),
            None => index >= lookup@.urls.len(),
        },
{
    if index < lookup.urls.len() {
        Some(
            plan_request(
                lookup.urls[index].as_str(),
                lookup.sender.as_slice(),
                lookup.call_data.as_slice(),
            ),
        )
    } else {
        None
    }
}

/// The proof that the `data` field of an endpoint's answer spells: the bytes
/// behind `0x`, or `None` where the field is not `0x` followed by the
/// hexadecimal form of a byte string.
pub open spec fn proof_of(data: Seq<char>) -> Option<Seq<u8>> {
    decoded_prefixed(data)
}

/// Reads the `data` field of an endpoint's answer.
pub fn proof_from_data(data: &str) -> (r: Option<Vec<u8>>)
    ensures
        match r {
            Some(bytes) => proof_of(data@) == Some(bytes@),
            None => proof_of(data@) is None,
        },
{
    decode_prefixed(data)
}

} // verus!
