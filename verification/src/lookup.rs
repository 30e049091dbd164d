//! The lookup descriptor that a security module reverts with, the form in
//! which it is stored, and the key it is stored under.

use vstd::prelude::*;
use vstd::std_specs::convert::FromSpecImpl;

verus! {

/// Where and how the missing proof can be fetched.
#[derive(Debug, PartialEq, Eq)]
pub struct OffchainLookup {
    /// Address of the contract on whose behalf the lookup is made.
    pub sender: [u8; 20],
    /// URL templates, in the order in which they are to be tried.
    pub urls: Vec<String>,
    /// Bytes handed to the endpoint.
    pub call_data: Vec<u8>,
    /// Selector of the function that takes the answer on chain.
    pub callback_selector: [u8; 4],
    /// Bytes handed back to the callback unchanged.
    pub extra_data: Vec<u8>,
}

/// The mathematical content of a lookup descriptor.
pub ghost struct LookupView {
    pub sender: Seq<u8>,
    pub urls: Seq<Seq<char>>,
    pub call_data: Seq<u8>,
    pub callback_selector: Seq<u8>,
    pub extra_data: Seq<u8>,
}

/// The texts of a sequence of strings, in order.
pub open spec fn texts(v: Seq<String>) -> Seq<Seq<char>> {
    Seq::new(v.len(), |i: int| v[i]@)
}

impl View for OffchainLookup {
    type V = LookupView;

    open spec fn view(&self) -> LookupView {
        LookupView {
            sender: self.sender@,
            urls: texts(self.urls@),
            call_data: self.call_data@,
            callback_selector: self.callback_selector@,
            extra_data: self.extra_data@,
        }
    }
}

/// A copy of a list of strings.
pub fn copy_strings(v: &Vec<String>) -> (r: Vec<String>)
    ensures
        texts(r@) == texts(v@),
{
    let mut out: Vec<String> = Vec::new();
    let mut i: usize = 0;
    while i < v.len()
        invariant
            i <= v.len(),
            out@.len() == i,
            forall|j: int| 0 <= j < i ==> out@[j]@ == v@[j]@,
        decreases v.len() - i,
    {
        out.push(v[i].clone());
        i += 1;
    }
    assert(texts(out@) =~= texts(v@));
    out
}

/// A copy of a byte string.
pub fn copy_bytes(v: &Vec<u8>) -> (r: Vec<u8>)
    ensures
        r@ == v@,
{
    let mut out: Vec<u8> = Vec::new();
    let mut i: usize = 0;
    while i < v.len()
        invariant
            i <= v.len(),
            out@ == v@.take(i as int),
        decreases v.len() - i,
    {
        out.push(v[i]);
        i += 1;
    }
    out
}

impl Clone for OffchainLookup {
    fn clone(&self) -> (r: Self)
        ensures
            r@ == self@,
    {
        OffchainLookup {
            sender: self.sender,
            urls: copy_strings(&self.urls),
            call_data: copy_bytes(&self.call_data),
            callback_selector: self.callback_selector,
            extra_data: copy_bytes(&self.extra_data),
        }
    }
}

/// A lookup descriptor in the form in which it is stored: the same five
/// parts, each kept as it is.
#[derive(Debug, PartialEq, Eq)]
pub struct SerializedOffchainLookup {
    pub sender: [u8; 20],
    pub urls: Vec<String>,
    pub call_data: Vec<u8>,
    pub callback_function: [u8; 4],
    pub extra_data: Vec<u8>,
}

impl View for SerializedOffchainLookup {
    type V = LookupView;

    open spec fn view(&self) -> LookupView {
        LookupView {
            sender: self.sender@,
            urls: texts(self.urls@),
            call_data: self.call_data@,
            callback_selector: self.callback_function@,
            extra_data: self.extra_data@,
        }
    }
}

impl Clone for SerializedOffchainLookup {
    fn clone(&self) -> (r: Self)
        ensures
            r@ == self@,
    {
        SerializedOffchainLookup {
            sender: self.sender,
            urls: copy_strings(&self.urls),
            call_data: copy_bytes(&self.call_data),
            callback_function: self.callback_function,
            extra_data: copy_bytes(&self.extra_data),
        }
    }
}

/// The form in which `lookup` is stored.
pub open spec fn stored_form(lookup: OffchainLookup) -> SerializedOffchainLookup {
    SerializedOffchainLookup {
        sender: lookup.sender,
        urls: lookup.urls,
        call_data: lookup.call_data,
        callback_function: lookup.callback_selector,
        extra_data: lookup.extra_data,
    }
}

/// The descriptor that the stored form `stored` stands for.
pub open spec fn restored(stored: SerializedOffchainLookup) -> OffchainLookup {
    OffchainLookup {
        sender: stored.sender,
        urls: stored.urls,
        call_data: stored.call_data,
        callback_selector: stored.callback_function,
        extra_data: stored.extra_data,
    }
}

impl From<OffchainLookup> for SerializedOffchainLookup {
    fn from(value: OffchainLookup) -> (r: Self) {
        SerializedOffchainLookup {
            sender: value.sender,
            urls: value.urls,
            call_data: value.call_data,
            callback_function: value.callback_selector,
            extra_data: value.extra_data,
        }
    }
}

impl FromSpecImpl<OffchainLookup> for SerializedOffchainLookup {
    open spec fn obeys_from_spec() -> bool {
        true
    }

    open spec fn from_spec(value: OffchainLookup) -> Self {
        stored_form(value)
    }
}

impl From<SerializedOffchainLookup> for OffchainLookup {
    fn from(value: SerializedOffchainLookup) -> (r: Self) {
        OffchainLookup {
            sender: value.sender,
            urls: value.urls,
            call_data: value.call_data,
            callback_selector: value.callback_function,
            extra_data: value.extra_data,
        }
    }
}

impl FromSpecImpl<SerializedOffchainLookup> for OffchainLookup {
    open spec fn obeys_from_spec() -> bool {
        true
    }

    open spec fn from_spec(value: SerializedOffchainLookup) -> Self {
        restored(value)
    }
}

/// The name under which the lookup call of a module is stored.
pub open spec fn lookup_function() -> Seq<char> {
    "get_offchain_verify_info"@
}

/// What a stored descriptor is found under: the module's address, the name
/// of the call, and the bytes of the message as they go over the wire.
#[derive(Debug, PartialEq, Eq)]
pub struct CacheKey {
    pub contract_address: [u8; 32],
    pub fn_name: String,
    pub params: Vec<u8>,
}

/// The mathematical content of a cache key.
pub ghost struct CacheKeyView {
    pub contract_address: Seq<u8>,
    pub fn_name: Seq<char>,
    pub params: Seq<u8>,
}

impl View for CacheKey {
    type V = CacheKeyView;

    open spec fn view(&self) -> CacheKeyView {
        CacheKeyView {
            contract_address: self.contract_address@,
            fn_name: self.fn_name@,
            params: self.params@,
        }
    }
}

/// The key for the lookup call of `module` on `message`.
pub open spec fn lookup_key(module: Seq<u8>, message: Seq<u8>) -> CacheKeyView {
    CacheKeyView { contract_address: module, fn_name: lookup_function(), params: message }
}

impl CacheKey {
    /// The key under which the descriptor for `message` at the module with
    /// address `module` is stored: the same for the same two, and made of the
    /// message's bytes themselves.
    pub fn for_lookup(module: &[u8; 32], message: &Vec<u8>) -> (key: CacheKey)
        ensures
            key@ == lookup_key(module@, message@),
    {
        CacheKey {
            contract_address: *module,
            fn_name: "get_offchain_verify_info".to_owned(),
            params: copy_bytes(message),
        }
    }
}

/// A descriptor that is stored and read again is the descriptor that was
/// stored: all five parts, the URLs in their order.
pub proof fn lemma_stored_roundtrip(lookup: OffchainLookup)
    ensures
        restored(stored_form(lookup)) == lookup,
        stored_form(lookup)@ == lookup@,
        restored(stored_form(lookup))@.urls == lookup@.urls,
{
}

/// A cache that holds what was last put under a key gives back, for the key
/// of the same module and message, a descriptor equal to the one put.
pub proof fn lemma_cache_roundtrip(
    cache: Map<CacheKeyView, SerializedOffchainLookup>,
    module: Seq<u8>,
    message: Seq<u8>,
    lookup: OffchainLookup,
)
    ensures
        ({
            let key = lookup_key(module, message);
            let after = cache.insert(key, stored_form(lookup));
            &&& after.dom().contains(lookup_key(module, message))
            &&& restored(after[lookup_key(module, message)]) == lookup
        }),
{
}

} // verus!
