//! The one place where a revert payload is read as contract data: the call
//! into the ABI decoder, and the name under which the rest of the crate
//! speaks of what it returns.

use vstd::prelude::*;
use ethers::abi::{AbiDecode, AbiError};
use ethers::types::{Address, Bytes};
use crate::lookup::{LookupView, OffchainLookup};

verus! {

/// The error of the ABI decoder; nothing of it is read here.
#[verifier::external_type_specification]
#[verifier::external_body]
pub struct ExAbiError(AbiError);

/// The descriptor that `data` holds when it is read as the ABI encoding of
/// the tuple `(address, string[], bytes, bytes4, bytes)`, or `None` where the
/// decoder rejects it. The decoder alone says which bytes are accepted and
/// what they hold; no rule of this crate depends on how it decides.
pub uninterp spec fn abi_lookup(data: Seq<u8>) -> Option<LookupView>;

/// Calls `AbiDecode::decode` of ethers for the tuple
/// `(Address, Vec<String>, Bytes, [u8; 4], Bytes)` and moves the five parts
/// into a descriptor, in that order. The contract claims only that the
/// outcome is a function of the bytes: the same bytes are accepted or
/// rejected alike every time, and hold the same descriptor. The decoder reads
/// offsets and lengths below 2^32 from the data and adds to them in `usize`
/// before it compares with the length of the data; with 64 bits no such sum
/// overflows and the decoder returns on every input, with fewer it may not,
/// so the call is made on 64-bit targets only.
#[verifier::external_body]
pub(crate) fn decode_lookup_tuple(data: &[u8]) -> (r: Result<OffchainLookup, AbiError>)
    requires
        usize::BITS == 64,
    ensures
        match r {
            Ok(lookup) => abi_lookup(data@) == Some(lookup@),
            Err(_) => abi_lookup(data@) is None,
        },
{
    let (sender, urls, call_data, callback_selector, extra_data) =
        <(Address, Vec<String>, Bytes, [u8; 4], Bytes)>::decode(data)?;
    Ok(OffchainLookup {
        sender: sender.0,
        urls,
        call_data: call_data.to_vec(),
        callback_selector,
        extra_data: extra_data.to_vec(),
    })
}

} // verus!
