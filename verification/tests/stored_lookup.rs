use ccip_read::lookup::{copy_bytes, copy_strings, CacheKey, OffchainLookup, SerializedOffchainLookup};

fn descriptor() -> OffchainLookup {
    OffchainLookup {
        sender: [
            1, 2, 3, 4, 5, 6, 7, 8, 9, 10, 11, 12, 13, 14, 15, 16, 17, 18, 19, 20,
        ],
        urls: vec!["https://z/{data}".to_string(), "https://a/{sender}".to_string(), "".to_string()],
        call_data: vec![0, 255, 0, 1],
        callback_selector: [0xa, 0xb, 0xc, 0xd],
        extra_data: vec![42],
    }
}

#[test]
fn stored_form_keeps_every_part() {
    let lookup = descriptor();
    let stored = SerializedOffchainLookup::from(lookup.clone());
    assert_eq!(stored.sender, lookup.sender);
    assert_eq!(stored.urls, lookup.urls);
    assert_eq!(stored.call_data, lookup.call_data);
    assert_eq!(stored.callback_function, lookup.callback_selector);
    assert_eq!(stored.extra_data, lookup.extra_data);
}

#[test]
fn stored_and_read_again_is_the_same_descriptor() {
    let lookup = descriptor();
    let back = OffchainLookup::from(SerializedOffchainLookup::from(lookup.clone()));
    assert_eq!(back, lookup);
    assert_eq!(back.urls[0], "https://z/{data}");
    assert_eq!(back.urls[1], "https://a/{sender}");
    assert_eq!(back.urls[2], "");
}

#[test]
fn clone_copies_every_part() {
    let lookup = descriptor();
    assert_eq!(lookup.clone(), lookup);
    let stored = SerializedOffchainLookup::from(lookup);
    assert_eq!(stored.clone(), stored);
}

#[test]
fn copies_are_equal_to_what_was_copied() {
    assert_eq!(copy_bytes(&vec![1, 2, 3]), vec![1, 2, 3]);
    assert_eq!(copy_bytes(&vec![]), Vec::<u8>::new());
    let s = vec!["a".to_string(), "".to_string(), "\u{e9}".to_string()];
    assert_eq!(copy_strings(&s), s);
}

#[test]
fn cache_key_is_made_of_module_name_and_message() {
    let key = CacheKey::for_lookup(&[9; 32], &vec![1, 2, 3]);
    assert_eq!(key.contract_address, [9; 32]);
    assert_eq!(key.fn_name, "get_offchain_verify_info");
    assert_eq!(key.params, vec![1, 2, 3]);
}

#[test]
fn cache_key_is_the_same_for_the_same_inputs() {
    let a = CacheKey::for_lookup(&[9; 32], &vec![1, 2, 3]);
    let b = CacheKey::for_lookup(&[9; 32], &vec![1, 2, 3]);
    assert_eq!(a, b);
    assert_ne!(a, CacheKey::for_lookup(&[8; 32], &vec![1, 2, 3]));
    assert_ne!(a, CacheKey::for_lookup(&[9; 32], &vec![1, 2]));
}
