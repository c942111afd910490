use mint_watch::erc::{classify, isContract, is_mint_function, is_mint_response, is_mint_signature, mint_lookup_url, selector, Address, EthFunc, MintClass, Root, Transaction};
use mint_watch::ipfs::{is_ipfs, is_normalizable, to_ipfs};
use mint_watch::media::{media_kind, post_text, MediaKind};
use mint_watch::metadata::{info_from_fields, info_from_json, Erc721Info};
use mint_watch::pipeline::is_new_block;
use mint_watch::registry::ContractManager;
use mint_watch::resolve::{finish_resolve, resolve_contract, ResolveError};

fn addr(b: u8) -> Address {
    Address { bytes: [b; 20] }
}

fn tx(to: Option<Address>, input: Vec<u8>) -> Transaction {
    Transaction { from: addr(0), to, input }
}

fn func(text: &str) -> EthFunc {
    EthFunc {
        id: 1,
        created_at: String::new(),
        text_signature: text.to_string(),
        hex_signature: String::new(),
        bytes_signature: String::new(),
    }
}

fn root(count: i64, texts: &[&str]) -> Root {
    Root {
        count,
        next: serde_json::Value::Null,
        previous: serde_json::Value::Null,
        results: texts.iter().map(|t| func(t)).collect(),
    }
}

#[test]
fn normalize_rewrites_content_address() {
    assert_eq!(to_ipfs("ipfs://abc123/meta.json"), "https://ipfs.io/abc123/meta.json");
    assert!(to_ipfs("ipfs://abc123/meta.json").ends_with("abc123/meta.json"));
    assert_eq!(to_ipfs("ipfs://xyz"), "https://ipfs.io/xyz");
}

#[test]
fn normalize_passes_other_uris_through() {
    assert_eq!(to_ipfs("https://example.com/a.json"), "https://example.com/a.json");
    assert_eq!(to_ipfs("ipfs:/xyz"), "ipfs:/xyz");
    assert_eq!(to_ipfs("ipfs://"), "https://ipfs.io/");
}

#[test]
fn short_uris_are_not_normalizable() {
    assert!(is_normalizable("ipfs://"));
    assert!(is_normalizable("abcdefg"));
    assert!(!is_normalizable("abcdef"));
    assert!(!is_normalizable("xyz"));
    assert!(!is_normalizable(""));
    assert!(is_normalizable("ééééééé"));
    assert!(!is_normalizable("éééééé"));
}

#[test]
fn normalize_twice_is_normalize_once() {
    for u in ["https://example.com/a", "ipfs://abc", "plain-uri", "IPFS://abc"] {
        assert_eq!(to_ipfs(&to_ipfs(u)), to_ipfs(u));
    }
}

#[test]
fn content_address_prefix_is_recognized() {
    assert!(is_ipfs("ipfs://abc"));
    assert!(is_ipfs("ipfs://"));
    assert!(!is_ipfs("https://ipfs.io/abc"));
    assert!(!is_ipfs("ipfs"));
}

#[test]
fn creation_and_short_calls_are_no_candidates() {
    assert!(!isContract(&tx(None, vec![1, 2, 3, 4, 5])));
    assert!(!isContract(&tx(Some(addr(1)), vec![1, 2, 3])));
    assert!(!isContract(&tx(Some(addr(1)), vec![])));
    assert!(isContract(&tx(Some(addr(1)), vec![1, 2, 3, 4])));
    assert!(mint_lookup_url(&tx(None, vec![1, 2, 3, 4])).is_none());
    assert!(mint_lookup_url(&tx(Some(addr(1)), vec![1, 2])).is_none());
    let mint = root(1, &["mint(address,uint256)"]);
    assert!(!is_mint_function(&tx(None, vec![0x40, 0xc1, 0x0f, 0x19]), Some(&mint)));
    assert!(matches!(classify(&tx(Some(addr(1)), vec![1]), Some(&mint)), MintClass::NotMintLike));
}

#[test]
fn selector_is_lowercase_hex_of_first_four_bytes() {
    assert_eq!(selector(&vec![0xa9, 0x05, 0x9c, 0xbb, 0xff]), "0xa9059cbb");
    assert_eq!(selector(&vec![0, 1, 0x0a, 0xf0]), "0x00010af0");
}

#[test]
fn lookup_url_names_the_selector() {
    let url = mint_lookup_url(&tx(Some(addr(1)), vec![0x40, 0xc1, 0x0f, 0x19, 0, 0])).unwrap();
    assert_eq!(url, "https://www.4byte.directory/api/v1/signatures/?format=json&hex_signature=0x40c10f19");
}

#[test]
fn transfer_is_not_mint_and_mint_is() {
    let candidate = tx(Some(addr(1)), vec![0xa9, 0x05, 0x9c, 0xbb]);
    assert!(!is_mint_function(&candidate, Some(&root(1, &["transfer(address,uint256)"]))));
    assert!(is_mint_function(&candidate, Some(&root(1, &["mint(address,uint256)"]))));
}

#[test]
fn any_matching_signature_makes_a_mint() {
    assert!(is_mint_response(&root(2, &["transfer(address,uint256)", "safeMintNFT(address)"])));
    assert!(!is_mint_response(&root(2, &["transfer(address,uint256)", "Mint(address)"])));
    assert!(!is_mint_response(&root(0, &["mint(address,uint256)"])));
    assert!(!is_mint_response(&root(1, &[])));
    assert!(is_mint_signature("buyNFT()"));
    assert!(!is_mint_signature("nft()"));
}

#[test]
fn failed_lookup_is_indeterminate() {
    let candidate = tx(Some(addr(1)), vec![1, 2, 3, 4]);
    assert!(matches!(classify(&candidate, None), MintClass::Indeterminate));
    assert!(!is_mint_function(&candidate, None));
    assert!(matches!(classify(&candidate, Some(&root(1, &["mint()"]))), MintClass::MintLike));
}

#[test]
fn registry_inserts_once() {
    let mut reg = ContractManager::new("save.json");
    assert_eq!(reg.file(), "save.json");
    assert!(!reg.contains(&addr(1)));
    assert!(reg.add(&addr(1), "first"));
    assert!(reg.contains(&addr(1)));
    assert!(!reg.add(&addr(1), "second"));
    assert_eq!(reg.lookup(&addr(1)), Some("first".to_string()));
    assert_eq!(reg.lookup(&addr(2)), None);
    assert!(reg.add(&addr(2), "other"));
    assert_eq!(reg.lookup(&addr(1)), Some("first".to_string()));
}

#[test]
fn address_hex_round_trip() {
    let a = Address { bytes: [0xab; 20] };
    let text = a.to_hex();
    assert_eq!(text, format!("0x{}", "ab".repeat(20)));
    assert_eq!(Address::parse(&text).unwrap().bytes, a.bytes);
    assert_eq!(Address::parse(&format!("0x{}", "AB".repeat(20))).unwrap().bytes, a.bytes);
    assert_eq!(Address::parse(&"ab".repeat(20)).unwrap().bytes, a.bytes);
    assert!(Address::parse(&format!("0x{}", "ab".repeat(19))).is_none());
    assert!(Address::parse("0xab").is_none());
    assert!(Address::parse(&format!("0x{}", "zz".repeat(20))).is_none());
    assert!(Address::parse(&"ab".repeat(21)).is_none());
}

#[test]
fn registry_saves_as_json_object() {
    let mut reg = ContractManager::new("save.json");
    assert_eq!(reg.to_json(), "{}");
    reg.add(&addr(0x01), "ipfs://a\"b");
    reg.add(&addr(0x02), "x");
    let expected = format!(
        "{{\"0x{}\":\"ipfs://a\\\"b\",\"0x{}\":\"x\"}}",
        "01".repeat(20),
        "02".repeat(20)
    );
    assert_eq!(reg.to_json(), expected);
}

#[test]
fn registry_payloads_are_escaped_as_json() {
    let mut reg = ContractManager::new("save.json");
    reg.add(&addr(0x03), "a\\b\tc\n\u{1}\u{1f}é");
    let expected = format!("{{\"0x{}\":\"a\\\\b\\tc\\n\\u0001\\u001fé\"}}", "03".repeat(20));
    assert_eq!(reg.to_json(), expected);
    let (loaded, ok) = ContractManager::from_json("save.json", &reg.to_json());
    assert!(ok);
    assert_eq!(loaded.lookup(&addr(0x03)), Some("a\\b\tc\n\u{1}\u{1f}é".to_string()));
}

#[test]
fn registry_keys_without_prefix_are_read() {
    let text = format!("{{\"{}\":\"x\"}}", "0c".repeat(20));
    let (reg, ok) = ContractManager::from_json("save.json", &text);
    assert!(ok);
    assert_eq!(reg.lookup(&addr(0x0c)), Some("x".to_string()));
}

#[test]
fn registry_loads_what_it_saved() {
    let mut reg = ContractManager::new("save.json");
    reg.add(&addr(0x11), "one");
    reg.add(&addr(0x22), "two");
    let (loaded, ok) = ContractManager::from_json("save.json", &reg.to_json());
    assert!(ok);
    assert_eq!(loaded.lookup(&addr(0x11)), Some("one".to_string()));
    assert_eq!(loaded.lookup(&addr(0x22)), Some("two".to_string()));
    assert_eq!(loaded.lookup(&addr(0x33)), None);
}

#[test]
fn missing_or_malformed_store_is_empty() {
    let reg = ContractManager::get("error.json", None);
    assert_eq!(reg.to_json(), "{}");
    let (bad, ok) = ContractManager::from_json("error.json", "not json");
    assert!(!ok);
    assert_eq!(bad.to_json(), "{}");
    let (bad_key, ok) = ContractManager::from_json("error.json", "{\"0x12\":\"a\"}");
    assert!(!ok);
    assert_eq!(bad_key.lookup(&addr(0x12)), None);
    let reg = ContractManager::get("error.json", Some("[1,2]"));
    assert_eq!(reg.to_json(), "{}");
}

#[test]
fn keys_of_either_case_name_one_address() {
    let text = format!("{{\"0x{}\":\"lower\",\"0x{}\":\"upper\"}}", "ab".repeat(20), "AB".repeat(20));
    let (reg, ok) = ContractManager::from_json("save.json", &text);
    assert!(ok);
    // keys are read in order, upper case first, and the first one kept
    assert_eq!(reg.lookup(&addr(0xab)), Some("upper".to_string()));
}

#[test]
fn second_resolve_of_an_address_fetches_nothing() {
    let mut resolved = ContractManager::new("save.json");
    let mut failed = ContractManager::new("error.json");
    let first = resolve_contract(&addr(5), Ok("ipfs://abc123/meta.json".to_string()), &mut resolved, &mut failed);
    assert_eq!(first.unwrap(), Some("https://ipfs.io/abc123/meta.json".to_string()));
    let second = resolve_contract(&addr(5), Ok("ipfs://other".to_string()), &mut resolved, &mut failed);
    assert_eq!(second.unwrap(), None);
    assert_eq!(resolved.lookup(&addr(5)), Some("ipfs://abc123/meta.json".to_string()));
    assert!(!failed.contains(&addr(5)));
}

#[test]
fn failed_probe_is_recorded_and_tried_again() {
    let mut resolved = ContractManager::new("save.json");
    let mut failed = ContractManager::new("error.json");
    let r = resolve_contract(&addr(7), Err("execution reverted".to_string()), &mut resolved, &mut failed);
    match r {
        Err(ResolveError::ContractCall(e)) => assert_eq!(e, "execution reverted"),
        _ => panic!("expected a contract call error"),
    }
    assert_eq!(failed.lookup(&addr(7)), Some("execution reverted".to_string()));
    assert!(!resolved.contains(&addr(7)));
    let again = resolve_contract(&addr(7), Err("still reverted".to_string()), &mut resolved, &mut failed);
    assert!(matches!(again, Err(ResolveError::ContractCall(_))));
    assert_eq!(failed.lookup(&addr(7)), Some("execution reverted".to_string()));
    let later = resolve_contract(&addr(7), Ok("https://x/1".to_string()), &mut resolved, &mut failed);
    assert_eq!(later.unwrap(), Some("https://x/1".to_string()));
}

#[test]
fn metadata_document_resolves_token() {
    let body = "{\"name\":\"Foo\",\"description\":\"Bar\",\"image\":\"ipfs://xyz\"}".to_string();
    let info = finish_resolve("ipfs://abc123/meta.json", Ok(body)).ok().unwrap();
    assert_eq!(info.name, "Foo");
    assert_eq!(info.description, "Bar");
    assert_eq!(info.uri, "https://ipfs.io/abc123/meta.json");
    assert_eq!(info.image_uri, "https://ipfs.io/xyz");
}

#[test]
fn fetch_failure_and_malformed_document_are_errors() {
    match finish_resolve("ipfs://a", Err("timed out".to_string())) {
        Err(ResolveError::Fetch(e)) => assert_eq!(e, "timed out"),
        _ => panic!("expected a fetch error"),
    }
    let missing = "{\"name\":\"Foo\",\"image\":\"x\"}".to_string();
    assert!(matches!(finish_resolve("ipfs://a", Ok(missing)), Err(ResolveError::Malformed)));
    let not_string = "{\"name\":1,\"description\":\"d\",\"image\":\"x\"}".to_string();
    assert!(matches!(finish_resolve("ipfs://a", Ok(not_string)), Err(ResolveError::Malformed)));
    assert!(matches!(finish_resolve("ipfs://a", Ok("<html>".to_string())), Err(ResolveError::Malformed)));
    let short_image = "{\"name\":\"Foo\",\"description\":\"Bar\",\"image\":\"xyz\"}".to_string();
    assert!(matches!(finish_resolve("ipfs://a", Ok(short_image)), Err(ResolveError::Malformed)));
}

#[test]
fn short_token_uri_is_rejected() {
    let body = "{\"name\":\"Foo\",\"description\":\"Bar\",\"image\":\"ipfs://xyz\"}".to_string();
    match finish_resolve("abc", Ok(body)) {
        Err(ResolveError::UriTooShort(u)) => assert_eq!(u, "abc"),
        _ => panic!("expected a short URI error"),
    }
    let mut resolved = ContractManager::new("save.json");
    let mut failed = ContractManager::new("error.json");
    match resolve_contract(&addr(9), Ok("abc".to_string()), &mut resolved, &mut failed) {
        Err(ResolveError::UriTooShort(u)) => assert_eq!(u, "abc"),
        _ => panic!("expected a short URI error"),
    }
    assert_eq!(resolved.lookup(&addr(9)), Some("abc".to_string()));
    assert_eq!(resolve_contract(&addr(9), Ok("abc".to_string()), &mut resolved, &mut failed).unwrap(), None);
}

#[test]
fn metadata_from_fields_and_json() {
    let info = info_from_fields(Some("n".to_string()), Some("d".to_string()), Some("https://i".to_string()), "https://u").unwrap();
    assert_eq!(info.image_uri, "https://i");
    assert_eq!(info.uri, "https://u");
    assert!(info_from_fields(None, Some("d".to_string()), Some("https://i".to_string()), "https://u").is_none());
    assert!(info_from_fields(Some("n".to_string()), Some("d".to_string()), Some("i".to_string()), "https://u").is_none());
    let j = info_from_json("{\"name\":\"a\\nb\",\"description\":\"\",\"image\":\"ipfs://q\",\"extra\":3}", "ipfs://t").unwrap();
    assert_eq!(j.name, "a\nb");
    assert_eq!(j.description, "");
    assert_eq!(j.image_uri, "https://ipfs.io/q");
    let base = Erc721Info::from_fields("n", "d", "ipfs://img");
    assert_eq!(base.uri, "");
    let with_uri = base.set_uri("ipfs://tok");
    assert_eq!(with_uri.uri, "https://ipfs.io/tok");
    assert_eq!(with_uri.image_uri, "https://ipfs.io/img");
}

#[test]
fn media_kind_from_uri_ending() {
    assert!(matches!(media_kind("https://x/a.mp4"), Some(MediaKind::Mp4)));
    assert!(matches!(media_kind("https://x/a.png"), Some(MediaKind::Png)));
    assert!(matches!(media_kind("a.gif"), Some(MediaKind::Gif)));
    assert!(matches!(media_kind("a.jpg"), Some(MediaKind::Jpg)));
    assert!(matches!(media_kind("a.webp"), Some(MediaKind::Webp)));
    assert!(media_kind("a.svg").is_none());
    assert!(media_kind("mp4").is_none());
    assert!(media_kind("").is_none());
}

#[test]
fn post_text_has_name_and_uri_lines() {
    assert_eq!(post_text("Foo", "https://x/a.png"), "Foo\nhttps://x/a.png\n");
}

#[test]
fn block_is_new_when_its_identity_changes() {
    assert!(!is_new_block(&None, &None));
    assert!(is_new_block(&None, &Some(vec![1, 2])));
    assert!(is_new_block(&Some(vec![1, 2]), &None));
    assert!(!is_new_block(&Some(vec![1, 2]), &Some(vec![1, 2])));
    assert!(is_new_block(&Some(vec![1, 2]), &Some(vec![1, 3])));
    assert!(is_new_block(&Some(vec![1]), &Some(vec![1, 0])));
}
