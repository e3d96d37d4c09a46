use hope_marketplace::decimal::decimal_string;
use hope_marketplace::error::ContractError;
use hope_marketplace::host::Response;
use hope_marketplace::order::{compare_keys, KeyOrder};
use hope_marketplace::state::{Asset, Offering, State, Storage};
use hope_marketplace::store::OfferingStore;

fn offering(token_id: &str) -> Offering {
    Offering {
        token_id: token_id.to_string(),
        seller: "seller".to_string(),
        list_price: Asset { denom: "coin".to_string(), amount: 1 },
    }
}

fn keys(store: &OfferingStore) -> Vec<String> {
    store.scan().into_iter().map(|(k, _)| k).collect()
}

#[test]
fn decimal_string_writes_plain_decimal() {
    assert_eq!(decimal_string(0), "0");
    assert_eq!(decimal_string(1), "1");
    assert_eq!(decimal_string(9), "9");
    assert_eq!(decimal_string(10), "10");
    assert_eq!(decimal_string(1234567890), "1234567890");
    assert_eq!(decimal_string(u64::MAX as u128), "18446744073709551615");
    assert_eq!(decimal_string(u128::MAX), "340282366920938463463374607431768211455");
}

#[test]
fn decimal_string_agrees_with_std() {
    for n in 0..2000u128 {
        assert_eq!(decimal_string(n), n.to_string());
    }
}

#[test]
fn keys_compare_byte_by_byte() {
    assert_eq!(compare_keys("1", "2"), KeyOrder::Before);
    assert_eq!(compare_keys("2", "1"), KeyOrder::After);
    assert_eq!(compare_keys("10", "2"), KeyOrder::Before);
    assert_eq!(compare_keys("1", "10"), KeyOrder::Before);
    assert_eq!(compare_keys("10", "1"), KeyOrder::After);
    assert_eq!(compare_keys("", "0"), KeyOrder::Before);
    assert_eq!(compare_keys("", ""), KeyOrder::Same);
    assert_eq!(compare_keys("abc", "abc"), KeyOrder::Same);
    assert_eq!(compare_keys("z", "\u{e9}"), KeyOrder::Before);
    assert_eq!(compare_keys("\u{10000}", "\u{ffff}"), KeyOrder::After);
}

#[test]
fn store_put_get_delete() {
    let mut store = OfferingStore::new();
    assert_eq!(store.len(), 0);
    assert!(store.get("1").is_none());
    store.put("1".to_string(), offering("a"));
    store.put("2".to_string(), offering("b"));
    assert_eq!(store.len(), 2);
    assert_eq!(store.get("1").unwrap(), offering("a"));
    assert_eq!(store.get("2").unwrap(), offering("b"));
    assert!(store.get("3").is_none());
    store.put("1".to_string(), offering("c"));
    assert_eq!(store.len(), 2);
    assert_eq!(store.get("1").unwrap(), offering("c"));
    store.delete("1");
    assert!(store.get("1").is_none());
    assert_eq!(store.get("2").unwrap(), offering("b"));
    assert_eq!(store.len(), 1);
    store.delete("1");
    store.delete("nothing");
    assert_eq!(store.len(), 1);
}

#[test]
fn store_scans_in_ascending_key_order() {
    let mut store = OfferingStore::new();
    for key in ["5", "10", "b", "1", "", "2", "a", "100"] {
        store.put(key.to_string(), offering(key));
    }
    assert_eq!(keys(&store), vec!["", "1", "10", "100", "2", "5", "a", "b"]);
    for (key, value) in store.scan() {
        assert_eq!(value.token_id, key);
    }
    store.delete("10");
    store.delete("");
    assert_eq!(keys(&store), vec!["1", "100", "2", "5", "a", "b"]);
    assert_eq!(keys(&store), keys(&store));
}

#[test]
fn storage_load_and_save() {
    let mut storage = Storage::new();
    assert!(matches!(storage.load(), Err(ContractError::Uninitialized {})));
    let state = State {
        owner: "o".to_string(),
        token_address: "t".to_string(),
        nft_address: "n".to_string(),
        offering_id: 4,
    };
    storage.save(state.clone());
    assert_eq!(storage.load().unwrap(), state);
    let other = State { owner: "p".to_string(), ..state.clone() };
    storage.save(other.clone());
    assert_eq!(storage.load().unwrap(), other);
    assert_eq!(storage.offerings.len(), 0);
}

#[test]
fn response_collects_in_order() {
    let r = Response::new()
        .add_attribute("a".to_string(), "1".to_string())
        .add_attribute("b".to_string(), "2".to_string());
    assert!(r.messages.is_empty());
    assert_eq!(r.attributes[0].key, "a");
    assert_eq!(r.attributes[1].value, "2");
    assert_eq!(Response::default(), Response::new());
}
