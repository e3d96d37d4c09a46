use cosmwasm_std::{Decimal, StdError};
use hope_marketplace::contract::{
    execute, settle_purchase, settle_token_purchase, settle_withdrawal,
};
use hope_marketplace::error::ContractError;
use hope_marketplace::host::{BankMsg, Coin, CosmosMsg, MessageInfo, WasmMsg};
use hope_marketplace::msg::ExecuteMsg;
use hope_marketplace::state::{Asset, Offering, State, Storage, UserInfo};

fn state() -> State {
    State {
        owner: "owner".to_string(),
        token_address: "token".to_string(),
        nft_address: "nft".to_string(),
        offering_id: 1,
    }
}

fn offering() -> Offering {
    Offering {
        token_id: "X.1".to_string(),
        seller: "s1".to_string(),
        list_price: Asset { denom: "coin".to_string(), amount: 2 },
    }
}

fn storage() -> Storage {
    let mut storage = Storage::new();
    storage.save(state());
    storage.offerings.put("1".to_string(), offering());
    storage
}

fn call(contract: &str, msg: &[u8]) -> CosmosMsg {
    CosmosMsg::Wasm(WasmMsg::Execute {
        contract_addr: contract.to_string(),
        msg: msg.to_vec(),
        funds: vec![],
    })
}

#[test]
fn withdrawal_settles_with_the_encoded_message() {
    let mut s = storage();
    let resp = settle_withdrawal(&mut s, "1", state(), Ok(vec![7, 8])).unwrap();
    assert_eq!(resp.messages, vec![call("nft", &[7, 8])]);
    assert!(resp.attributes.is_empty());
    assert!(s.offerings.get("1").is_none());
    assert_eq!(s.load().unwrap(), state());
}

#[test]
fn withdrawal_keeps_the_offering_when_encoding_fails() {
    let mut s = storage();
    let err = settle_withdrawal(&mut s, "1", state(), Err(StdError::generic_err("no"))).unwrap_err();
    match err {
        ContractError::Std(e) => assert_eq!(e, StdError::generic_err("no")),
        other => panic!("unexpected error {:?}", other),
    }
    assert_eq!(s.offerings.get("1").unwrap(), offering());
}

#[test]
fn purchase_settles_with_item_then_payment() {
    let mut s = storage();
    let resp = settle_purchase(&mut s, "1", state(), offering(), Ok(vec![1])).unwrap();
    assert_eq!(
        resp.messages,
        vec![
            call("nft", &[1]),
            CosmosMsg::Bank(BankMsg::Send {
                to_address: "s1".to_string(),
                amount: vec![Coin { denom: "coin".to_string(), amount: 2 }],
            }),
        ]
    );
    assert!(s.offerings.get("1").is_none());
}

#[test]
fn purchase_keeps_the_offering_when_encoding_fails() {
    let mut s = storage();
    let err = settle_purchase(&mut s, "1", state(), offering(), Err(StdError::generic_err("no")))
        .unwrap_err();
    assert!(matches!(err, ContractError::Std(_)));
    assert_eq!(s.offerings.get("1").unwrap(), offering());
}

#[test]
fn token_purchase_settles_with_item_then_tokens() {
    let mut s = storage();
    let resp = settle_token_purchase(&mut s, "1", state(), Ok(vec![1]), Ok(vec![2, 3])).unwrap();
    assert_eq!(resp.messages, vec![call("nft", &[1]), call("token", &[2, 3])]);
    assert!(s.offerings.get("1").is_none());
}

#[test]
fn token_purchase_reports_the_first_encoding_error() {
    let first = || Err(StdError::generic_err("first"));
    let second = || Err(StdError::generic_err("second"));
    let mut s = storage();
    match settle_token_purchase(&mut s, "1", state(), first(), second()).unwrap_err() {
        ContractError::Std(e) => assert_eq!(e, StdError::generic_err("first")),
        other => panic!("unexpected error {:?}", other),
    }
    match settle_token_purchase(&mut s, "1", state(), first(), Ok(vec![])).unwrap_err() {
        ContractError::Std(e) => assert_eq!(e, StdError::generic_err("first")),
        other => panic!("unexpected error {:?}", other),
    }
    match settle_token_purchase(&mut s, "1", state(), Ok(vec![]), second()).unwrap_err() {
        ContractError::Std(e) => assert_eq!(e, StdError::generic_err("second")),
        other => panic!("unexpected error {:?}", other),
    }
    assert_eq!(s.offerings.get("1").unwrap(), offering());
}

#[test]
fn admin_list_with_members_changes_nothing() {
    let mut s = storage();
    let members = vec![
        UserInfo { address: "a".to_string(), portion: Decimal::percent(40) },
        UserInfo { address: "b".to_string(), portion: Decimal::percent(60) },
    ];
    let info = MessageInfo { sender: "owner".to_string(), funds: vec![] };
    let resp = execute(&mut s, info, ExecuteMsg::SetAdminsList { members }, true).unwrap();
    assert!(resp.messages.is_empty());
    assert!(resp.attributes.is_empty());
    assert_eq!(s.load().unwrap(), state());
    assert_eq!(s.offerings.get("1").unwrap(), offering());
    assert_eq!(s.offerings.len(), 1);
}
