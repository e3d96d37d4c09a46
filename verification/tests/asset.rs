use cosmwasm_std::{to_binary, StdError, Uint128};
use cw20::Cw20ExecuteMsg;
use hope_marketplace::asset::{Asset, AssetInfo};
use hope_marketplace::contract::{attached_amount, wasm_execute};
use hope_marketplace::host::{BankMsg, Coin, CosmosMsg, MessageInfo, WasmMsg};

fn native(denom: &str) -> AssetInfo {
    AssetInfo::NativeToken { denom: denom.to_string() }
}

fn token(addr: &str) -> AssetInfo {
    AssetInfo::Token { contract_addr: addr.to_string() }
}

fn sent(funds: Vec<(&str, u128)>) -> MessageInfo {
    MessageInfo {
        sender: "sender".to_string(),
        funds: funds
            .into_iter()
            .map(|(denom, amount)| Coin { denom: denom.to_string(), amount })
            .collect(),
    }
}

#[test]
fn asset_info_tells_its_kind() {
    assert!(native("ujuno").is_native_token());
    assert!(!token("addr").is_native_token());
}

#[test]
fn asset_info_bytes_and_text() {
    assert_eq!(native("ujuno").as_bytes(), b"ujuno");
    assert_eq!(token("addr1").as_bytes(), b"addr1");
    assert_eq!(native("\u{e9}").as_bytes(), &[0xc3, 0xa9]);
    assert_eq!(native("ujuno").to_string(), "ujuno");
    assert_eq!(token("addr1").to_string(), "addr1");
}

#[test]
fn asset_info_equal_needs_same_tag_and_text() {
    assert!(native("a").equal(&native("a")));
    assert!(token("a").equal(&token("a")));
    assert!(!native("a").equal(&native("b")));
    assert!(!token("a").equal(&token("b")));
    assert!(!native("a").equal(&token("a")));
    assert!(!token("a").equal(&native("a")));
}

#[test]
fn asset_text_is_amount_then_currency() {
    assert_eq!(Asset { info: native("ujuno"), amount: 250 }.to_string(), "250ujuno");
    assert_eq!(Asset { info: token("addr"), amount: 0 }.to_string(), "0addr");
}

#[test]
fn attached_amount_is_first_match_or_zero() {
    let info = sent(vec![("a", 1), ("b", 2), ("a", 3)]);
    assert_eq!(attached_amount(&info.funds, &"a".to_string()), 1);
    assert_eq!(attached_amount(&info.funds, &"b".to_string()), 2);
    assert_eq!(attached_amount(&info.funds, &"c".to_string()), 0);
    assert_eq!(attached_amount(&vec![], &"a".to_string()), 0);
}

#[test]
fn sent_balance_must_match_a_native_asset() {
    let asset = Asset { info: native("ujuno"), amount: 5 };
    assert!(asset.assert_sent_native_token_balance(&sent(vec![("ujuno", 5)])).is_ok());
    assert!(asset.assert_sent_native_token_balance(&sent(vec![("x", 1), ("ujuno", 5)])).is_ok());
    let err = asset.assert_sent_native_token_balance(&sent(vec![("ujuno", 6)])).unwrap_err();
    assert_eq!(
        err,
        StdError::generic_err(
            "Native token balance mismatch between the argument and the transferred"
        )
    );
    assert!(asset.assert_sent_native_token_balance(&sent(vec![("ujuno", 4)])).is_err());
    assert!(asset.assert_sent_native_token_balance(&sent(vec![])).is_err());
    assert!(asset.assert_sent_native_token_balance(&sent(vec![("other", 5)])).is_err());
    let nothing = Asset { info: native("ujuno"), amount: 0 };
    assert!(nothing.assert_sent_native_token_balance(&sent(vec![])).is_ok());
    assert!(nothing.assert_sent_native_token_balance(&sent(vec![("ujuno", 1)])).is_err());
}

#[test]
fn sent_balance_is_not_checked_for_a_token() {
    let asset = Asset { info: token("addr"), amount: 5 };
    assert!(asset.assert_sent_native_token_balance(&sent(vec![])).is_ok());
    assert!(asset.assert_sent_native_token_balance(&sent(vec![("addr", 9)])).is_ok());
}

#[test]
fn native_asset_is_paid_by_the_bank() {
    let asset = Asset { info: native("ujuno"), amount: 7 };
    assert_eq!(
        asset.into_msg("bob".to_string()).unwrap(),
        CosmosMsg::Bank(BankMsg::Send {
            to_address: "bob".to_string(),
            amount: vec![Coin { denom: "ujuno".to_string(), amount: 7 }],
        })
    );
}

#[test]
fn token_asset_is_paid_by_its_contract() {
    let asset = Asset { info: token("addr"), amount: 7 };
    assert_eq!(
        asset.into_msg("bob".to_string()).unwrap(),
        CosmosMsg::Wasm(WasmMsg::Execute {
            contract_addr: "addr".to_string(),
            msg: to_binary(&Cw20ExecuteMsg::Transfer {
                recipient: "bob".to_string(),
                amount: Uint128::new(7),
            })
            .unwrap()
            .0,
            funds: vec![],
        })
    );
}

#[test]
fn wasm_execute_wraps_bytes_or_hands_the_error_on() {
    assert_eq!(
        wasm_execute("addr".to_string(), Ok(vec![1, 2, 3])).unwrap(),
        CosmosMsg::Wasm(WasmMsg::Execute {
            contract_addr: "addr".to_string(),
            msg: vec![1, 2, 3],
            funds: vec![],
        })
    );
    let err = wasm_execute("addr".to_string(), Err(StdError::generic_err("no"))).unwrap_err();
    assert_eq!(err, StdError::generic_err("no"));
}
