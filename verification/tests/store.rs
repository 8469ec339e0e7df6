use oracle_swap::decimal::u128_to_string;
use oracle_swap::error::ContractError;
use oracle_swap::host::{Attribute, Coin, CosmosMsg, Response};
use oracle_swap::store::StateStore;

#[test]
fn empty_store_has_no_record() {
    let store: StateStore<u64> = StateStore::new();
    assert_eq!(store.load(), Err(ContractError::NotFound));
}

#[test]
fn save_then_load() {
    let mut store = StateStore::new();
    store.save(7u64);
    assert_eq!(store.load(), Ok(&7));
    store.save(8u64);
    assert_eq!(store.load(), Ok(&8));
}

#[test]
fn update_commits_what_the_action_returns() {
    let mut store = StateStore::new();
    store.save(7u64);
    let res = store.update(|n: &u64| Ok(*n + 1));
    assert_eq!(res, Ok(&8));
    assert_eq!(store.load(), Ok(&8));
}

#[test]
fn update_that_fails_writes_nothing() {
    let mut store = StateStore::new();
    store.save(7u64);
    let res = store.update(|_: &u64| Err(ContractError::Unauthorized));
    assert_eq!(res, Err(ContractError::Unauthorized));
    assert_eq!(store.load(), Ok(&7));
}

#[test]
fn update_of_an_empty_store_is_not_found() {
    let mut store: StateStore<u64> = StateStore::new();
    let res = store.update(|n: &u64| Ok(*n + 1));
    assert_eq!(res, Err(ContractError::NotFound));
    assert_eq!(store.load(), Err(ContractError::NotFound));
}

#[test]
fn numbers_in_base_ten() {
    assert_eq!(u128_to_string(0), "0");
    assert_eq!(u128_to_string(7), "7");
    assert_eq!(u128_to_string(10), "10");
    assert_eq!(u128_to_string(100), "100");
    assert_eq!(u128_to_string(1234567890), "1234567890");
    assert_eq!(u128_to_string(1_000_000_000_000), "1000000000000");
    assert_eq!(u128_to_string(u128::MAX), "340282366920938463463374607431768211455");
    assert_eq!(u128_to_string(u128::MAX), u128::MAX.to_string());
}

#[test]
fn response_is_built_in_order() {
    let empty = Response::new();
    assert!(empty.messages.is_empty() && empty.attributes.is_empty());
    assert_eq!(empty, Response::default());

    let send = CosmosMsg::BankSend {
        to_address: "alice".to_string(),
        amount: vec![Coin { denom: "uluna".to_string(), amount: 1 }],
    };
    let call = CosmosMsg::WasmExecute {
        contract_addr: "token".to_string(),
        msg: b"{}".to_vec(),
        funds: vec![],
    };
    let res = Response::new()
        .add_attribute("a", "1".to_string())
        .add_message(send.clone())
        .add_attribute("b", "2".to_string())
        .add_message(call.clone());
    assert_eq!(
        res.attributes,
        vec![
            Attribute { key: "a".to_string(), value: "1".to_string() },
            Attribute { key: "b".to_string(), value: "2".to_string() },
        ]
    );
    assert_eq!(res.messages, vec![send, call]);
}
