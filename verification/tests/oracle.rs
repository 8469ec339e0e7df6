use oracle_swap::error::ContractError;
use oracle_swap::host::{Attribute, Coin, ContractInfo, Env, MessageInfo};
use oracle_swap::oracle::contract::{execute, instantiate, query, query_price, try_updating_price};
use oracle_swap::oracle::msg::{ExecuteMsg, InstantiateMsg, QueryMsg};
use oracle_swap::oracle::state::State;
use oracle_swap::store::StateStore;

fn oracle_env() -> Env {
    Env { contract: ContractInfo { address: cosmwasm_std::testing::MOCK_CONTRACT_ADDR.to_string() } }
}

fn oracle_info(sender: &str, funds: &[Coin]) -> MessageInfo {
    MessageInfo { sender: sender.to_string(), funds: funds.to_vec() }
}

fn oracle_coins(amount: u128, denom: &str) -> Vec<Coin> {
    vec![Coin { denom: denom.to_string(), amount }]
}

fn oracle_at(owner: &str, price: u64) -> StateStore<State> {
    let mut store = StateStore::new();
    let info = oracle_info(owner, &[]);
    instantiate(&mut store, &oracle_env(), &info, InstantiateMsg { price }).unwrap();
    store
}

#[test]
fn proper_initialization() {
    let mut store = StateStore::new();

    let msg = InstantiateMsg { price: 17 };
    let info = oracle_info("creator", &oracle_coins(1000, "earth"));

    // we can just call .unwrap() to assert this was a success
    let res = instantiate(&mut store, &oracle_env(), &info, msg).unwrap();
    assert_eq!(0, res.messages.len());

    // it worked, let's query the state
    let res = query(&store, &oracle_env(), QueryMsg::QueryPrice {});
    assert_eq!(res, Ok(b"17".to_vec()));
    let value: u64 = cosmwasm_std::from_slice(&res.unwrap()).unwrap();
    assert_eq!(17, value);
}

#[test]
fn increment() {}

#[test]
fn instantiate_records_owner_and_price() {
    let mut store = StateStore::new();
    let info = oracle_info("creator", &oracle_coins(1000, "earth"));
    let res = instantiate(&mut store, &oracle_env(), &info, InstantiateMsg { price: 17 }).unwrap();
    assert_eq!(
        res.attributes,
        vec![
            Attribute { key: "method".to_string(), value: "instantiate".to_string() },
            Attribute { key: "owner".to_string(), value: "creator".to_string() },
            Attribute { key: "price".to_string(), value: "17".to_string() },
        ]
    );
    assert_eq!(store.load(), Ok(&State { owner: "creator".to_string(), price: 17 }));
}

#[test]
fn instantiate_accepts_any_price() {
    let store = oracle_at("creator", 0);
    assert_eq!(query_price(&store), Ok(0));
    let store = oracle_at("creator", u64::MAX);
    assert_eq!(query_price(&store), Ok(u64::MAX));
    assert_eq!(
        query(&store, &oracle_env(), QueryMsg::QueryPrice {}),
        Ok(b"18446744073709551615".to_vec())
    );
}

#[test]
fn owner_updates_price() {
    let mut store = oracle_at("creator", 17);
    let info = oracle_info("creator", &[]);
    let res = try_updating_price(&mut store, &info, 42).unwrap();
    assert_eq!(0, res.messages.len());
    assert_eq!(
        res.attributes,
        vec![Attribute { key: "method".to_string(), value: "try_updating_price".to_string() }]
    );
    assert_eq!(store.load(), Ok(&State { owner: "creator".to_string(), price: 42 }));
    assert_eq!(query_price(&store), Ok(42));
    assert_eq!(query(&store, &oracle_env(), QueryMsg::QueryPrice {}), Ok(b"42".to_vec()));
}

#[test]
fn last_update_wins() {
    let mut store = oracle_at("creator", 17);
    let info = oracle_info("creator", &[]);
    try_updating_price(&mut store, &info, 1).unwrap();
    try_updating_price(&mut store, &info, 2).unwrap();
    assert_eq!(query_price(&store), Ok(2));
}

#[test]
fn stranger_cannot_update_price() {
    let mut store = oracle_at("creator", 17);
    let before = store.clone();
    let info = oracle_info("anyone", &oracle_coins(2, "token"));
    let res = try_updating_price(&mut store, &info, 42);
    assert_eq!(res, Err(ContractError::Unauthorized));
    assert_eq!(store, before);
    assert_eq!(query_price(&store), Ok(17));
}

#[test]
fn execute_dispatches_update_price() {
    let mut store = oracle_at("creator", 17);
    let res = execute(
        &mut store,
        &oracle_env(),
        &oracle_info("creator", &[]),
        ExecuteMsg::UpdatePrice { price: 5 },
    );
    assert!(res.is_ok());
    assert_eq!(query_price(&store), Ok(5));

    let res = execute(
        &mut store,
        &oracle_env(),
        &oracle_info("mallory", &[]),
        ExecuteMsg::UpdatePrice { price: 6 },
    );
    assert_eq!(res, Err(ContractError::Unauthorized));
    assert_eq!(query_price(&store), Ok(5));
}

#[test]
fn oracle_that_was_never_created_is_not_found() {
    let mut store: StateStore<State> = StateStore::new();
    assert_eq!(query_price(&store), Err(ContractError::NotFound));
    assert_eq!(
        query(&store, &oracle_env(), QueryMsg::QueryPrice {}),
        Err(ContractError::NotFound)
    );
    let res = try_updating_price(&mut store, &oracle_info("creator", &[]), 3);
    assert_eq!(res, Err(ContractError::NotFound));
    assert_eq!(store, StateStore::new());
}

#[test]
fn repeated_queries_return_the_same_price() {
    let mut store = oracle_at("creator", 17);
    let first = query(&store, &oracle_env(), QueryMsg::QueryPrice {});
    let second = query(&store, &oracle_env(), QueryMsg::QueryPrice {});
    assert_eq!(first, second);
    assert_eq!(query_price(&store), query_price(&store));

    let _ = try_updating_price(&mut store, &oracle_info("mallory", &[]), 99);
    let third = query(&store, &oracle_env(), QueryMsg::QueryPrice {});
    assert_eq!(first, third);
}

#[test]
fn price_payload_is_the_number_in_json() {
    for price in [0u64, 9, 10, 26, 1000, 18446744073709551615] {
        let store = oracle_at("creator", price);
        let payload = query(&store, &oracle_env(), QueryMsg::QueryPrice {}).unwrap();
        assert_eq!(payload, price.to_string().into_bytes());
        let back: u64 = cosmwasm_std::from_slice(&payload).unwrap();
        assert_eq!(back, price);
    }
}
