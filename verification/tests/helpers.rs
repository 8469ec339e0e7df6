use oracle_swap::swap::helpers::{
    _caps_to_map, balances_to_map, BoostQuerier, QueryMsg, TaxQuerier, TokenQuerier,
    VaultStateQuerier,
};

#[test]
fn token_querier_knows_its_balances() {
    let querier = TokenQuerier::new(&[
        (
            &"token_a".to_string(),
            &[(&"alice".to_string(), &10u128), (&"bob".to_string(), &20u128)],
        ),
        (&"token_b".to_string(), &[(&"alice".to_string(), &30u128)]),
    ]);
    assert_eq!(querier.get_balance("token_a", "alice"), 10);
    assert_eq!(querier.get_balance("token_a", "bob"), 20);
    assert_eq!(querier.get_balance("token_b", "alice"), 30);
}

#[test]
fn token_querier_answers_zero_for_what_it_does_not_know() {
    let querier = TokenQuerier::new(&[(&"token_a".to_string(), &[(&"alice".to_string(), &10u128)])]);
    assert_eq!(querier.get_balance("token_a", "carol"), 0);
    assert_eq!(querier.get_balance("token_c", "alice"), 0);
    assert_eq!(TokenQuerier::default().get_balance("token_a", "alice"), 0);
    assert_eq!(TokenQuerier::new(&[]), TokenQuerier::default());
}

#[test]
fn later_balance_replaces_an_earlier_one() {
    let querier = TokenQuerier::new(&[
        (
            &"token_a".to_string(),
            &[(&"alice".to_string(), &10u128), (&"alice".to_string(), &11u128)],
        ),
        (&"token_b".to_string(), &[(&"alice".to_string(), &30u128)]),
        (&"token_b".to_string(), &[(&"bob".to_string(), &40u128)]),
    ]);
    assert_eq!(querier.get_balance("token_a", "alice"), 11);
    assert_eq!(querier.get_balance("token_b", "alice"), 0);
    assert_eq!(querier.get_balance("token_b", "bob"), 40);
}

#[test]
fn tables_keep_the_newest_entry_first() {
    let caps = _caps_to_map(&[
        (&"uluna".to_string(), &1u128),
        (&"uusd".to_string(), &2u128),
        (&"uluna".to_string(), &3u128),
    ]);
    assert_eq!(
        caps,
        vec![("uluna".to_string(), 3), ("uusd".to_string(), 2), ("uluna".to_string(), 1)]
    );
    let ledgers = balances_to_map(&[(&"token_a".to_string(), &[(&"alice".to_string(), &10u128)])]);
    assert_eq!(ledgers, vec![("token_a".to_string(), vec![("alice".to_string(), 10)])]);
    assert!(_caps_to_map(&[]).is_empty());
}

#[test]
fn tax_querier_keeps_rate_and_caps() {
    let one_percent = 10_000_000_000_000_000u128;
    let querier = TaxQuerier::_new(one_percent, &[(&"uusd".to_string(), &1_000_000u128)]);
    assert_eq!(querier, TaxQuerier::_new(one_percent, &[(&"uusd".to_string(), &1_000_000u128)]));
    assert_ne!(querier, TaxQuerier::_new(0, &[(&"uusd".to_string(), &1_000_000u128)]));
    assert_ne!(querier, TaxQuerier::_new(one_percent, &[]));
    assert_eq!(TaxQuerier::default(), TaxQuerier::_new(0, &[]));
}

#[test]
fn vault_keeps_its_total() {
    let vault = VaultStateQuerier::new(&500u128);
    assert_eq!(vault, VaultStateQuerier::new(&500u128));
    assert_ne!(vault, VaultStateQuerier::new(&501u128));
    assert_eq!(VaultStateQuerier::default(), VaultStateQuerier::new(&0u128));
}

#[test]
fn boost_is_zero_unless_set() {
    let querier = BoostQuerier {
        boost_map: vec![("alice".to_string(), 5), ("alice".to_string(), 6)],
    };
    assert_eq!(querier.get_boost(&"alice".to_string()), Ok(5));
    assert_eq!(querier.get_boost(&"bob".to_string()), Ok(0));
    assert_eq!(BoostQuerier::default().get_boost(&"alice".to_string()), Ok(0));
}

#[test]
fn query_messages_compare_by_content() {
    assert_eq!(
        QueryMsg::Balance { address: "alice".to_string() },
        QueryMsg::Balance { address: "alice".to_string() }
    );
    assert_ne!(QueryMsg::TokenInfo {}, QueryMsg::State {});
    assert_ne!(
        QueryMsg::GetBoost { user: "alice".to_string() },
        QueryMsg::RewardAssetWhitelist {}
    );
}
