use simple_price_db::contract::{
    encode_query_outcome, execute, instantiate, query, query_price, quote_symbol, try_set_oracle_ref,
    try_set_price, ExecuteOutcome, QueryAnswer,
};
use simple_price_db::error::RegistryError;
use simple_price_db::identity::Identity;
use simple_price_db::msg::{ExecuteMsg, InstantiateMsg, QueryExtMsg, QueryMsg};
use simple_price_db::state::Registry;
use simple_price_db::struct_types::ReferenceData;

fn ident(s: &str) -> Identity {
    Identity::new(s.as_bytes().to_vec())
}

fn initialized(owner: &str, oracle: &str) -> Registry {
    let mut state = Registry::new();
    instantiate(&mut state, &ident(owner), InstantiateMsg { initial_oracle_ref: ident(oracle) })
        .unwrap();
    state
}

#[test]
fn foreign_caller_cannot_set_oracle_ref() {
    let mut state = initialized("owner_a", "ref_1");
    let r = try_set_oracle_ref(&mut state, &ident("owner_b"), ident("ref_2"));
    assert_eq!(r.unwrap_err(), RegistryError::Unauthorized);
    // the reference is unchanged
    match query(&state, QueryMsg::OracleRef {}).unwrap() {
        QueryAnswer::OracleRef(id) => assert!(id.same_as(&ident("ref_1"))),
        _ => panic!("expected an oracle reference"),
    }
}

#[test]
fn get_price_before_any_save_is_not_found() {
    let state = initialized("owner", "oracle");
    match query_price(&state, "X".to_string()) {
        Err(RegistryError::NotFound { symbol }) => assert_eq!(symbol, "X"),
        other => panic!("expected NotFound, got {:?}", other),
    }
}

#[test]
fn new_oracle_ref_routes_later_saves() {
    let mut state = initialized("owner", "ref_1");
    try_set_oracle_ref(&mut state, &ident("owner"), ident("ref_2")).unwrap();

    let outcome =
        execute(&mut state, &ident("owner"), ExecuteMsg::SavePrice { symbol: "BTC".to_string() })
            .unwrap();
    match outcome {
        ExecuteOutcome::FetchReference { target, request } => {
            assert!(target.same_as(&ident("ref_2")));
            assert!(!target.same_as(&ident("ref_1")));
            let QueryExtMsg::GetReferenceData { base_symbol, quote_symbol } = request;
            assert_eq!(base_symbol, "BTC");
            assert_eq!(quote_symbol, "USD");
        }
        ExecuteOutcome::Completed => panic!("a save must ask for a fetch"),
    }
}

#[test]
fn failed_fetch_leaves_no_partial_write() {
    let mut state = initialized("owner", "oracle");
    let r = try_set_price(
        &mut state,
        &ident("owner"),
        "BTC".to_string(),
        Err("oracle unreachable".to_string()),
    );
    match r.unwrap_err() {
        RegistryError::RemoteQueryFailed { detail } => assert_eq!(detail, "oracle unreachable"),
        other => panic!("expected RemoteQueryFailed, got {:?}", other),
    }
    // no partial write occurred
    assert!(matches!(
        query_price(&state, "BTC".to_string()),
        Err(RegistryError::NotFound { .. })
    ));
}

#[test]
fn save_then_get_round_trips_exactly() {
    let mut state = initialized("owner", "oracle");
    let fetched = ReferenceData::new(42, 1_600_000_000, 1_600_000_001);
    try_set_price(&mut state, &ident("owner"), "BTC".to_string(), Ok(fetched)).unwrap();
    assert_eq!(query_price(&state, "BTC".to_string()).unwrap(), 42);
    // only the rate is observable afterwards; a price query is the sole reader
    match query(&state, QueryMsg::GetPrice { symbol: "BTC".to_string() }).unwrap() {
        QueryAnswer::Price(rate) => assert_eq!(rate, 42),
        _ => panic!("expected a price"),
    }
}

#[test]
fn zero_and_maximum_rates_are_accepted() {
    let mut state = initialized("owner", "oracle");
    try_set_price(&mut state, &ident("owner"), "ZERO".to_string(), Ok(ReferenceData::new(0, 1, 2)))
        .unwrap();
    try_set_price(
        &mut state,
        &ident("owner"),
        "MAX".to_string(),
        Ok(ReferenceData::new(u128::MAX, 1, 2)),
    )
    .unwrap();
    assert_eq!(query_price(&state, "ZERO".to_string()).unwrap(), 0);
    assert_eq!(query_price(&state, "MAX".to_string()).unwrap(), u128::MAX);
}

#[test]
fn saving_again_replaces_the_entry() {
    let mut state = initialized("owner", "oracle");
    let owner = ident("owner");
    try_set_price(&mut state, &owner, "BTC".to_string(), Ok(ReferenceData::new(41, 1, 1))).unwrap();
    try_set_price(&mut state, &owner, "BTC".to_string(), Ok(ReferenceData::new(43, 2, 2))).unwrap();
    assert_eq!(query_price(&state, "BTC".to_string()).unwrap(), 43);
    // a second symbol is independent
    try_set_price(&mut state, &owner, "ETH".to_string(), Ok(ReferenceData::new(7, 3, 3))).unwrap();
    assert_eq!(query_price(&state, "BTC".to_string()).unwrap(), 43);
    assert_eq!(query_price(&state, "ETH".to_string()).unwrap(), 7);
}

#[test]
fn mutations_before_initialization_are_uninitialized() {
    let mut state = Registry::new();
    let r = try_set_oracle_ref(&mut state, &ident("anyone"), ident("oracle"));
    assert_eq!(r.unwrap_err(), RegistryError::Uninitialized);
    let r = try_set_price(
        &mut state,
        &ident("anyone"),
        "BTC".to_string(),
        Ok(ReferenceData::new(1, 1, 1)),
    );
    assert_eq!(r.unwrap_err(), RegistryError::Uninitialized);
    assert!(matches!(
        query(&state, QueryMsg::Owner {}),
        Err(RegistryError::Uninitialized)
    ));
}

#[test]
fn save_price_by_non_owner_is_unauthorized() {
    let mut state = initialized("owner", "oracle");
    let r = try_set_price(
        &mut state,
        &ident("mallory"),
        "BTC".to_string(),
        Ok(ReferenceData::new(1, 1, 1)),
    );
    assert_eq!(r.unwrap_err(), RegistryError::Unauthorized);
    let r = execute(&mut state, &ident("mallory"), ExecuteMsg::SavePrice {
        symbol: "BTC".to_string(),
    });
    assert!(matches!(r, Err(RegistryError::Unauthorized)));
}

#[test]
fn encoding_failure_is_distinct_from_domain_errors() {
    // a domain error passes through untouched, whatever the encoding did
    let r = encode_query_outcome(
        Err(RegistryError::NotFound { symbol: "X".to_string() }),
        None,
    );
    match r.unwrap_err() {
        RegistryError::NotFound { symbol } => assert_eq!(symbol, "X"),
        other => panic!("expected NotFound, got {:?}", other),
    }
    // a result the host could not serialize becomes EncodingFailed
    let r = encode_query_outcome(Ok(QueryAnswer::Price(1)), None);
    assert_eq!(r.unwrap_err(), RegistryError::EncodingFailed);
    // a serialized result comes back as the bytes
    let r = encode_query_outcome(Ok(QueryAnswer::Price(1)), Some(vec![4, 2]));
    assert_eq!(r.unwrap(), vec![4, 2]);
}

#[test]
fn quote_symbol_is_the_fixed_unit() {
    assert_eq!(quote_symbol(), "USD");
}

#[test]
fn reference_data_new_keeps_its_fields() {
    let rd = ReferenceData::new(5, 6, 7);
    assert_eq!(rd.rate, 5);
    assert_eq!(rd.last_updated_base, 6);
    assert_eq!(rd.last_updated_quote, 7);
}

#[test]
fn identity_equality_is_over_canonical_bytes() {
    let a = ident("alice");
    let b = ident("alice");
    let c = ident("bob");
    assert!(a.same_as(&b));
    assert!(!a.same_as(&c));
    assert!(a.same_as(&a.clone()));
    assert_eq!(a.as_bytes(), &b"alice".to_vec());
}
