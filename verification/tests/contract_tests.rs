use simple_price_db::contract::{
    execute, instantiate, query, query_oracle_ref, query_owner, QueryAnswer,
};
use simple_price_db::error::RegistryError;
use simple_price_db::identity::Identity;
use simple_price_db::msg::{ExecuteMsg, InstantiateMsg, QueryMsg};
use simple_price_db::state::Registry;

fn ident(s: &str) -> Identity {
    Identity::new(s.as_bytes().to_vec())
}

fn init_msg(r: &str) -> InstantiateMsg {
    InstantiateMsg { initial_oracle_ref: ident(r) }
}

fn handle_set_oracle_ref(r: &str) -> ExecuteMsg {
    ExecuteMsg::SetOracleRef { new_oracle_ref: ident(r) }
}

fn query_owner_msg() -> QueryMsg {
    QueryMsg::Owner {}
}

fn query_ref_msg() -> QueryMsg {
    QueryMsg::OracleRef {}
}

fn unwrap_identity(r: Result<QueryAnswer, RegistryError>) -> Identity {
    match r.unwrap() {
        QueryAnswer::Owner(id) => id,
        QueryAnswer::OracleRef(id) => id,
        QueryAnswer::Price(_) => panic!("expected an identity answer"),
    }
}

#[test]
fn proper_initialization() {
    let msg = init_msg("test_oracle_ref");
    let mut state = Registry::new();
    let info = ident("owner");

    // owner not initialized yet
    match query(&state, query_owner_msg()).unwrap_err() {
        RegistryError::Uninitialized => {}
        _ => panic!("Test Fail: expect OWNER_NOT_INITIALIZED"),
    }

    // Check if successfully set owner
    let res = instantiate(&mut state, &info, msg);
    assert!(res.is_ok());

    // Verify correct owner address
    assert!(ident("owner").same_as(&unwrap_identity(query(&state, query_owner_msg()))));

    // Verify correct ref address
    assert!(ident("test_oracle_ref").same_as(&unwrap_identity(query(&state, query_ref_msg()))));
}

#[test]
fn test_set_oracle_ref_fail_unauthorized() {
    let mut state = Registry::new();
    let info = ident("owner");

    // should successfully instantiate owner
    assert!(instantiate(&mut state, &info, init_msg("test_oracle_ref")).is_ok());

    // check owner in the state
    assert!(ident("owner").same_as(&unwrap_identity(query(&state, query_owner_msg()))));
    // check ref in the state
    assert!(ident("test_oracle_ref").same_as(&unwrap_identity(query(&state, query_ref_msg()))));

    let alice_info = ident("alice");

    // should fail because sender is alice not owner
    match execute(&mut state, &alice_info, handle_set_oracle_ref("test_oracle_ref")).unwrap_err() {
        RegistryError::Unauthorized => {}
        _ => panic!("Test Fail: expect NOT_AUTHORIZED"),
    }

    // check ref in the state
    assert!(ident("test_oracle_ref").same_as(&unwrap_identity(query(&state, query_ref_msg()))));
}

#[test]
fn test_set_ref_success() {
    let mut state = Registry::new();
    let info = ident("owner");

    // should successfully instantiate owner
    assert!(instantiate(&mut state, &info, init_msg("test_oracle_ref_1")).is_ok());

    // check owner in the state
    assert!(ident("owner").same_as(&unwrap_identity(query(&state, query_owner_msg()))));

    // check ref in the state
    assert!(ident("test_oracle_ref_1").same_as(&unwrap_identity(query(&state, query_ref_msg()))));

    // should successfully set new ref
    assert!(execute(&mut state, &info, handle_set_oracle_ref("test_oracle_ref_2")).is_ok());

    // check ref in the state should be the new reference
    assert!(ident("test_oracle_ref_2").same_as(&unwrap_identity(query(&state, query_ref_msg()))));
}

#[test]
fn query_helpers_return_identities() {
    let mut state = Registry::new();
    assert!(matches!(query_owner(&state), Err(RegistryError::Uninitialized)));
    assert!(matches!(query_oracle_ref(&state), Err(RegistryError::Uninitialized)));

    instantiate(&mut state, &ident("owner"), init_msg("oracle")).unwrap();
    assert_eq!(query_owner(&state).unwrap().as_bytes(), &b"owner".to_vec());
    assert_eq!(query_oracle_ref(&state).unwrap().as_bytes(), &b"oracle".to_vec());
}

#[test]
fn repeated_initialization_overwrites_both_singletons() {
    let mut state = Registry::new();
    instantiate(&mut state, &ident("first_owner"), init_msg("first_ref")).unwrap();
    // No guard exists: a second call silently replaces owner and reference.
    instantiate(&mut state, &ident("second_owner"), init_msg("second_ref")).unwrap();
    assert!(ident("second_owner").same_as(&query_owner(&state).unwrap()));
    assert!(ident("second_ref").same_as(&query_oracle_ref(&state).unwrap()));
}
