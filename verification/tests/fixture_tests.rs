use std::collections::HashMap;

use cargo_cost_lint::fixture_sdk::{Address, Bytes, Env, HostMap, Symbol, Vec as HostVec};
use cargo_cost_lint::fixtures::general::{bad_storage_in_while_loop, persist};
use cargo_cost_lint::fixtures::storage_cycles::two_cycles_same_key;

#[test]
fn test_with_hashmap() {
    let mut map: HashMap<String, i32> = HashMap::new();
    map.insert("key".to_string(), 1);
}

#[test]
fn test_with_vec() {
    let _vec: Vec<i32> = Vec::new();
}

#[test]
fn stand_in_storage_holds_nothing() {
    let env = Env;
    env.storage().instance().set(&1i32, &2i32);
    let v: Option<i32> = env.storage().instance().get(&1i32);
    assert!(v.is_none());
    assert!(!env.storage().persistent().has(&1i32));
    assert_eq!(env.ledger().sequence(), 0);
    assert_eq!(env.crypto().sha256(b"abc"), [0u8; 32]);
    let r: Result<i32, ()> = env.try_invoke_contract(&Address, &Symbol::new(&env, "f"), ());
    assert_eq!(r, Ok(0));
}

#[test]
fn stand_in_collections_are_inert() {
    let mut m: HostMap<u32, u32> = HostMap::new();
    m.insert(1, 2);
    assert_eq!(m.get(&1), None);
    assert_eq!(m.len(), 0);
    let mut v: HostVec<u32> = HostVec::new();
    v.push_back(3);
    assert!(!v.contains(&3));
    assert_eq!(v.position(|x| *x == 3), None);
    let mut b = Bytes::from("x");
    b.append(&Bytes::new());
    assert_eq!(b.len(), 0);
}

#[test]
fn fixtures_run_to_completion() {
    persist(&Env);
    bad_storage_in_while_loop(Env);
    two_cycles_same_key(Env);
}
