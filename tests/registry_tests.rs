use margined_engine::registry::{FeePool, InsuranceFund, RegistryError, VAMM_LIMIT};

const OWNER: u64 = 0;

fn fund() -> InsuranceFund {
    InsuranceFund::new(OWNER)
}

#[test]
fn test_query_vamm() {
    let mut f = fund();
    f.add_amm(OWNER, 1).unwrap();
    assert!(f.query_is_vamm(1).is_vamm);
}

#[test]
fn test_query_all_vamm() {
    let mut f = fund();
    assert_eq!(f.read_vammlist(VAMM_LIMIT), Vec::<u64>::new());
    f.add_amm(OWNER, 1).unwrap();
    f.add_amm(OWNER, 2).unwrap();
    assert_eq!(f.read_vammlist(VAMM_LIMIT), vec![1, 2]);
}

#[test]
fn test_add_amm() {
    let mut f = fund();
    assert!(!f.query_is_vamm(1).is_vamm);
    f.add_amm(OWNER, 1).unwrap();
    assert!(f.query_is_vamm(1).is_vamm);
}

#[test]
fn test_add_second_vamm() {
    let mut f = fund();
    f.add_amm(OWNER, 1).unwrap();
    f.add_amm(OWNER, 2).unwrap();
    assert!(f.query_is_vamm(2).is_vamm);
}

#[test]
fn test_remove_vamm() {
    let mut f = fund();
    f.add_amm(OWNER, 1).unwrap();
    assert!(f.query_is_vamm(1).is_vamm);
    f.remove_amm(OWNER, 1).unwrap();
    assert!(!f.query_is_vamm(1).is_vamm);
}

#[test]
fn test_vamm_off() {
    let mut f = fund();
    f.add_amm(OWNER, 7).unwrap();
    f.vamm_switch(7, false).unwrap();
    assert!(!f.query_vamm_status(7).unwrap().vamm_status);
}

#[test]
fn try_vamm_off_and_on() {
    let mut f = fund();
    assert_eq!(f.vamm_switch(7, false), Err(RegistryError::NotStored));
    assert_eq!(f.vamm_switch(7, true), Err(RegistryError::NotStored));
}

#[test]
fn test_vamm_on() {
    let mut f = fund();
    f.add_amm(OWNER, 7).unwrap();
    f.vamm_switch(7, false).unwrap();
    assert!(!f.query_vamm_status(7).unwrap().vamm_status);
    f.vamm_switch(7, true).unwrap();
    assert!(f.query_vamm_status(7).unwrap().vamm_status);
}

#[test]
fn test_off_vamm_off_again() {
    let mut f = fund();
    f.add_amm(OWNER, 7).unwrap();
    f.vamm_switch(7, false).unwrap();
    assert_eq!(f.vamm_switch(7, false), Err(RegistryError::AlreadyOff));
}

#[test]
fn test_on_vamm_on_again() {
    let mut f = fund();
    f.add_amm(OWNER, 7).unwrap();
    assert_eq!(f.vamm_switch(7, true), Err(RegistryError::AlreadyOn));
}

#[test]
fn test_query_vamm_status() {
    let mut f = fund();
    f.add_amm(OWNER, 1).unwrap();
    assert!(f.query_vamm_status(1).unwrap().vamm_status);
    f.vamm_switch(1, false).unwrap();
    assert!(!f.query_vamm_status(1).unwrap().vamm_status);
}

#[test]
fn test_all_vamm_status() {
    let mut f = fund();
    assert_eq!(f.read_all_vamm_status(VAMM_LIMIT), vec![]);
    f.add_amm(OWNER, 1).unwrap();
    f.add_amm(OWNER, 2).unwrap();
    assert_eq!(f.read_all_vamm_status(VAMM_LIMIT), vec![(1, true), (2, true)]);
    f.vamm_switch(1, false).unwrap();
    f.vamm_switch(2, false).unwrap();
    assert_eq!(f.read_all_vamm_status(VAMM_LIMIT), vec![(1, false), (2, false)]);
}

#[test]
fn test_not_owner() {
    let mut f = fund();
    let intruder = 99;
    assert_eq!(f.update_config(intruder, Some(intruder)), Err(RegistryError::Unauthorized));
    assert_eq!(f.add_amm(intruder, 1), Err(RegistryError::Unauthorized));
    f.add_amm(OWNER, 1).unwrap();
    assert_eq!(f.remove_amm(intruder, 1), Err(RegistryError::Unauthorized));
    assert!(f.query_is_vamm(1).is_vamm);
    f.update_config(OWNER, Some(5)).unwrap();
    assert_eq!(f.owner, 5);
    assert_eq!(f.add_amm(OWNER, 2), Err(RegistryError::Unauthorized));
}

#[test]
fn test_pagination() {
    let mut f = fund();
    f.add_amm(OWNER, 1).unwrap();
    f.add_amm(OWNER, 2).unwrap();
    assert_eq!(f.read_all_vamm_status(1), vec![(1, true)]);
}

#[test]
fn test_vamm_capacity() {
    let mut f = fund();
    for n in 1..11u64 {
        f.add_amm(OWNER, n).unwrap();
    }
    assert_eq!(f.add_amm(OWNER, 11), Err(RegistryError::CapacityReached));
    let mut g = fund();
    for n in 1..12u64 {
        if n == 11 {
            assert_eq!(g.add_amm(OWNER, n), Err(RegistryError::CapacityReached));
            break;
        }
        g.add_amm(OWNER, n).unwrap();
    }
}

#[test]
fn registry_rejects_duplicate_and_unknown_removal() {
    let mut f = fund();
    f.add_amm(OWNER, 3).unwrap();
    assert_eq!(f.add_amm(OWNER, 3), Err(RegistryError::AlreadyAdded));
    assert_eq!(f.remove_amm(OWNER, 4), Err(RegistryError::NotAdded));
    assert_eq!(f.read_vamm_status(4), Err(RegistryError::NotStored));
}

#[test]
fn fee_pool_tokens_and_sends() {
    let mut pool = FeePool::new(OWNER);
    assert_eq!(pool.query_token_list_length().length, 0);
    pool.add_token(OWNER, 10).unwrap();
    pool.add_token(OWNER, 11).unwrap();
    assert_eq!(pool.add_token(OWNER, 10), Err(RegistryError::AlreadyAdded));
    assert_eq!(pool.add_token(1, 12), Err(RegistryError::Unauthorized));
    assert_eq!(pool.query_token_list_length().length, 2);
    assert!(pool.query_is_token(11).is_token);
    pool.remove_token(OWNER, 10).unwrap();
    assert!(!pool.query_is_token(10).is_token);
    assert_eq!(pool.remove_token(OWNER, 10), Err(RegistryError::NotAdded));
    assert_eq!(pool.send_token(OWNER, 10, 5, 2, 100), Err(RegistryError::NotAdded));
    assert_eq!(pool.send_token(OWNER, 11, 500, 2, 100), Err(RegistryError::InsufficientFunds));
    assert_eq!(pool.send_token(1, 11, 5, 2, 100), Err(RegistryError::Unauthorized));
    let t = pool.send_token(OWNER, 11, 50, 2, 100).unwrap();
    assert_eq!((t.token, t.recipient, t.amount), (11, 2, 50));
}

#[test]
fn fee_pool_owner_and_listing() {
    let mut pool = FeePool::new(OWNER);
    pool.add_token(OWNER, 10).unwrap();
    pool.add_token(OWNER, 11).unwrap();
    pool.add_token(OWNER, 12).unwrap();
    assert_eq!(pool.query_all_token(2), vec![10, 11]);
    assert_eq!(pool.query_all_token(10), vec![10, 11, 12]);
    assert_eq!(pool.update_config(1, Some(1)), Err(RegistryError::Unauthorized));
    pool.update_config(OWNER, Some(1)).unwrap();
    assert_eq!(pool.owner, 1);
    let mut f = fund();
    f.add_amm(OWNER, 4).unwrap();
    f.add_amm(OWNER, 6).unwrap();
    assert_eq!(f.query_mult_vamm(), vec![4, 6]);
}
